//! The endpoints end to end, against tables that are kept in memory.
//!
//! A device is a key pair and a token at a source address; an account is a name
//! and a secret. A device claims an account by `/sign-up` or `/sign-in`, and
//! needs an administrator's approval before it may use it.

use std::io::Read;

use aes_gcm::aead::{Aead, AeadCore, KeyInit, OsRng};
use aes_gcm::{Aes256Gcm, Key};
use sha2::Digest;

use password_manager_server::config::Config;
use password_manager_server::domain::group::{Group, GroupCommand, GroupKey, GroupList};
use password_manager_server::domain::identity::{
    Identity, IdentityCommand, IdentityKey, IdentityList,
};
use password_manager_server::domain::password::{
    Password, PasswordCommand, PasswordKey, PasswordList,
};
use password_manager_server::domain::user::{User, UserCommand, UserKey};
use password_manager_server::error::{AppError, AppResult};
use password_manager_server::net::Peer;
use password_manager_server::routes::admin;
use password_manager_server::routes::greet::{greet_handler, GreetRequest, Insertion};
use password_manager_server::routes::group;
use password_manager_server::routes::passwords;
use password_manager_server::routes::passwords::{
    CreatePasswordRequest, ListParams, PasswordDetail, PasswordEntry, UpdatePasswordRequest,
};
use password_manager_server::routes::refresh::{refresh_handler, RefreshRequest};
use password_manager_server::routes::resign::{resign_handler, ResignRequest};
use password_manager_server::routes::signin::{
    sign_in_handler, sign_up_handler, LinkDevice, SignRequest,
};
use password_manager_server::routes::verify::verify_handler;
use password_manager_server::routes::{
    check_admin, validate_auth, AdminPass, AuthOwner, ClientIp, Session,
};
use password_manager_server::time::Timestamp;

// ─── The device's side of the cryptography ──────────────────────────────────

const X25519_BASEPOINT: [u8; 32] = [
    9, 0, 0, 0, 0, 0, 0, 0, 0, 0, 0, 0, 0, 0, 0, 0, 0, 0, 0, 0, 0, 0, 0, 0, 0, 0, 0, 0, 0, 0, 0, 0,
];

fn generate_client_keypair() -> ([u8; 32], [u8; 32]) {
    let mut private: [u8; 32] = rand::random();
    private[0] &= 248;
    private[31] &= 127;
    private[31] |= 64;
    let public = x25519_dalek::x25519(private, X25519_BASEPOINT);
    (private, public)
}

fn encrypt_with_shared_key(data: &[u8], shared_key: &[u8; 32]) -> Vec<u8> {
    let cipher = Aes256Gcm::new(Key::<Aes256Gcm>::from_slice(shared_key));
    let nonce = Aes256Gcm::generate_nonce(&mut OsRng);
    let ciphertext = cipher.encrypt(&nonce, data).unwrap();
    let mut result = nonce.to_vec();
    result.extend_from_slice(&ciphertext);
    result
}

fn decrypt_with_shared_key(data: &[u8], shared_key: &[u8; 32]) -> Vec<u8> {
    let cipher = Aes256Gcm::new(Key::<Aes256Gcm>::from_slice(shared_key));
    let (nonce, ciphertext) = data.split_at(12);
    cipher.decrypt(nonce.into(), ciphertext).unwrap()
}

// ─── The server, with its tables in memory ──────────────────────────────────

const ENCRYPT_SECRET: [u8; 32] = [0xaa; 32];
const SOFTWARE_SECRET: [u8; 32] = [0xbb; 32];

fn admin_key() -> String {
    hex::encode(SOFTWARE_SECRET)
}

#[derive(Clone, Default)]
struct Tables {
    users: Vec<User>,
    identities: Vec<Identity>,
    groups: Vec<Group>,
    passwords: Vec<Password>,
}

struct Server {
    db: Tables,
    config: Config,
    /// The database files that were ever written; a file holds its number here.
    files: Vec<Tables>,
}

fn spawn_app() -> Server {
    Server {
        db: Tables::default(),
        config: Config {
            database_encrypt_secret: ENCRYPT_SECRET,
            software_secret: SOFTWARE_SECRET,
            database_url: "test.db".to_string(),
            bind_addr: "127.0.0.1:0".to_string(),
            db_pool_size: 5,
            cors_origin: None,
            admin_allowed_subnet: "127.0.0.0/8".to_string(),
        },
        files: Vec::new(),
    }
}

fn status_of<T>(r: &AppResult<T>) -> u16 {
    match r {
        Ok(_) => 200,
        Err(e) => status_of_error(e),
    }
}

fn status_of_error(e: &AppError) -> u16 {
    match e {
        AppError::IdentityNotFound => AppError::IdentityNotFound.into_response().status,
        AppError::NotFound(m) => AppError::NotFound(m.clone()).into_response().status,
        AppError::Unauthorized(m) => AppError::Unauthorized(m.clone()).into_response().status,
        AppError::Conflict(m) => AppError::Conflict(m.clone()).into_response().status,
        AppError::PreconditionFailed(m) => {
            AppError::PreconditionFailed(m.clone()).into_response().status
        }
        AppError::Database(m) => AppError::Database(m.clone()).into_response().status,
        AppError::Pool(m) => AppError::Pool(m.clone()).into_response().status,
        AppError::Crypto(m) => AppError::Crypto(m.clone()).into_response().status,
        AppError::Internal(m) => AppError::Internal(m.clone()).into_response().status,
        AppError::Validation(m) => AppError::Validation(m.clone()).into_response().status,
    }
}

fn client_ip(ip: &str) -> ClientIp {
    ClientIp(ip.to_string())
}

impl Tables {
    fn identity(&self, key: &IdentityKey) -> Option<Identity> {
        self.identities
            .iter()
            .find(|i| match key {
                IdentityKey::Ip(ip) => i.ip_address == *ip,
                IdentityKey::DeviceToken(t) => i.device_token.as_deref() == Some(t.as_str()),
                IdentityKey::Uuid(u) => i.uuid == *u,
            })
            .cloned()
    }

    fn user(&self, key: &UserKey) -> Option<User> {
        self.users
            .iter()
            .find(|u| match key {
                UserKey::Uuid(id) => u.uuid == *id,
                UserKey::Name(n) => u.name == *n,
            })
            .cloned()
    }

    fn group(&self, key: &GroupKey) -> Option<Group> {
        let GroupKey::Uuid(id) = key;
        self.groups.iter().find(|g| g.uuid == *id).cloned()
    }

    fn password(&self, key: &PasswordKey) -> Option<Password> {
        let PasswordKey::Uuid(id) = key;
        self.passwords.iter().find(|p| p.uuid == *id).cloned()
    }

    fn groups_of(&self, list: &GroupList) -> Vec<Group> {
        let GroupList::User(id) = list;
        self.groups.iter().filter(|g| g.user_id == *id).cloned().collect()
    }

    fn passwords_of(&self, list: &PasswordList) -> Vec<Password> {
        let PasswordList::Groups(ids) = list;
        self.passwords.iter().filter(|p| ids.contains(&p.group_id)).cloned().collect()
    }

    fn devices_of(&self, list: &IdentityList) -> Vec<Identity> {
        match list {
            IdentityList::All => self.identities.clone(),
            IdentityList::Pending => {
                self.identities.iter().filter(|i| !i.is_confirmed).cloned().collect()
            }
        }
    }

    fn run_identity(&mut self, command: &IdentityCommand) -> Insertion {
        match command {
            IdentityCommand::Insert(new) => {
                if self.identities.iter().any(|i| i.ip_address == new.ip_address) {
                    return Insertion::UniqueViolation;
                }
                let now = Timestamp::now();
                self.identities.push(Identity {
                    uuid: new.uuid.clone(),
                    user_id: new.user_id.clone(),
                    ip_address: new.ip_address.clone(),
                    device_token: new.device_token.clone(),
                    server_private_key: new.server_private_key.clone(),
                    server_public_key: new.server_public_key.clone(),
                    client_public_key: new.client_public_key.clone(),
                    extra: new.extra.clone(),
                    is_confirmed: new.is_confirmed,
                    created_at: now,
                    updated_at: now,
                });
            }
            IdentityCommand::Update { uuid, changes, updated_at } => {
                for i in self.identities.iter_mut().filter(|i| i.uuid == *uuid) {
                    if let Some(v) = &changes.user_id {
                        i.user_id = Some(v.clone());
                    }
                    if let Some(v) = &changes.ip_address {
                        i.ip_address = v.clone();
                    }
                    if let Some(v) = &changes.device_token {
                        i.device_token = Some(v.clone());
                    }
                    if let Some(v) = &changes.client_public_key {
                        i.client_public_key = v.clone();
                    }
                    if let Some(v) = &changes.extra {
                        i.extra = v.clone();
                    }
                    if let Some(v) = changes.is_confirmed {
                        i.is_confirmed = v;
                    }
                    i.updated_at = *updated_at;
                }
            }
            IdentityCommand::Delete(uuid) => self.identities.retain(|i| i.uuid != *uuid),
        }
        Insertion::Stored
    }

    fn run_user(&mut self, command: &UserCommand) -> Option<User> {
        match command {
            UserCommand::Insert(new) => {
                let now = Timestamp::now();
                let row = User {
                    uuid: new.uuid.clone(),
                    name: new.name.clone(),
                    ehlo_secret: new.ehlo_secret.clone(),
                    is_deleted: new.is_deleted,
                    extra: new.extra.clone(),
                    created_at: now,
                    updated_at: now,
                };
                self.users.push(row.clone());
                Some(row)
            }
            UserCommand::Update { uuid, changes, updated_at } => {
                for u in self.users.iter_mut().filter(|u| u.uuid == *uuid) {
                    if let Some(v) = changes.is_deleted {
                        u.is_deleted = v;
                    }
                    if let Some(v) = &changes.extra {
                        u.extra = v.clone();
                    }
                    u.updated_at = *updated_at;
                }
                None
            }
        }
    }

    fn run_group(&mut self, command: &GroupCommand) -> Group {
        let GroupCommand::Insert(new) = command;
        let now = Timestamp::now();
        let row = Group {
            uuid: new.uuid.clone(),
            user_id: new.user_id.clone(),
            name: new.name.clone(),
            extra: new.extra.clone(),
            created_at: now,
            updated_at: now,
        };
        self.groups.push(row.clone());
        row
    }

    fn run_password(&mut self, command: &PasswordCommand) -> Option<Password> {
        match command {
            PasswordCommand::Insert(new) => {
                let now = Timestamp::now();
                let row = Password {
                    uuid: new.uuid.clone(),
                    group_id: new.group_id.clone(),
                    pwd: new.pwd.clone(),
                    name: new.name.clone(),
                    extra: new.extra.clone(),
                    valid_since_days: new.valid_since_days,
                    created_at: now,
                    updated_at: now,
                    valid_since: new.valid_since,
                };
                self.passwords.push(row.clone());
                Some(row)
            }
            PasswordCommand::Update { uuid, changes, updated_at, valid_since } => {
                for p in self.passwords.iter_mut().filter(|p| p.uuid == *uuid) {
                    if let Some(v) = &changes.pwd {
                        p.pwd = v.clone();
                    }
                    if let Some(v) = &changes.group_id {
                        p.group_id = v.clone();
                    }
                    if let Some(v) = &changes.name {
                        p.name = v.clone();
                    }
                    if let Some(v) = &changes.extra {
                        p.extra = v.clone();
                    }
                    if let Some(v) = changes.valid_since_days {
                        p.valid_since_days = v;
                    }
                    p.updated_at = *updated_at;
                    p.valid_since = *valid_since;
                }
                None
            }
        }
    }
}

impl Server {
    fn greet(&mut self, ip: &str, pub_key: &str) -> AppResult<String> {
        let req = GreetRequest { pub_key: pub_key.to_string() };
        let step = greet_handler(&req, client_ip(ip))?;
        let existing = self.db.identity(&step.key);
        let step = step.found(existing, &self.config)?;
        let outcome = self.db.run_identity(&step.command);
        Ok(step.stored(outcome)?.server_public_key)
    }

    fn link(&mut self, step: LinkDevice) -> String {
        self.db.run_identity(&step.command);
        step.linked().token
    }

    fn sign_up(&mut self, ip: &str, req: SignRequest) -> AppResult<String> {
        let step = sign_up_handler(req, &client_ip(ip));
        let device = self.db.identity(&step.key);
        let step = step.found(device, &self.config)?;
        let existing = self.db.user(&step.key);
        let step = step.found(existing)?;
        let user = self.db.run_user(&step.command).unwrap();
        let step = step.created(&user);
        Ok(self.link(step))
    }

    fn sign_in(&mut self, ip: &str, req: SignRequest) -> AppResult<String> {
        let step = sign_in_handler(req, &client_ip(ip));
        let device = self.db.identity(&step.key);
        let step = step.found(device, &self.config)?;
        let account = self.db.user(&step.key);
        let step = step.found(account, &self.config)?;
        Ok(self.link(step))
    }

    fn auth(&self, ip: &str, token: Option<&str>) -> AppResult<(AuthOwner, Option<User>)> {
        let step = validate_auth(token)?;
        let device = self.db.identity(&step.key);
        let step = step.found(device, &client_ip(ip))?;
        let owner = self.db.user(step.key());
        Ok((step, owner))
    }

    fn session(&self, ip: &str, token: &str) -> AppResult<Session> {
        let (step, owner) = self.auth(ip, Some(token))?;
        step.found(owner)
    }

    fn verify(&self, ip: &str, token: Option<&str>) -> AppResult<()> {
        let (step, owner) = self.auth(ip, token)?;
        verify_handler(step, owner)
    }

    fn refresh(&mut self, ip: &str, req: RefreshRequest) -> AppResult<String> {
        let step = refresh_handler(req, &client_ip(ip));
        let device = self.db.identity(&step.key);
        let step = step.found(device, &self.config)?;
        let owner = self.db.user(&step.key);
        let step = step.found(owner, &self.config)?;
        self.db.run_identity(&step.command);
        Ok(step.updated().token)
    }

    fn re_sign(&mut self, ip: &str, req: ResignRequest) -> AppResult<()> {
        let step = resign_handler(&req)?;
        let device = self.db.identity(&step.key);
        let step = step.found(device, &self.config)?;
        let owner = self.db.user(&step.key);
        let step = step.found(owner, &client_ip(ip), &self.config)?;
        self.db.run_identity(&step.command);
        Ok(())
    }

    fn pwd_create(
        &mut self,
        ip: &str,
        token: &str,
        req: CreatePasswordRequest,
    ) -> AppResult<PasswordEntry> {
        let step = passwords::create_handler(req)?;
        let session = self.session(ip, token)?;
        let step = step.authorized(&session, &self.config)?;
        let group = self.db.group(&step.key);
        let step = step.found(group)?;
        let row = self.db.run_password(&step.command).unwrap();
        step.stored(&row, &session, &self.config)
    }

    fn pwd_update(
        &mut self,
        ip: &str,
        token: &str,
        uuid: &str,
        req: UpdatePasswordRequest,
    ) -> AppResult<()> {
        let step = passwords::update_handler(uuid.to_string(), req)?;
        let session = self.session(ip, token)?;
        let step = step.authorized(&session);
        let existing = self.db.password(&step.key);
        let step = step.found(existing)?;
        let source = self.db.group(&step.key);
        let step = step.found(source)?;
        let target = self.db.group(&step.key);
        let step = step.found(target, &session, &self.config)?;
        self.db.run_password(&step.command);
        Ok(())
    }

    fn pwd_get(&self, ip: &str, token: &str, uuid: &str) -> AppResult<PasswordDetail> {
        let session = self.session(ip, token)?;
        let step = passwords::get_handler(uuid, &session);
        let row = self.db.password(&step.key);
        let step = step.found(row)?;
        let group = self.db.group(&step.key);
        step.found(group, &session, &self.config)
    }

    fn pwd_list(
        &self,
        ip: &str,
        token: &str,
        params: ListParams,
    ) -> AppResult<Vec<PasswordEntry>> {
        let session = self.session(ip, token)?;
        let step = passwords::list_handler(params, &session);
        let groups = self.db.groups_of(&step.list);
        let step = step.found(groups);
        let rows = self.db.passwords_of(&step.list);
        step.found(rows, &session, &self.config)
    }

    fn group_create(&mut self, ip: &str, token: &str, name: &str) -> AppResult<String> {
        let step = group::create_handler(group::CreateGroupRequest {
            name: name.to_string(),
            extra: Some("{}".to_string()),
        })?;
        let session = self.session(ip, token)?;
        let step = step.authorized(&session);
        let row = self.db.run_group(&step.command);
        Ok(step.stored(row).uuid)
    }

    fn group_list(&self, ip: &str, token: &str) -> AppResult<Vec<group::GroupResponse>> {
        let session = self.session(ip, token)?;
        let list = group::list_handler(&session);
        Ok(group::groups_listed(&self.db.groups_of(&list)))
    }

    fn admin(&self, key: &str) -> AppResult<AdminPass> {
        check_admin(Some(key), Peer::V4(0x7f000001), &self.config)
    }

    fn pass(&self) -> AdminPass {
        match self.admin(&admin_key()) {
            Ok(pass) => pass,
            Err(e) => panic!("the administrator is let in: {e:?}"),
        }
    }

    fn pending(&self) -> Vec<group::PendingIdentity> {
        let list = group::pending_handler(&self.pass());
        group::pending_listed(&self.db.devices_of(&list))
    }

    fn approve(&mut self, key: &str, uuid: &str) -> AppResult<()> {
        let pass = self.admin(key)?;
        let step = group::approve_handler(&pass, uuid);
        let device = self.db.identity(&step.key);
        let command = step.found(device)?;
        self.db.run_identity(&command);
        Ok(())
    }

    fn identity_uuid_by_ip(&self, ip: &str) -> String {
        let list = admin::list_identities(&self.pass());
        let all = admin::identities_listed(&self.db.devices_of(&list));
        all.iter().find(|e| e.ip_address == ip).unwrap().uuid.clone()
    }

    fn set_identity_confirmed(&mut self, uuid: &str, confirmed: bool) -> AppResult<()> {
        let action = if confirmed { "confirm" } else { "unconfirm" };
        let step = admin::toggle_identity(&self.pass(), uuid, action)?;
        let device = self.db.identity(&step.key);
        let command = step.found(device)?;
        self.db.run_identity(&command);
        Ok(())
    }

    fn delete_identity(&mut self, uuid: &str) -> AppResult<()> {
        let step = admin::delete_identity(&self.pass(), uuid);
        let device = self.db.identity(&step.key);
        let command = step.found(device)?;
        self.db.run_identity(&command);
        Ok(())
    }

    fn users(&self) -> Vec<admin::UserResponse> {
        let _lists = admin::list_users(&self.pass());
        admin::users_listed(&self.db.users, &self.db.identities)
    }

    fn toggle_user(&mut self, uuid: &str, action: &str) -> AppResult<()> {
        let step = admin::toggle_user(&self.pass(), uuid, action)?;
        let user = self.db.user(&step.key);
        let command = step.found(user)?;
        self.db.run_user(&command);
        Ok(())
    }

    fn export(&mut self) -> AppResult<Vec<u8>> {
        let file = vec![self.files.len() as u8];
        self.files.push(self.db.clone());
        Ok(admin::export_handler(&self.pass(), &file, &self.config)?.body)
    }

    fn import(&mut self, archive: &[u8]) -> AppResult<()> {
        let mut files = unpack(archive);
        let env = files.remove(".env").map(|b| String::from_utf8(b).unwrap());
        let step = admin::import_handler(&self.pass(), env, &self.config)?;
        let step = step.read(files.remove("pwd_manager.db"))?;
        let number = step.database.first().map(|n| *n as usize);
        let opens = number.is_some_and(|n| n < self.files.len());
        let swap = step.opened(opens)?;
        assert_eq!(swap.staged, "test.db.importing");
        self.db = self.files[number.unwrap()].clone();
        Ok(())
    }
}

fn unpack(archive: &[u8]) -> std::collections::HashMap<String, Vec<u8>> {
    let mut files = std::collections::HashMap::new();
    let mut tar = tar::Archive::new(flate2::read::GzDecoder::new(archive));
    for entry in tar.entries().unwrap() {
        let mut entry = entry.unwrap();
        let path = entry.path().unwrap().to_str().unwrap().to_string();
        let mut data = Vec::new();
        entry.read_to_end(&mut data).unwrap();
        files.insert(path, data);
    }
    files
}

// ─── Devices ────────────────────────────────────────────────────────────────

struct Device {
    ip: String,
    shared_key: [u8; 32],
}

fn greet(app: &mut Server, ip: &str) -> Device {
    let (secret, public) = generate_client_keypair();
    let answer = app.greet(ip, &hex::encode(public)).unwrap();
    let server_pub: [u8; 32] = hex::decode(answer).unwrap().try_into().unwrap();
    Device { ip: ip.to_string(), shared_key: x25519_dalek::x25519(secret, server_pub) }
}

fn sign_request(dev: &Device, name: &str, ehlo: &[u8]) -> SignRequest {
    SignRequest {
        name: hex::encode(encrypt_with_shared_key(name.as_bytes(), &dev.shared_key)),
        ehlo: hex::encode(encrypt_with_shared_key(ehlo, &dev.shared_key)),
    }
}

fn approve_device_by_ip(app: &mut Server, ip: &str) {
    let uuid = app.pending().iter().find(|e| e.ip_address == ip).unwrap().uuid.clone();
    assert_eq!(status_of(&app.approve(&admin_key(), &uuid)), 200, "approve should succeed");
}

fn enroll(app: &mut Server, ip: &str, name: &str, ehlo: &[u8]) -> (Device, String) {
    let dev = greet(app, ip);
    let token = app.sign_up(ip, sign_request(&dev, name, ehlo)).unwrap();
    approve_device_by_ip(app, ip);
    (dev, token)
}

fn create_request(dev: &Device, group_id: &str, plain: &[u8]) -> CreatePasswordRequest {
    CreatePasswordRequest {
        pwd: hex::encode(encrypt_with_shared_key(plain, &dev.shared_key)),
        group_id: group_id.to_string(),
        extra: Some("{}".to_string()),
        name: Some("login".to_string()),
        valid_since_days: None,
    }
}

/// A request that names neither the password nor notes on it.
fn bare_request(dev: &Device, group_id: &str, plain: &[u8]) -> CreatePasswordRequest {
    CreatePasswordRequest { extra: None, name: None, ..create_request(dev, group_id, plain) }
}

fn update_request(dev: &Device, group_id: &str, plain: &[u8]) -> UpdatePasswordRequest {
    UpdatePasswordRequest {
        pwd: hex::encode(encrypt_with_shared_key(plain, &dev.shared_key)),
        group_id: group_id.to_string(),
        extra: None,
        name: None,
    }
}

fn expired_only() -> ListParams {
    ListParams { expired: Some(true), take: None, size: None }
}

/// The moment four hundred days ago.
fn past() -> Timestamp {
    Timestamp::new(Timestamp::now().secs() - 400 * 86_400, 0).unwrap()
}

// ─── Greet ──────────────────────────────────────────────────────────────────

#[test]
fn greet_success() {
    let mut app = spawn_app();
    let dev = greet(&mut app, "127.0.1.1");
    assert_eq!(dev.ip, "127.0.1.1");
}

#[test]
fn greet_duplicate_ip_fails() {
    let mut app = spawn_app();
    let _first = greet(&mut app, "127.0.1.2");
    let (_s, public) = generate_client_keypair();
    assert_eq!(status_of(&app.greet("127.0.1.2", &hex::encode(public))), 412);
}

#[test]
fn greet_invalid_hex_fails() {
    let mut app = spawn_app();
    assert_eq!(status_of(&app.greet("127.0.1.3", "not-hex")), 400);
}

#[test]
fn greet_wrong_key_length_fails() {
    let mut app = spawn_app();
    assert_eq!(status_of(&app.greet("127.0.1.4", "00ff")), 400);
}

// ─── Sign-up ────────────────────────────────────────────────────────────────

#[test]
fn sign_up_issues_token() {
    let mut app = spawn_app();
    let dev = greet(&mut app, "127.0.2.1");
    let token = app.sign_up("127.0.2.1", sign_request(&dev, "alice", b"alice-ehlo")).unwrap();
    assert!(!token.is_empty(), "token must be non-empty");
}

#[test]
fn sign_up_duplicate_name_conflicts() {
    let mut app = spawn_app();
    let dev_a = greet(&mut app, "127.0.2.2");
    let first = app.sign_up("127.0.2.2", sign_request(&dev_a, "dup", b"ehlo-a"));
    assert_eq!(status_of(&first), 200, "first sign-up wins");
    let dev_b = greet(&mut app, "127.0.2.3");
    let second = app.sign_up("127.0.2.3", sign_request(&dev_b, "dup", b"ehlo-b"));
    assert_eq!(status_of(&second), 409, "a taken name is a conflict");
}

#[test]
fn sign_up_without_greet_is_unauthorized() {
    let mut app = spawn_app();
    let req = SignRequest { name: "00".to_string(), ehlo: "00".to_string() };
    assert_eq!(status_of(&app.sign_up("127.0.2.4", req)), 401);
}

#[test]
fn sign_up_invalid_name_hex_fails() {
    let mut app = spawn_app();
    let _dev = greet(&mut app, "127.0.2.5");
    let req = SignRequest { name: "zzzz".to_string(), ehlo: "00".to_string() };
    assert_eq!(status_of(&app.sign_up("127.0.2.5", req)), 400);
}

#[test]
fn sign_up_empty_name_fails() {
    let mut app = spawn_app();
    let dev = greet(&mut app, "127.0.2.6");
    let r = app.sign_up("127.0.2.6", sign_request(&dev, "", b"ehlo"));
    assert_eq!(status_of(&r), 400);
}

// ─── Sign-in ────────────────────────────────────────────────────────────────

#[test]
fn sign_in_shares_user_data_across_devices() {
    let mut app = spawn_app();
    let (dev_a, token_a) = enroll(&mut app, "127.0.3.1", "carol", b"carol-ehlo");
    let group_id = app.group_create("127.0.3.1", &token_a, "carol-grp").unwrap();

    let secret_plain = b"carol-super-secret";
    let req = create_request(&dev_a, &group_id, secret_plain);
    let pwd_uuid = app.pwd_create("127.0.3.1", &token_a, req).unwrap().uuid;

    let dev_b = greet(&mut app, "127.0.3.2");
    let token_b = app.sign_in("127.0.3.2", sign_request(&dev_b, "carol", b"carol-ehlo")).unwrap();
    approve_device_by_ip(&mut app, "127.0.3.2");

    let detail = app.pwd_get("127.0.3.2", &token_b, &pwd_uuid).unwrap();
    assert_eq!(detail.name, "login");
    let recovered =
        decrypt_with_shared_key(&hex::decode(detail.pwd).unwrap(), &dev_b.shared_key);
    assert_eq!(recovered, secret_plain, "device B recovers A's password");
}

#[test]
fn sign_in_unknown_name_is_unauthorized() {
    let mut app = spawn_app();
    let dev = greet(&mut app, "127.0.3.3");
    let r = app.sign_in("127.0.3.3", sign_request(&dev, "ghost", b"whatever"));
    assert_eq!(status_of(&r), 401);
}

#[test]
fn sign_in_wrong_ehlo_is_unauthorized() {
    let mut app = spawn_app();
    let _ = enroll(&mut app, "127.0.3.4", "dave", b"correct-ehlo");
    let dev_b = greet(&mut app, "127.0.3.5");
    let r = app.sign_in("127.0.3.5", sign_request(&dev_b, "dave", b"wrong-ehlo"));
    assert_eq!(status_of(&r), 401);
}

#[test]
fn sign_in_soft_deleted_user_is_unauthorized() {
    let mut app = spawn_app();
    let _ = enroll(&mut app, "127.0.3.6", "erin", b"erin-ehlo");
    let uuid = app.users().iter().find(|u| u.name == "erin").unwrap().uuid.clone();
    assert_eq!(status_of(&app.toggle_user(&uuid, "delete")), 200);
    let dev_b = greet(&mut app, "127.0.3.7");
    let r = app.sign_in("127.0.3.7", sign_request(&dev_b, "erin", b"erin-ehlo"));
    assert_eq!(status_of(&r), 401);
}

// ─── Verify / approval ──────────────────────────────────────────────────────

#[test]
fn verify_unconfirmed_fails() {
    let mut app = spawn_app();
    let dev = greet(&mut app, "127.0.4.1");
    let token = app.sign_up("127.0.4.1", sign_request(&dev, "frank", b"f-ehlo")).unwrap();
    assert_eq!(status_of(&app.verify("127.0.4.1", Some(&token))), 401);
}

#[test]
fn verify_missing_token_fails() {
    let mut app = spawn_app();
    let _dev = greet(&mut app, "127.0.4.2");
    assert_eq!(status_of(&app.verify("127.0.4.2", None)), 401);
}

#[test]
fn verify_after_approval_succeeds() {
    let mut app = spawn_app();
    let (_dev, token) = enroll(&mut app, "127.0.4.3", "grace", b"g-ehlo");
    assert_eq!(status_of(&app.verify("127.0.4.3", Some(&token))), 200);
}

#[test]
fn admin_approve_wrong_key_fails() {
    let mut app = spawn_app();
    let dev = greet(&mut app, "127.0.4.4");
    assert_eq!(status_of(&app.sign_up("127.0.4.4", sign_request(&dev, "heidi", b"h-ehlo"))), 200);
    let uuid = app.pending()[0].uuid.clone();
    assert_eq!(status_of(&app.approve(&hex::encode([0x00u8; 32]), &uuid)), 401);
}

#[test]
fn admin_confirm_user_gates_password_storage() {
    let mut app = spawn_app();
    let ip = "127.0.9.1";
    let dev = greet(&mut app, ip);
    let token = app.sign_up(ip, sign_request(&dev, "trent", b"trent-ehlo")).unwrap();

    let denied = app.pwd_create(
        ip,
        &token,
        CreatePasswordRequest {
            pwd: "00".to_string(),
            group_id: "x".to_string(),
            extra: None,
            name: None,
            valid_since_days: None,
        },
    );
    assert_eq!(status_of(&denied), 401, "unconfirmed user cannot store passwords");

    let uuid = app.identity_uuid_by_ip(ip);
    assert_eq!(status_of(&app.set_identity_confirmed(&uuid, true)), 200);

    let group_id = app.group_create(ip, &token, "trent-grp").unwrap();
    let req = create_request(&dev, &group_id, b"trent-secret");
    let create = app.pwd_create(ip, &token, req);
    assert_eq!(status_of(&create), 200, "confirmed user can store passwords");

    assert_eq!(status_of(&app.set_identity_confirmed(&uuid, false)), 200);
    assert_eq!(
        status_of(&app.verify(ip, Some(&token))),
        401,
        "revoked user is blocked again"
    );
}

#[test]
fn import_reloads_pool_without_restart() {
    let mut app = spawn_app();
    let ip = "127.0.40.1";
    let (_dev, token) = enroll(&mut app, ip, "reload-user", b"reload-ehlo");
    assert_eq!(status_of(&app.verify(ip, Some(&token))), 200, "enrolled device verifies");

    let snapshot = app.export().unwrap();

    let uuid = app.identity_uuid_by_ip(ip);
    assert_eq!(status_of(&app.delete_identity(&uuid)), 200);
    assert_eq!(
        status_of(&app.verify(ip, Some(&token))),
        401,
        "deleted device is rejected (live DB reflects the change)"
    );

    assert_eq!(status_of(&app.import(&snapshot)), 200, "import should succeed");
    assert_eq!(
        status_of(&app.verify(ip, Some(&token))),
        200,
        "import takes effect live — device verifies again without a restart"
    );
}

// ─── Re-sign ────────────────────────────────────────────────────────────────

#[test]
fn resign_success() {
    let mut app = spawn_app();
    let (dev, token) = enroll(&mut app, "127.0.5.1", "ivan", b"ivan-ehlo");
    let ehlo_enc = encrypt_with_shared_key(b"ivan-ehlo", &dev.shared_key);
    let req = ResignRequest {
        token: hex::encode(token.as_bytes()),
        ehlo: hex::encode(ehlo_enc),
    };
    assert_eq!(status_of(&app.re_sign("127.0.5.2", req)), 200);
}

#[test]
fn resign_wrong_ehlo_fails() {
    let mut app = spawn_app();
    let (dev, token) = enroll(&mut app, "127.0.5.3", "judy", b"judy-ehlo");
    let ehlo_enc = encrypt_with_shared_key(b"not-judy", &dev.shared_key);
    let req = ResignRequest {
        token: hex::encode(token.as_bytes()),
        ehlo: hex::encode(ehlo_enc),
    };
    assert_eq!(status_of(&app.re_sign("127.0.5.4", req)), 401);
}

#[test]
fn resign_invalid_hex_fails() {
    let mut app = spawn_app();
    let req = ResignRequest { token: "zzzz".to_string(), ehlo: "00".to_string() };
    assert_eq!(status_of(&app.re_sign("127.0.5.5", req)), 400);
}

// ─── Refresh ────────────────────────────────────────────────────────────────

fn refresh_request(dev: &Device, token: &str, ehlo: &[u8]) -> RefreshRequest {
    RefreshRequest {
        token: hex::encode(encrypt_with_shared_key(token.as_bytes(), &dev.shared_key)),
        ehlo: hex::encode(encrypt_with_shared_key(ehlo, &dev.shared_key)),
    }
}

#[test]
fn refresh_success_and_new_token_works() {
    let mut app = spawn_app();
    let ip = "127.0.6.1";
    let (dev, token) = enroll(&mut app, ip, "ken", b"ken-ehlo");
    let new_token = app.refresh(ip, refresh_request(&dev, &token, b"ken-ehlo")).unwrap();
    assert_ne!(new_token, token, "refresh must rotate the token");
    assert_eq!(status_of(&app.verify(ip, Some(&new_token))), 200);
    assert_eq!(
        status_of(&app.verify(ip, Some(&token))),
        401,
        "old token is revoked after refresh"
    );
}

#[test]
fn refresh_accepts_non_utf8_ehlo() {
    let mut app = spawn_app();
    let ip = "127.0.6.4";
    let ehlo: &[u8] = &[0xff, 0x00, 0xfe, 0x80];
    let dev = greet(&mut app, ip);
    let token = app.sign_up(ip, sign_request(&dev, "mallory", ehlo)).unwrap();
    approve_device_by_ip(&mut app, ip);
    let r = app.refresh(ip, refresh_request(&dev, &token, ehlo));
    assert_eq!(
        status_of(&r),
        200,
        "refresh must accept a non-UTF-8 ehlo, matching sign-up/sign-in"
    );
}

#[test]
fn refresh_ip_not_greeted_fails() {
    let mut app = spawn_app();
    let req = RefreshRequest { token: "00".to_string(), ehlo: "00".to_string() };
    assert_eq!(status_of(&app.refresh("127.0.6.2", req)), 401);
}

#[test]
fn refresh_wrong_ehlo_fails() {
    let mut app = spawn_app();
    let ip = "127.0.6.3";
    let (dev, token) = enroll(&mut app, ip, "lola", b"lola-ehlo");
    let r = app.refresh(ip, refresh_request(&dev, &token, b"not-lola"));
    assert_eq!(status_of(&r), 401);
}

// ─── Groups & passwords ─────────────────────────────────────────────────────

#[test]
fn group_create_and_list_success() {
    let mut app = spawn_app();
    let ip = "127.0.7.1";
    let (_dev, token) = enroll(&mut app, ip, "mona", b"m-ehlo");
    app.group_create(ip, &token, "the-group").unwrap();
    let groups = app.group_list(ip, &token).unwrap();
    assert_eq!(groups.len(), 1);
    assert_eq!(groups[0].name, "the-group");
}

#[test]
fn password_crud_full_flow() {
    let mut app = spawn_app();
    let ip = "127.0.7.2";
    let (dev, token) = enroll(&mut app, ip, "nina", b"n-ehlo");
    let group_id = app.group_create(ip, &token, "pwd-grp").unwrap();

    let plain = b"original-password";
    let mut req = create_request(&dev, &group_id, plain);
    req.name = Some("entry".to_string());
    req.valid_since_days = Some(30);
    let pwd_uuid = app.pwd_create(ip, &token, req).unwrap().uuid;

    let detail = app.pwd_get(ip, &token, &pwd_uuid).unwrap();
    assert_eq!(detail.name, "entry");
    let got = hex::decode(detail.pwd).unwrap();
    assert_eq!(decrypt_with_shared_key(&got, &dev.shared_key), plain);

    let entries = app.pwd_list(ip, &token, ListParams::default()).unwrap();
    assert!(entries.iter().any(|p| p.uuid == pwd_uuid));

    let update = app.pwd_update(
        ip,
        &token,
        &pwd_uuid,
        update_request(&dev, &group_id, b"changed-password"),
    );
    assert_eq!(status_of(&update), 200);

    let detail2 = app.pwd_get(ip, &token, &pwd_uuid).unwrap();
    let got2 = hex::decode(detail2.pwd).unwrap();
    assert_eq!(decrypt_with_shared_key(&got2, &dev.shared_key), b"changed-password");
}

#[test]
fn password_unconfirmed_device_fails() {
    let mut app = spawn_app();
    let ip = "127.0.7.3";
    let dev = greet(&mut app, ip);
    let token = app.sign_up(ip, sign_request(&dev, "oscar", b"o-ehlo")).unwrap();
    let r = app.pwd_create(
        ip,
        &token,
        CreatePasswordRequest {
            pwd: "00".to_string(),
            group_id: "x".to_string(),
            extra: None,
            name: None,
            valid_since_days: None,
        },
    );
    assert_eq!(status_of(&r), 401);
}

#[test]
fn password_update_bumps_updated_at() {
    let mut app = spawn_app();
    let ip = "127.0.7.5";
    let (dev, token) = enroll(&mut app, ip, "quinn", b"q-ehlo");
    let group_id = app.group_create(ip, &token, "ts-grp").unwrap();
    let pwd_uuid =
        app.pwd_create(ip, &token, bare_request(&dev, &group_id, b"first")).unwrap().uuid;

    for p in app.db.passwords.iter_mut().filter(|p| p.uuid == pwd_uuid) {
        p.created_at = past();
        p.updated_at = past();
    }

    let update =
        app.pwd_update(ip, &token, &pwd_uuid, update_request(&dev, &group_id, b"second"));
    assert_eq!(status_of(&update), 200);

    let detail = app.pwd_get(ip, &token, &pwd_uuid).unwrap();
    assert!(detail.created_at.starts_with("20"), "created_at present: {}", detail.created_at);
    assert_ne!(detail.updated_at, detail.created_at, "update must advance updated_at");
    let this_year = chrono::Utc::now().format("%Y-").to_string();
    assert!(
        detail.updated_at.starts_with(&this_year),
        "updated_at should be ~now ({this_year}..), got {}",
        detail.updated_at
    );
}

#[test]
fn password_update_resets_validity_window() {
    let mut app = spawn_app();
    let ip = "127.0.7.6";
    let (dev, token) = enroll(&mut app, ip, "rosa", b"r-ehlo");
    let group_id = app.group_create(ip, &token, "win-grp").unwrap();
    let mut req = bare_request(&dev, &group_id, b"orig");
    req.valid_since_days = Some(30);
    let pwd_uuid = app.pwd_create(ip, &token, req).unwrap().uuid;

    for p in app.db.passwords.iter_mut().filter(|p| p.uuid == pwd_uuid) {
        p.valid_since = past();
    }

    let expired = app.pwd_list(ip, &token, expired_only()).unwrap();
    assert!(
        expired.iter().any(|p| p.uuid == pwd_uuid),
        "backdated entry should be expired before rotation"
    );

    let update =
        app.pwd_update(ip, &token, &pwd_uuid, update_request(&dev, &group_id, b"rotated"));
    assert_eq!(status_of(&update), 200);

    let valid = app.pwd_list(ip, &token, ListParams::default()).unwrap();
    let entry = valid
        .iter()
        .find(|p| p.uuid == pwd_uuid)
        .expect("rotated entry should be back in the valid list");
    assert!(
        entry.expires >= 28,
        "rotation should reset the window to ~30 days, got {}",
        entry.expires
    );

    let expired_after = app.pwd_list(ip, &token, expired_only()).unwrap();
    assert!(
        !expired_after.iter().any(|p| p.uuid == pwd_uuid),
        "rotated entry should no longer be expired"
    );
}

#[test]
fn password_list_separates_valid_and_expired() {
    let mut app = spawn_app();
    let ip = "127.0.7.4";
    let (dev, token) = enroll(&mut app, ip, "peggy", b"p-ehlo");
    let group_id = app.group_create(ip, &token, "exp-grp").unwrap();
    let mut req = bare_request(&dev, &group_id, b"expiring");
    req.valid_since_days = Some(1);
    let pwd_uuid = app.pwd_create(ip, &token, req).unwrap().uuid;

    for p in app.db.passwords.iter_mut().filter(|p| p.uuid == pwd_uuid) {
        p.valid_since = past();
    }

    let expired = app.pwd_list(ip, &token, expired_only()).unwrap();
    assert!(expired.iter().any(|p| p.uuid == pwd_uuid));
    let valid = app.pwd_list(ip, &token, ListParams::default()).unwrap();
    assert!(!valid.iter().any(|p| p.uuid == pwd_uuid));
}

#[test]
fn the_two_lists_hold_each_password_once() {
    let mut app = spawn_app();
    let ip = "127.1.20.1";
    let (dev, token) = enroll(&mut app, ip, "una", b"u-ehlo");
    let (other, other_token) = enroll(&mut app, "127.1.20.2", "vic", b"v-ehlo");
    let group_id = app.group_create(ip, &token, "mine").unwrap();
    let other_group = app.group_create("127.1.20.2", &other_token, "theirs").unwrap();
    let req = bare_request(&other, &other_group, b"theirs");
    app.pwd_create("127.1.20.2", &other_token, req).unwrap();
    let mut mine: Vec<String> = Vec::new();
    for i in 0u8..6 {
        let req = bare_request(&dev, &group_id, &[i]);
        mine.push(app.pwd_create(ip, &token, req).unwrap().uuid);
    }
    for p in app.db.passwords.iter_mut().filter(|p| mine[..2].contains(&p.uuid)) {
        p.valid_since = past();
    }

    let all = |expired: bool| ListParams { expired: Some(expired), take: None, size: Some(200) };
    let valid = app.pwd_list(ip, &token, all(false)).unwrap();
    let expired = app.pwd_list(ip, &token, all(true)).unwrap();
    assert_eq!((valid.len(), expired.len()), (4, 2));
    assert!(valid.iter().all(|p| p.expires > 0));
    assert!(expired.iter().all(|p| p.expires == 0));
    let mut seen: Vec<String> = valid.into_iter().chain(expired).map(|p| p.uuid).collect();
    seen.sort();
    mine.sort();
    assert_eq!(seen, mine);
}

#[test]
fn users_are_isolated_from_each_other() {
    let mut app = spawn_app();
    let (_dev_a, token_a) = enroll(&mut app, "127.0.8.1", "iso-a", b"a-ehlo");
    let (_dev_b, token_b) = enroll(&mut app, "127.0.8.2", "iso-b", b"b-ehlo");
    app.group_create("127.0.8.1", &token_a, "a-group").unwrap();
    app.group_create("127.0.8.2", &token_b, "b-group").unwrap();

    let groups_a = app.group_list("127.0.8.1", &token_a).unwrap();
    assert_eq!(groups_a.len(), 1);
    assert_eq!(groups_a[0].name, "a-group");
    let groups_b = app.group_list("127.0.8.2", &token_b).unwrap();
    assert_eq!(groups_b.len(), 1);
    assert_eq!(groups_b[0].name, "b-group");
}

// ─── What the laws say, on one run each ─────────────────────────────────────

fn text_of<T>(r: AppResult<T>) -> String {
    match r {
        Ok(_) => "ok".to_string(),
        Err(e) => e.into_response().body,
    }
}

#[test]
fn every_refusal_reads_alike() {
    let mut app = spawn_app();
    let (dev, token) = enroll(&mut app, "127.1.0.1", "una", b"u-ehlo");
    let other = greet(&mut app, "127.1.0.2");
    let generic = "unauthorized";
    assert_eq!(text_of(app.verify("127.1.0.1", Some("no such token"))), generic);
    assert_eq!(text_of(app.verify("127.1.0.9", Some(&token))), generic);
    assert_eq!(text_of(app.verify("127.1.0.1", None)), generic);
    assert_eq!(
        text_of(app.sign_in("127.1.0.2", sign_request(&other, "nobody", b"u-ehlo"))),
        generic
    );
    assert_eq!(
        text_of(app.sign_in("127.1.0.2", sign_request(&other, "una", b"wrong"))),
        generic
    );
    let uuid = app.users()[0].uuid.clone();
    app.toggle_user(&uuid, "delete").unwrap();
    assert_eq!(text_of(app.verify("127.1.0.1", Some(&token))), generic);
    assert_eq!(
        text_of(app.sign_in("127.1.0.2", sign_request(&other, "una", b"u-ehlo"))),
        generic
    );
    assert_eq!(text_of(app.refresh("127.1.0.1", refresh_request(&dev, &token, b"u-ehlo"))), generic);
}

#[test]
fn restore_brings_an_account_back() {
    let mut app = spawn_app();
    let (_dev, token) = enroll(&mut app, "127.1.1.1", "vera", b"v-ehlo");
    let uuid = app.users()[0].uuid.clone();
    app.toggle_user(&uuid, "delete").unwrap();
    assert!(app.users()[0].is_deleted);
    assert_eq!(status_of(&app.verify("127.1.1.1", Some(&token))), 401);
    app.toggle_user(&uuid, "restore").unwrap();
    assert!(!app.users()[0].is_deleted);
    assert_eq!(app.users()[0].name, "vera");
    assert_eq!(status_of(&app.verify("127.1.1.1", Some(&token))), 200);
}

#[test]
fn removed_device_frees_its_address_and_keeps_the_data() {
    let mut app = spawn_app();
    let ip = "127.1.2.1";
    let (dev, token) = enroll(&mut app, ip, "walt", b"w-ehlo");
    let group_id = app.group_create(ip, &token, "grp").unwrap();
    let uuid =
        app.pwd_create(ip, &token, create_request(&dev, &group_id, b"kept")).unwrap().uuid;
    let device = app.identity_uuid_by_ip(ip);
    app.delete_identity(&device).unwrap();
    assert_eq!(status_of(&app.delete_identity(&device)), 404);

    let again = greet(&mut app, ip);
    let token = app.sign_in(ip, sign_request(&again, "walt", b"w-ehlo")).unwrap();
    approve_device_by_ip(&mut app, ip);
    let detail = app.pwd_get(ip, &token, &uuid).unwrap();
    let plain = decrypt_with_shared_key(&hex::decode(detail.pwd).unwrap(), &again.shared_key);
    assert_eq!(plain, b"kept");
}

#[test]
fn re_signed_device_moves_and_waits() {
    let mut app = spawn_app();
    let (dev, token) = enroll(&mut app, "127.1.3.1", "xena", b"x-ehlo");
    let req = ResignRequest {
        token: hex::encode(token.as_bytes()),
        ehlo: hex::encode(encrypt_with_shared_key(b"x-ehlo", &dev.shared_key)),
    };
    app.re_sign("127.1.3.2", req).unwrap();
    assert_eq!(status_of(&app.verify("127.1.3.1", Some(&token))), 401);
    assert_eq!(status_of(&app.verify("127.1.3.2", Some(&token))), 401);
    approve_device_by_ip(&mut app, "127.1.3.2");
    assert_eq!(status_of(&app.verify("127.1.3.2", Some(&token))), 200);
    let rotated = app.refresh("127.1.3.2", refresh_request(&dev, &token, b"x-ehlo"));
    assert_eq!(status_of(&rotated), 200, "the shared key did not change");
}

#[test]
fn tokens_are_stored_as_digests() {
    let mut app = spawn_app();
    let (_dev, token) = enroll(&mut app, "127.1.4.1", "yuri", b"y-ehlo");
    let digest = hex::encode(sha2::Sha256::digest(token.as_bytes()));
    assert_eq!(app.db.identities[0].device_token.as_deref(), Some(digest.as_str()));
    assert_eq!(token.len(), 36);
    assert_eq!(uuid::Uuid::parse_str(&token).unwrap().get_version_num(), 4);
}

#[test]
fn strangers_cannot_reach_a_password() {
    let mut app = spawn_app();
    let (dev_a, token_a) = enroll(&mut app, "127.1.5.1", "zoe", b"z-ehlo");
    let (dev_b, token_b) = enroll(&mut app, "127.1.5.2", "abe", b"a-ehlo");
    let group_a = app.group_create("127.1.5.1", &token_a, "a").unwrap();
    let group_b = app.group_create("127.1.5.2", &token_b, "b").unwrap();
    let req = create_request(&dev_a, &group_a, b"mine");
    let uuid = app.pwd_create("127.1.5.1", &token_a, req).unwrap().uuid;

    assert_eq!(status_of(&app.pwd_get("127.1.5.2", &token_b, &uuid)), 401);
    let req = update_request(&dev_b, &group_b, b"stolen");
    assert_eq!(status_of(&app.pwd_update("127.1.5.2", &token_b, &uuid, req)), 401);
    let req = update_request(&dev_a, &group_b, b"moved");
    assert_eq!(status_of(&app.pwd_update("127.1.5.1", &token_a, &uuid, req)), 401);
    let req = create_request(&dev_b, &group_a, b"planted");
    assert_eq!(status_of(&app.pwd_create("127.1.5.2", &token_b, req)), 401);
    assert_eq!(app.pwd_list("127.1.5.2", &token_b, ListParams::default()).unwrap().len(), 0);
    assert_eq!(app.pwd_list("127.1.5.1", &token_a, ListParams::default()).unwrap().len(), 1);
}

#[test]
fn pages_of_a_listing_join() {
    let mut app = spawn_app();
    let ip = "127.1.6.1";
    let (dev, token) = enroll(&mut app, ip, "bea", b"b-ehlo");
    let group_id = app.group_create(ip, &token, "grp").unwrap();
    for i in 0..5u8 {
        app.pwd_create(ip, &token, create_request(&dev, &group_id, &[i])).unwrap();
    }
    let page = |take: i64, size: i64| {
        let params = ListParams { expired: None, take: Some(take), size: Some(size) };
        let entries = app.pwd_list(ip, &token, params).unwrap();
        entries
            .iter()
            .map(|e| decrypt_with_shared_key(&hex::decode(&e.pwd).unwrap(), &dev.shared_key)[0])
            .collect::<Vec<u8>>()
    };
    assert_eq!(page(0, 2), vec![0, 1]);
    assert_eq!(page(2, 2), vec![2, 3]);
    assert_eq!(page(4, 2), vec![4]);
    assert_eq!(page(9, 2), Vec::<u8>::new());
    assert_eq!(page(-3, 0), vec![0]);
    assert_eq!(page(0, 1000), vec![0, 1, 2, 3, 4]);
}

#[test]
fn unreadable_rows_fail_the_listing() {
    let mut app = spawn_app();
    let ip = "127.1.7.1";
    let (dev, token) = enroll(&mut app, ip, "cleo", b"c-ehlo");
    let group_id = app.group_create(ip, &token, "grp").unwrap();
    for i in 0..3u8 {
        app.pwd_create(ip, &token, create_request(&dev, &group_id, &[i])).unwrap();
    }
    app.db.passwords[1].pwd = "zz".to_string();
    let all = app.pwd_list(ip, &token, ListParams::default());
    assert_eq!(text_of(all), "validation error: invalid hex");
    app.db.passwords[1].pwd = "00".to_string();
    let all = app.pwd_list(ip, &token, ListParams::default());
    assert_eq!(text_of(all), "crypto error: encrypted data too short");
    app.db.passwords[1].pwd = hex::encode([0u8; 40]);
    let all = app.pwd_list(ip, &token, ListParams::default());
    assert_eq!(text_of(all), "crypto error: decryption failed: aead::Error");
    let first = ListParams { expired: None, take: Some(0), size: Some(1) };
    assert_eq!(app.pwd_list(ip, &token, first).unwrap().len(), 1);
    let last = ListParams { expired: None, take: Some(2), size: Some(1) };
    assert_eq!(app.pwd_list(ip, &token, last).unwrap().len(), 1);
}

#[test]
fn expired_entries_show_no_days() {
    let mut app = spawn_app();
    let ip = "127.1.8.1";
    let (dev, token) = enroll(&mut app, ip, "dora", b"d-ehlo");
    let group_id = app.group_create(ip, &token, "grp").unwrap();
    let mut req = create_request(&dev, &group_id, b"x");
    req.valid_since_days = Some(1000);
    let entry = app.pwd_create(ip, &token, req).unwrap();
    assert_eq!(entry.valid_since_days, 365);
    assert_eq!(entry.expires, 365);
    app.db.passwords[0].valid_since = past();
    let entries = app.pwd_list(ip, &token, expired_only()).unwrap();
    assert_eq!(entries[0].expires, 0);
    assert_eq!(entries[0].valid_since_days, 365);
}

#[test]
fn too_long_fields_are_refused_before_the_session() {
    let mut app = spawn_app();
    let long = |n: usize| "é".repeat(n);
    let mut req = CreatePasswordRequest {
        pwd: "00".to_string(),
        group_id: "x".to_string(),
        extra: None,
        name: Some(long(257)),
        valid_since_days: None,
    };
    assert_eq!(
        text_of(app.pwd_create("1.1.1.1", "t", req)),
        "validation error: password name exceeds 256 characters"
    );
    req = CreatePasswordRequest {
        pwd: "00".to_string(),
        group_id: "x".to_string(),
        extra: Some(long(4097)),
        name: Some(long(256)),
        valid_since_days: None,
    };
    assert_eq!(
        text_of(app.pwd_create("1.1.1.1", "t", req)),
        "validation error: password extra exceeds 4096 characters"
    );
    let req = UpdatePasswordRequest {
        pwd: "00".to_string(),
        group_id: "x".to_string(),
        extra: Some(long(4097)),
        name: None,
    };
    assert_eq!(
        text_of(app.pwd_update("1.1.1.1", "t", "u", req)),
        "validation error: password extra exceeds 4096 characters"
    );
    assert_eq!(
        text_of(app.group_create("1.1.1.1", "t", &long(129))),
        "validation error: group name exceeds 128 characters"
    );
    assert_eq!(
        text_of(app.group_create("1.1.1.1", "t", &long(128))),
        "unauthorized"
    );
}

#[test]
fn long_names_cannot_sign_up() {
    let mut app = spawn_app();
    let dev = greet(&mut app, "127.1.9.1");
    let r = app.sign_up("127.1.9.1", sign_request(&dev, &"ü".repeat(65), b"e"));
    assert_eq!(text_of(r), "validation error: name exceeds 64 characters");
    let r = app.sign_up("127.1.9.1", sign_request(&dev, &"ü".repeat(64), b"e"));
    assert_eq!(status_of(&r), 200);
}

#[test]
fn broken_sign_requests_say_what_is_wrong() {
    let mut app = spawn_app();
    let ip = "127.1.10.1";
    let dev = greet(&mut app, ip);
    let good = hex::encode(encrypt_with_shared_key(b"name", &dev.shared_key));
    let not_utf8 = hex::encode(encrypt_with_shared_key(&[0xff, 0xfe], &dev.shared_key));
    let ask = |name: &str, ehlo: &str| SignRequest {
        name: name.to_string(),
        ehlo: ehlo.to_string(),
    };
    assert_eq!(text_of(app.sign_in(ip, ask("0", &good))), "validation error: invalid name hex");
    assert_eq!(text_of(app.sign_in(ip, ask(&good, "0g"))), "validation error: invalid ehlo hex");
    assert_eq!(
        text_of(app.sign_in(ip, ask("00", &good))),
        "crypto error: encrypted data too short"
    );
    assert_eq!(
        text_of(app.sign_in(ip, ask(&good, &hex::encode([1u8; 30])))),
        "crypto error: decryption failed: aead::Error"
    );
    assert_eq!(
        text_of(app.sign_in(ip, ask(&not_utf8, &good))),
        "validation error: name must be valid utf8"
    );
    let req = RefreshRequest { token: not_utf8.clone(), ehlo: good.clone() };
    assert_eq!(text_of(app.refresh(ip, req)), "validation error: token must be valid utf8");
    let req = RefreshRequest { token: "x".to_string(), ehlo: good.clone() };
    assert_eq!(text_of(app.refresh(ip, req)), "validation error: invalid token hex");
    let req = RefreshRequest { token: good.clone(), ehlo: "x".to_string() };
    assert_eq!(text_of(app.refresh(ip, req)), "validation error: invalid ehlo hex");
    let req = RefreshRequest { token: good.clone(), ehlo: good.clone() };
    assert_eq!(text_of(app.refresh(ip, req)), "unauthorized");
    let req = ResignRequest { token: "ff".to_string(), ehlo: good.clone() };
    assert_eq!(text_of(app.re_sign(ip, req)), "validation error: token must be valid utf8");
    let req = ResignRequest { token: "00".to_string(), ehlo: "x".to_string() };
    assert_eq!(text_of(app.re_sign(ip, req)), "validation error: invalid ehlo hex");
    let req = ResignRequest { token: "00".to_string(), ehlo: good };
    assert_eq!(text_of(app.re_sign(ip, req)), "unauthorized");
}

#[test]
fn broken_rows_are_reported() {
    let mut app = spawn_app();
    let ip = "127.1.11.1";
    let (dev, token) = enroll(&mut app, ip, "eli", b"e-ehlo");
    let stored = app.db.users[0].ehlo_secret.clone();
    app.db.users[0].ehlo_secret = "not hex".to_string();
    let r = app.refresh(ip, refresh_request(&dev, &token, b"e-ehlo"));
    assert_eq!(text_of(r), "crypto error: invalid ehlo storage format");
    app.db.users[0].ehlo_secret = "0011".to_string();
    let r = app.refresh(ip, refresh_request(&dev, &token, b"e-ehlo"));
    assert_eq!(text_of(r), "crypto error: encrypted data too short");
    app.db.users[0].ehlo_secret = stored;
    app.db.identities[0].client_public_key.pop();
    let r = app.refresh(ip, refresh_request(&dev, &token, b"e-ehlo"));
    assert_eq!(text_of(r), "crypto error: invalid public key length");
    app.db.identities[0].server_private_key = encrypt_with_shared_key(b"short", &ENCRYPT_SECRET);
    let r = app.refresh(ip, refresh_request(&dev, &token, b"e-ehlo"));
    assert_eq!(text_of(r), "crypto error: invalid private key length");
}

#[test]
fn a_race_for_an_address_is_lost_politely() {
    let app = spawn_app();
    let (_s, public) = generate_client_keypair();
    let req = GreetRequest { pub_key: hex::encode(public) };
    let ask = || {
        let step = greet_handler(&req, client_ip("127.1.12.1")).unwrap();
        step.found(None, &app.config).unwrap()
    };
    assert_eq!(
        text_of(ask().stored(Insertion::UniqueViolation)),
        "precondition failed: precondition failed"
    );
    assert_eq!(
        text_of(ask().stored(Insertion::Failed("disk full".to_string()))),
        "database error: disk full"
    );
    let step = ask();
    match &step.command {
        IdentityCommand::Insert(new) => {
            let private = decrypt_with_shared_key(&new.server_private_key, &ENCRYPT_SECRET);
            let private: [u8; 32] = private.try_into().unwrap();
            assert_eq!(private[0] & 7, 0);
            assert_eq!(private[31] & 0xc0, 0x40);
            let expected = x25519_dalek::x25519(private, X25519_BASEPOINT);
            assert_eq!(new.server_public_key, expected.to_vec());
            assert_eq!(new.client_public_key, public.to_vec());
            assert!(!new.is_confirmed);
            assert_eq!(new.extra, "{}");
        }
        other => panic!("a device is stored, not {other:?}"),
    }
    let response = step.stored(Insertion::Stored).unwrap();
    assert_eq!(response.server_public_key.len(), 64);
}

#[test]
fn admin_actions_name_what_they_take() {
    let mut app = spawn_app();
    let (_dev, _token) = enroll(&mut app, "127.1.13.1", "fay", b"f-ehlo");
    let pass = app.pass();
    assert_eq!(
        text_of(admin::toggle_user(&pass, "u", "purge")),
        "validation error: action must be delete or restore"
    );
    assert_eq!(
        text_of(admin::toggle_identity(&pass, "u", "approve")),
        "validation error: action must be confirm or unconfirm"
    );
    assert_eq!(text_of(app.toggle_user("nobody", "delete")), "not found: user not found");
    assert_eq!(text_of(app.set_identity_confirmed("nobody", true)), "identity not found");
    let users = app.users();
    assert_eq!(users.len(), 1);
    assert_eq!(users[0].identity_count, 1);
    assert_eq!(users[0].name, "fay");
}

#[test]
fn archive_holds_the_database_and_the_secrets() {
    let mut app = spawn_app();
    let _ = enroll(&mut app, "127.1.14.1", "gus", b"g-ehlo");
    let moment = Timestamp::new(1_700_000_000, 0).unwrap();
    let response = admin::export_at(&app.pass(), &vec![1, 2, 3], &app.config, moment).unwrap();
    assert_eq!(response.status, 200);
    assert_eq!(response.content_type, "application/gzip");
    let files = unpack(&response.body);
    assert_eq!(files.len(), 3);
    assert_eq!(files["pwd_manager.db"], vec![1, 2, 3]);
    assert_eq!(
        String::from_utf8(files[".env"].clone()).unwrap(),
        format!(
            "DATABASEENCRYPTSECRET={}\nSOFTWARESECRET={}\n",
            "aa".repeat(32),
            "bb".repeat(32)
        )
    );
    let readme = String::from_utf8(files["README.txt"].clone()).unwrap();
    assert!(readme.starts_with("Password Manager Export\nGenerated: 2023-11-14 22:13:20 UTC\n\n"));
    assert!(readme.ends_with("use the admin CLI Import tab or POST /admin/import.\n"));
    assert!(readme.contains("- .env            (export secrets — KEEP SAFE)\n"));
}

#[test]
fn archives_of_other_servers_are_refused() {
    let mut app = spawn_app();
    let pass = app.pass();
    let ask = |env: Option<&str>, config: &Config| {
        text_of(admin::import_handler(&pass, env.map(|s| s.to_string()), config))
    };
    assert_eq!(ask(None, &app.config), "validation error: missing .env in archive");
    assert_eq!(ask(Some(""), &app.config), "validation error: incomplete .env in archive");
    let enc = "aa".repeat(32);
    let sw = "bb".repeat(32);
    let half = format!("DATABASEENCRYPTSECRET={enc}\n");
    assert_eq!(ask(Some(&half), &app.config), "validation error: incomplete .env in archive");
    let swapped = format!("DATABASEENCRYPTSECRET={sw}\nSOFTWARESECRET={enc}\n");
    assert_eq!(
        ask(Some(&swapped), &app.config),
        "unauthorized: archive secrets do not match server configuration"
    );
    let last_counts = format!(
        "# a comment\r\nSOFTWARESECRET=old\r\nSOFTWARESECRET={sw}\r\nDATABASEENCRYPTSECRET={enc}"
    );
    assert_eq!(ask(Some(&last_counts), &app.config), "ok");
    let step = admin::import_handler(&pass, Some(last_counts), &app.config).unwrap();
    assert_eq!(
        text_of(step.read(None)),
        "validation error: missing pwd_manager.db in archive"
    );
    let archive = app.export().unwrap();
    app.files.clear();
    assert_eq!(
        text_of(app.import(&archive)),
        "validation error: imported db is not a valid SQLite database"
    );
}
