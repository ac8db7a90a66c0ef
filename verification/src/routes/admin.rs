//! `/admin/*`: devices and accounts under administration, and the archive of
//! the database.

use vstd::hash_map::StringHashMap;
use vstd::prelude::*;
use vstd::utf8::encode_utf8;

use crate::config::Config;
use crate::domain::identity::{
    Identity, IdentityCommand, IdentityKey, IdentityList, UpdateIdentity,
};
use crate::domain::user::{UpdateUser, User, UserCommand, UserKey, UserList};
use crate::error::{AppError, AppResult, Failure};
use crate::outside::{
    archive_bytes, hex_encode, hex_text, is_hex_digit, opt_bytes, opt_text, plain_name, tar_append,
    tar_entries, tar_finish, tar_new,
};
use crate::routes::AdminPass;
use crate::text::{
    behind, chomped, law_hex_round_trip, lines, lines_of, same_text, secrets_differ, strip_prefix,
    texts,
};
use crate::time::{moment_text, moment_utc_text, Timestamp};

verus! {

// ---------------------------------------------------------------------------
// Devices
// ---------------------------------------------------------------------------

#[derive(Debug)]
pub struct IdentityResponse {
    pub uuid: String,
    pub user_id: Option<String>,
    pub ip_address: String,
    pub device_token: Option<String>,
    pub is_confirmed: bool,
    pub created_at: String,
    pub updated_at: String,
}

/// Whether a response shows a device. It holds no key of the device and no
/// secret of its account.
pub open spec fn identity_shown(response: IdentityResponse, device: Identity) -> bool {
    &&& response.uuid@ == device.uuid@
    &&& opt_text(response.user_id) == opt_text(device.user_id)
    &&& response.ip_address@ == device.ip_address@
    &&& opt_text(response.device_token) == opt_text(device.device_token)
    &&& response.is_confirmed == device.is_confirmed
    &&& response.created_at@ == moment_text(device.created_at@)
    &&& response.updated_at@ == moment_text(device.updated_at@)
}

/// Asks for every device.
pub fn list_identities(pass: &AdminPass) -> (r: IdentityList)
    ensures
        r is All,
{
    Identity::find_all()
}

fn copy_of(text: &Option<String>) -> (r: Option<String>)
    ensures
        opt_text(r) == opt_text(*text),
{
    match text {
        Some(t) => Some(t.clone()),
        None => None,
    }
}

/// Shows devices, in order.
pub fn identities_listed(devices: &Vec<Identity>) -> (r: Vec<IdentityResponse>)
    ensures
        r@.len() == devices@.len(),
        forall|i: int| 0 <= i < r@.len() ==> identity_shown(#[trigger] r@[i], devices@[i]),
{
    let mut out: Vec<IdentityResponse> = Vec::new();
    let mut i: usize = 0;
    while i < devices.len()
        invariant
            i <= devices@.len(),
            out@.len() == i,
            forall|k: int| 0 <= k < i ==> identity_shown(#[trigger] out@[k], devices@[k]),
        decreases devices@.len() - i,
    {
        let d = &devices[i];
        out.push(
            IdentityResponse {
                uuid: d.uuid.clone(),
                user_id: copy_of(&d.user_id),
                ip_address: d.ip_address.clone(),
                device_token: copy_of(&d.device_token),
                is_confirmed: d.is_confirmed,
                created_at: d.created_at.text(),
                updated_at: d.updated_at.text(),
            },
        );
        i += 1;
    }
    out
}

/// The first step of an approval or its withdrawal: look the device up.
#[derive(Debug)]
pub struct ConfirmLookup {
    pub key: IdentityKey,
    pub uuid: String,
    pub confirmed: bool,
}

/// Whether a command sets the approval of a device and nothing else.
pub open spec fn confirms(command: IdentityCommand, device: Seq<char>, confirmed: bool) -> bool {
    command matches IdentityCommand::Update { uuid, changes, updated_at: _ } && {
        &&& uuid@ == device
        &&& changes.user_id is None
        &&& changes.ip_address is None
        &&& changes.device_token is None
        &&& changes.client_public_key is None
        &&& changes.extra is None
        &&& changes.is_confirmed == Some(confirmed)
    }
}

/// Sets the approval of a device.
pub fn set_confirm(uuid: &str, confirmed: bool) -> (r: ConfirmLookup)
    ensures
        r.key matches IdentityKey::Uuid(id) && id@ == uuid@,
        r.uuid@ == uuid@,
        r.confirmed == confirmed,
{
    ConfirmLookup { key: Identity::find_by_uuid(uuid), uuid: uuid.to_string(), confirmed }
}

impl ConfirmLookup {
    /// Writes the approval at a given moment, if there is such a device.
    pub fn found_at(self, device: Option<Identity>, now: Timestamp) -> (r: AppResult<
        IdentityCommand,
    >)
        ensures
            match r {
                Ok(command) => device is Some && confirms(command, self.uuid@, self.confirmed)
                    && command->updated_at == now,
                Err(e) => device is None && e@ == Failure::IdentityNotFound,
            },
    {
        if device.is_none() {
            return Err(AppError::IdentityNotFound);
        }
        let changes = UpdateIdentity {
            user_id: None,
            ip_address: None,
            device_token: None,
            client_public_key: None,
            extra: None,
            is_confirmed: Some(self.confirmed),
        };
        Ok(Identity::update_at(self.uuid.as_str(), changes, now))
    }

    /// Writes the approval now, if there is such a device.
    pub fn found(self, device: Option<Identity>) -> (r: AppResult<IdentityCommand>)
        ensures
            match r {
                Ok(command) => device is Some && confirms(command, self.uuid@, self.confirmed)
                    && command->updated_at.given(),
                Err(e) => device is None && e@ == Failure::IdentityNotFound,
            },
    {
        self.found_at(device, Timestamp::now())
    }
}

/// What an action on a device means.
pub open spec fn approval_of(action: Seq<char>) -> Result<bool, Failure> {
    if action == "confirm"@ {
        Ok(true)
    } else if action == "unconfirm"@ {
        Ok(false)
    } else {
        Err(Failure::Validation("action must be confirm or unconfirm"@))
    }
}

/// Acts on a device.
pub fn toggle_identity(pass: &AdminPass, uuid: &str, action: &str) -> (r: AppResult<ConfirmLookup>)
    ensures
        match r {
            Ok(step) => {
                &&& approval_of(action@) == Ok::<bool, Failure>(step.confirmed)
                &&& step.uuid@ == uuid@
                &&& step.key matches IdentityKey::Uuid(id) && id@ == uuid@
            },
            Err(e) => approval_of(action@) == Err::<bool, Failure>(e@),
        },
{
    if same_text(action, "confirm") {
        Ok(set_confirm(uuid, true))
    } else if same_text(action, "unconfirm") {
        Ok(set_confirm(uuid, false))
    } else {
        Err(AppError::Validation("action must be confirm or unconfirm".to_string()))
    }
}

/// The first step of a removal: look the device up.
#[derive(Debug)]
pub struct DeleteLookup {
    pub key: IdentityKey,
    pub uuid: String,
}

/// Starts to remove a device.
pub fn delete_identity(pass: &AdminPass, uuid: &str) -> (r: DeleteLookup)
    ensures
        r.key matches IdentityKey::Uuid(id) && id@ == uuid@,
        r.uuid@ == uuid@,
{
    DeleteLookup { key: Identity::find_by_uuid(uuid), uuid: uuid.to_string() }
}

impl DeleteLookup {
    /// Removes the device, if there is one.
    pub fn found(self, device: Option<Identity>) -> (r: AppResult<IdentityCommand>)
        ensures
            match r {
                Ok(command) => {
                    &&& device is Some
                    &&& command matches IdentityCommand::Delete(id) && id@ == self.uuid@
                },
                Err(e) => device is None && e@ == Failure::IdentityNotFound,
            },
    {
        if device.is_none() {
            return Err(AppError::IdentityNotFound);
        }
        Ok(Identity::delete(self.uuid.as_str()))
    }
}

// ---------------------------------------------------------------------------
// Accounts
// ---------------------------------------------------------------------------

#[derive(Debug)]
pub struct UserResponse {
    pub uuid: String,
    pub name: String,
    pub is_deleted: bool,
    pub identity_count: i64,
    pub created_at: String,
    pub updated_at: String,
}

/// How many devices belong to an account.
pub open spec fn device_count(devices: Seq<Identity>, account: Seq<char>) -> nat {
    devices.filter(|d: Identity| opt_text(d.user_id) == Some(account)).len()
}

/// Whether a response shows an account. It does not hold the secret of the
/// account.
pub open spec fn user_shown(response: UserResponse, user: User, devices: Seq<Identity>) -> bool {
    &&& response.uuid@ == user.uuid@
    &&& response.name@ == user.name@
    &&& response.is_deleted == user.is_deleted
    &&& response.identity_count == device_count(devices, user.uuid@)
    &&& response.created_at@ == moment_text(user.created_at@)
    &&& response.updated_at@ == moment_text(user.updated_at@)
}

/// Asks for every account and every device.
pub fn list_users(pass: &AdminPass) -> (r: (UserList, IdentityList))
    ensures
        r.0 is All,
        r.1 is All,
{
    (User::find_all(), Identity::find_all())
}

/// Whether a table holds the number of devices of every account.
spec fn counted(counts: Map<Seq<char>, i64>, devices: Seq<Identity>) -> bool {
    forall|account: Seq<char>|
        #![trigger counts.contains_key(account)]
        #![trigger device_count(devices, account)]
        device_count(devices, account) == if counts.contains_key(account) {
            counts[account] as int
        } else {
            0
        }
}

/// Counting one device more.
proof fn lemma_count_grows(devices: Seq<Identity>, device: Identity, account: Seq<char>)
    ensures
        device_count(devices.push(device), account) == device_count(devices, account) + if opt_text(
            device.user_id,
        ) == Some(account) {
            1nat
        } else {
            0nat
        },
        device_count(devices, account) <= devices.len(),
{
    reveal(Seq::filter);
    assert(devices.push(device).drop_last() =~= devices);
    broadcast use vstd::seq_lib::group_filter_ensures;
}

/// Counts the devices of every account.
fn count_devices(devices: &Vec<Identity>) -> (counts: StringHashMap<i64>)
    requires
        devices@.len() <= i64::MAX,
    ensures
        counted(counts@, devices@),
{
    let mut counts: StringHashMap<i64> = StringHashMap::new();
    let mut i: usize = 0;
    proof {
        reveal(Seq::filter);
        assert(devices@.take(0) =~= Seq::<Identity>::empty());
    }
    while i < devices.len()
        invariant
            i <= devices@.len() <= i64::MAX,
            counted(counts@, devices@.take(i as int)),
        decreases devices@.len() - i,
    {
        let ghost before = devices@.take(i as int);
        let ghost device = devices@[i as int];
        let ghost old_counts = counts@;
        proof {
            assert(devices@.take(i + 1) =~= before.push(device));
            assert forall|account: Seq<char>|
                #![trigger device_count(before.push(device), account)]
                device_count(before.push(device), account) == device_count(before, account)
                    + if opt_text(device.user_id) == Some(account) {
                    1nat
                } else {
                    0nat
                } && device_count(before, account) <= i by {
                lemma_count_grows(before, device, account);
            }
        }
        if let Some(account) = &devices[i].user_id {
            let seen: i64 = match counts.get(account.as_str()) {
                Some(n) => *n,
                None => 0,
            };
            proof {
                assert(device_count(before, account@) == seen);
                assert(device_count(before.push(device), account@) == seen + 1);
            }
            counts.insert(account.clone(), seen + 1);
        }
        proof {
            assert forall|account: Seq<char>|
                #![trigger counts@.contains_key(account)]
                #![trigger device_count(devices@.take(i + 1), account)]
                device_count(devices@.take(i + 1), account) == if counts@.contains_key(account) {
                    counts@[account] as int
                } else {
                    0
                } by {
                assert(device_count(before.push(device), account) >= 0);
                assert(device_count(before, account) == if old_counts.contains_key(account) {
                    old_counts[account] as int
                } else {
                    0
                });
            }
        }
        i += 1;
    }
    assert(devices@.take(i as int) =~= devices@);
    counts
}

/// Shows accounts, in order, each with the number of its devices.
pub fn users_listed(users: &Vec<User>, devices: &Vec<Identity>) -> (r: Vec<UserResponse>)
    requires
        devices@.len() <= i64::MAX,
    ensures
        r@.len() == users@.len(),
        forall|i: int| 0 <= i < r@.len() ==> user_shown(#[trigger] r@[i], users@[i], devices@),
{
    let counts = count_devices(devices);
    let mut out: Vec<UserResponse> = Vec::new();
    let mut i: usize = 0;
    while i < users.len()
        invariant
            i <= users@.len(),
            counted(counts@, devices@),
            out@.len() == i,
            forall|k: int| 0 <= k < i ==> user_shown(#[trigger] out@[k], users@[k], devices@),
        decreases users@.len() - i,
    {
        let u = &users[i];
        let identity_count: i64 = match counts.get(u.uuid.as_str()) {
            Some(n) => *n,
            None => 0,
        };
        assert(identity_count == device_count(devices@, u.uuid@));
        out.push(
            UserResponse {
                uuid: u.uuid.clone(),
                name: u.name.clone(),
                is_deleted: u.is_deleted,
                identity_count,
                created_at: u.created_at.text(),
                updated_at: u.updated_at.text(),
            },
        );
        i += 1;
    }
    out
}

/// The first step of a soft deletion or a restoration: look the account up.
#[derive(Debug)]
pub struct ToggleUser {
    pub key: UserKey,
    pub uuid: String,
    pub is_deleted: bool,
}

/// What an action on an account means.
pub open spec fn deletion_of(action: Seq<char>) -> Result<bool, Failure> {
    if action == "delete"@ {
        Ok(true)
    } else if action == "restore"@ {
        Ok(false)
    } else {
        Err(Failure::Validation("action must be delete or restore"@))
    }
}

/// Whether a command sets or clears the deletion mark of an account and changes
/// nothing else.
pub open spec fn marks(command: UserCommand, account: Seq<char>, is_deleted: bool) -> bool {
    command matches UserCommand::Update { uuid, changes, updated_at: _ } && {
        &&& uuid@ == account
        &&& changes.is_deleted == Some(is_deleted)
        &&& changes.extra is None
    }
}

/// Acts on an account.
pub fn toggle_user(pass: &AdminPass, uuid: &str, action: &str) -> (r: AppResult<ToggleUser>)
    ensures
        match r {
            Ok(step) => {
                &&& deletion_of(action@) == Ok::<bool, Failure>(step.is_deleted)
                &&& step.uuid@ == uuid@
                &&& step.key matches UserKey::Uuid(id) && id@ == uuid@
            },
            Err(e) => deletion_of(action@) == Err::<bool, Failure>(e@),
        },
{
    let is_deleted: bool = if same_text(action, "delete") {
        true
    } else if same_text(action, "restore") {
        false
    } else {
        return Err(AppError::Validation("action must be delete or restore".to_string()));
    };
    Ok(ToggleUser { key: User::find_by_uuid(uuid), uuid: uuid.to_string(), is_deleted })
}

impl ToggleUser {
    /// Writes the mark at a given moment, if there is such an account.
    pub fn found_at(self, user: Option<User>, now: Timestamp) -> (r: AppResult<UserCommand>)
        ensures
            match r {
                Ok(command) => user is Some && marks(command, self.uuid@, self.is_deleted)
                    && command->updated_at == now,
                Err(e) => user is None && e@ == Failure::NotFound("user not found"@),
            },
    {
        if user.is_none() {
            return Err(AppError::NotFound("user not found".to_string()));
        }
        let changes = UpdateUser { is_deleted: Some(self.is_deleted), extra: None };
        Ok(User::update_at(self.uuid.as_str(), changes, now))
    }

    /// Writes the mark now, if there is such an account.
    pub fn found(self, user: Option<User>) -> (r: AppResult<UserCommand>)
        ensures
            match r {
                Ok(command) => user is Some && marks(command, self.uuid@, self.is_deleted)
                    && command->updated_at.given(),
                Err(e) => user is None && e@ == Failure::NotFound("user not found"@),
            },
    {
        self.found_at(user, Timestamp::now())
    }
}

// ---------------------------------------------------------------------------
// Export
// ---------------------------------------------------------------------------

/// The archive of a server, with the header that goes with it.
#[derive(Debug)]
pub struct ExportResponse {
    pub status: u16,
    pub content_type: String,
    pub body: Vec<u8>,
}

/// The file of an archive that holds the secrets.
pub open spec fn env_text(encrypt_secret: Seq<u8>, software_secret: Seq<u8>) -> Seq<char> {
    "DATABASEENCRYPTSECRET="@ + hex_text(encrypt_secret) + "\n"@ + "SOFTWARESECRET="@ + hex_text(
        software_secret,
    ) + "\n"@
}

/// The file of an archive that explains it.
pub open spec fn readme_text(moment: int) -> Seq<char> {
    "Password Manager Export\nGenerated: "@ + moment_utc_text(moment)
        + "\n\nThis archive contains:\n- pwd_manager.db  (SQLite database, all passwords encrypted at rest)\n- .env            (export secrets — KEEP SAFE)\n\nTo import, use the admin CLI Import tab or POST /admin/import.\n"@
}

/// What an archive is made of: the database, the secrets and the explanation.
pub open spec fn export_entries(database: Seq<u8>, config: Config, moment: int) -> Seq<
    (Seq<char>, Seq<u8>),
> {
    seq![
        ("pwd_manager.db"@, database),
        (
            ".env"@,
            encode_utf8(env_text(config.database_encrypt_secret@, config.software_secret@)),
        ),
        ("README.txt"@, encode_utf8(readme_text(moment))),
    ]
}

/// Writes the file that holds the secrets.
pub fn env_content(config: &Config) -> (r: String)
    ensures
        r@ == env_text(config.database_encrypt_secret@, config.software_secret@),
{
    let mut s = "DATABASEENCRYPTSECRET=".to_string();
    s.push_str(hex_encode(&config.database_encrypt_secret).as_str());
    s.push_str("\n");
    s.push_str("SOFTWARESECRET=");
    s.push_str(hex_encode(&config.software_secret).as_str());
    s.push_str("\n");
    s
}

/// Writes the file that explains the archive.
pub fn readme(now: Timestamp) -> (r: String)
    ensures
        r@ == readme_text(now@),
{
    let mut s = "Password Manager Export\nGenerated: ".to_string();
    s.push_str(now.utc_text().as_str());
    s.push_str(
        "\n\nThis archive contains:\n- pwd_manager.db  (SQLite database, all passwords encrypted at rest)\n- .env            (export secrets — KEEP SAFE)\n\nTo import, use the admin CLI Import tab or POST /admin/import.\n",
    );
    s
}

fn packing_error(what: &str, reason: String) -> (e: AppError)
    ensures
        e@ == Failure::Internal(what@ + reason@),
{
    let mut s = what.to_string();
    s.push_str(reason.as_str());
    AppError::Internal(s)
}

/// The files of an archive have plain names.
proof fn lemma_plain_names()
    ensures
        plain_name("pwd_manager.db"@),
        plain_name(".env"@),
        plain_name("README.txt"@),
{
    reveal_strlit("pwd_manager.db");
    reveal_strlit(".env");
    reveal_strlit("README.txt");
}

/// Packs an archive at a given moment.
pub fn export_at(pass: &AdminPass, database: &Vec<u8>, config: &Config, now: Timestamp) -> (r:
    AppResult<ExportResponse>)
    ensures
        r is Ok,
        r->Ok_0.status == 200,
        r->Ok_0.content_type@ == "application/gzip"@,
        r->Ok_0.body@ == archive_bytes(export_entries(database@, *config, now@)),
{
    proof {
        lemma_plain_names();
    }
    let env = env_content(config);
    let readme = readme(now);
    let mut archive = tar_new();
    match tar_append(&mut archive, "pwd_manager.db", database.as_slice()) {
        Ok(_) => {},
        Err(reason) => return Err(packing_error("tar append db failed: ", reason)),
    }
    match tar_append(&mut archive, ".env", env.as_str().as_bytes()) {
        Ok(_) => {},
        Err(reason) => return Err(packing_error("tar append env failed: ", reason)),
    }
    match tar_append(&mut archive, "README.txt", readme.as_str().as_bytes()) {
        Ok(_) => {},
        Err(reason) => return Err(packing_error("tar append readme failed: ", reason)),
    }
    assert(tar_entries(archive) =~= export_entries(database@, *config, now@));
    match tar_finish(archive) {
        Ok(body) => Ok(
            ExportResponse { status: 200, content_type: "application/gzip".to_string(), body },
        ),
        Err(reason) => Err(packing_error("tar finish failed: ", reason)),
    }
}

/// Packs an archive now.
pub fn export_handler(pass: &AdminPass, database: &Vec<u8>, config: &Config) -> (r: AppResult<
    ExportResponse,
>)
    ensures
        r is Ok,
        r->Ok_0.status == 200,
        r->Ok_0.content_type@ == "application/gzip"@,
        exists|now: Timestamp| #[trigger]
            now.given() && r->Ok_0.body@ == archive_bytes(
                export_entries(database@, *config, now@),
            ),
{
    let now = Timestamp::now();
    export_at(pass, database, config, now)
}

// ---------------------------------------------------------------------------
// Import
// ---------------------------------------------------------------------------

/// What the last of some lines with a prefix says behind it.
pub open spec fn last_value(lines: Seq<Seq<char>>, prefix: Seq<char>) -> Option<Seq<char>>
    decreases lines.len(),
{
    if lines.len() == 0 {
        None
    } else {
        match behind(lines.last(), prefix) {
            Some(value) => Some(value),
            None => last_value(lines.drop_last(), prefix),
        }
    }
}

/// The secrets that the file of an archive names, in hexadecimal.
pub open spec fn archive_secrets(env: Seq<char>) -> Option<(Seq<char>, Seq<char>)> {
    match (
        last_value(lines_of(env), "DATABASEENCRYPTSECRET="@),
        last_value(lines_of(env), "SOFTWARESECRET="@),
    ) {
        (Some(encrypt_secret), Some(software_secret)) => Some((encrypt_secret, software_secret)),
        _ => None,
    }
}

/// Whether an archive belongs to a server: its file of secrets is there, is
/// complete, and names the secrets of the server.
pub open spec fn archive_checked(
    env: Option<Seq<char>>,
    encrypt_secret: Seq<u8>,
    software_secret: Seq<u8>,
) -> Result<(), Failure> {
    match env {
        None => Err(Failure::Validation("missing .env in archive"@)),
        Some(text) => match archive_secrets(text) {
            None => Err(Failure::Validation("incomplete .env in archive"@)),
            Some(named) => if named == (hex_text(encrypt_secret), hex_text(software_secret)) {
                Ok(())
            } else {
                Err(Failure::Unauthorized("archive secrets do not match server configuration"@))
            },
        },
    }
}

/// The database that an archive holds, or that it holds none.
pub open spec fn database_checked(database: Option<Seq<u8>>) -> Result<Seq<u8>, Failure> {
    match database {
        Some(bytes) => Ok(bytes),
        None => Err(Failure::Validation("missing pwd_manager.db in archive"@)),
    }
}

/// Whether a staged database may take the place of the live one: it opens.
pub open spec fn staging_checked(opens: bool) -> Result<(), Failure> {
    if opens {
        Ok(())
    } else {
        Err(Failure::Validation("imported db is not a valid SQLite database"@))
    }
}

/// The database that an import puts in the place of the live one, or the first
/// thing that is wrong with the archive: with its file of secrets, with its
/// database, or with opening it.
pub open spec fn import_outcome(
    env: Option<Seq<char>>,
    database: Option<Seq<u8>>,
    opens: bool,
    config: Config,
) -> Result<Seq<u8>, Failure> {
    match archive_checked(env, config.database_encrypt_secret@, config.software_secret@) {
        Err(e) => Err(e),
        Ok(_) => match database_checked(database) {
            Err(e) => Err(e),
            Ok(bytes) => match staging_checked(opens) {
                Err(e) => Err(e),
                Ok(_) => Ok(bytes),
            },
        },
    }
}

/// Reads the secrets that the file of an archive names.
pub fn parse_env(env: &str) -> (r: Option<(String, String)>)
    ensures
        match r {
            Some(named) => archive_secrets(env@) == Some((named.0@, named.1@)),
            None => archive_secrets(env@) is None,
        },
{
    let lines = lines(env);
    let mut encrypt_secret: Option<String> = None;
    let mut software_secret: Option<String> = None;
    let ghost all = lines_of(env@);
    let mut i: usize = 0;
    while i < lines.len()
        invariant
            i <= lines@.len(),
            all == lines_of(env@),
            all == texts(lines@),
            opt_text(encrypt_secret) == last_value(
                all.take(i as int),
                "DATABASEENCRYPTSECRET="@,
            ),
            opt_text(software_secret) == last_value(all.take(i as int), "SOFTWARESECRET="@),
        decreases lines@.len() - i,
    {
        let line = lines[i].as_str();
        proof {
            assert(all.take(i + 1).drop_last() =~= all.take(i as int));
            assert(all.take(i + 1).last() == line@);
        }
        if let Some(value) = strip_prefix(line, "DATABASEENCRYPTSECRET=") {
            encrypt_secret = Some(value);
        }
        if let Some(value) = strip_prefix(line, "SOFTWARESECRET=") {
            software_secret = Some(value);
        }
        i += 1;
    }
    assert(all.take(i as int) =~= all);
    match (encrypt_secret, software_secret) {
        (Some(e), Some(s)) => Some((e, s)),
        _ => None,
    }
}

/// The second step of an import: take the database out of the archive.
#[derive(Debug)]
pub struct ImportDatabase {
    pub staged: String,
}

/// The third step of an import: put the database beside the live one and see
/// whether it opens.
#[derive(Debug)]
pub struct ImportStage {
    pub staged: String,
    pub database: Vec<u8>,
}

/// The last step of an import: put the staged database in the place of the live
/// one, open it anew and bring its tables up to date.
#[derive(Debug)]
pub struct ImportSwap {
    pub staged: String,
}

/// Checks the file of secrets of an archive.
pub fn import_handler(pass: &AdminPass, env: Option<String>, config: &Config) -> (r: AppResult<
    ImportDatabase,
>)
    ensures
        match r {
            Ok(step) => {
                &&& archive_checked(
                    opt_text(env),
                    config.database_encrypt_secret@,
                    config.software_secret@,
                ) is Ok
                &&& step.staged@ == config.database_url@ + ".importing"@
            },
            Err(e) => archive_checked(
                opt_text(env),
                config.database_encrypt_secret@,
                config.software_secret@,
            ) == Err::<(), Failure>(e@),
        },
{
    let env = match env {
        Some(env) => env,
        None => return Err(AppError::Validation("missing .env in archive".to_string())),
    };
    let (encrypt_secret, software_secret) = match parse_env(env.as_str()) {
        Some(named) => named,
        None => return Err(AppError::Validation("incomplete .env in archive".to_string())),
    };
    let current_encrypt = hex_encode(&config.database_encrypt_secret);
    let current_software = hex_encode(&config.software_secret);
    if secrets_differ(encrypt_secret.as_str(), current_encrypt.as_str()) || secrets_differ(
        software_secret.as_str(),
        current_software.as_str(),
    ) {
        return Err(
            AppError::Unauthorized(
                "archive secrets do not match server configuration".to_string(),
            ),
        );
    }
    let mut staged = config.database_url.clone();
    staged.push_str(".importing");
    Ok(ImportDatabase { staged })
}

impl ImportDatabase {
    /// Takes the database, if the archive holds one.
    pub fn read(self, database: Option<Vec<u8>>) -> (r: AppResult<ImportStage>)
        ensures
            match r {
                Ok(step) => {
                    &&& database_checked(opt_bytes(database)) == Ok::<Seq<u8>, Failure>(
                        step.database@,
                    )
                    &&& database == Some(step.database)
                    &&& step.staged == self.staged
                },
                Err(e) => database_checked(opt_bytes(database)) == Err::<Seq<u8>, Failure>(e@),
            },
    {
        match database {
            Some(database) => Ok(ImportStage { staged: self.staged, database }),
            None => Err(AppError::Validation("missing pwd_manager.db in archive".to_string())),
        }
    }
}

impl ImportStage {
    /// Goes on if the staged file opens as a database.
    pub fn opened(self, opens: bool) -> (r: AppResult<ImportSwap>)
        ensures
            match r {
                Ok(step) => staging_checked(opens) is Ok && step.staged == self.staged,
                Err(e) => staging_checked(opens) == Err::<(), Failure>(e@),
            },
    {
        if opens {
            Ok(ImportSwap { staged: self.staged })
        } else {
            Err(AppError::Validation("imported db is not a valid SQLite database".to_string()))
        }
    }
}

/// The first line of a text, and the rest of it.
proof fn lemma_first_line(line: Seq<char>, rest: Seq<char>)
    requires
        forall|i: int| 0 <= i < line.len() ==> #[trigger] line[i] != '\n',
    ensures
        lines_of(line + "\n"@ + rest) == seq![chomped(line)] + lines_of(rest),
{
    reveal_strlit("\n");
    let s = line + "\n"@ + rest;
    s.index_of_first_ensures('\n');
    assert(s[line.len() as int] == '\n');
    let at = s.index_of_first('\n')->0;
    assert(at == line.len()) by {
        if at < line.len() {
            assert(s[at] == line[at]);
        }
    }
    assert(s.take(at) =~= line);
    assert(s.skip(at + 1) =~= rest);
}

/// A line that sets a variable to hexadecimal digits has no line end in it.
proof fn lemma_setting_line(name: Seq<char>, value: Seq<u8>)
    requires
        name.len() > 0,
        name.last() == '=',
        forall|i: int| 0 <= i < name.len() ==> #[trigger] name[i] != '\n',
    ensures
        forall|i: int|
            0 <= i < (name + hex_text(value)).len() ==> #[trigger] (name + hex_text(value))[i]
                != '\n',
        chomped(name + hex_text(value)) == name + hex_text(value),
        behind(name + hex_text(value), name) == Some(hex_text(value)),
{
    let digits = hex_text(value);
    let line = name + digits;
    law_hex_round_trip(value);
    assert forall|i: int| 0 <= i < line.len() implies #[trigger] line[i] != '\n' by {
        if i >= name.len() {
            assert(line[i] == digits[i - name.len()]);
            assert(is_hex_digit(digits[i - name.len()]));
        } else {
            assert(line[i] == name[i]);
        }
    }
    if digits.len() > 0 {
        assert(line.last() == digits.last());
        assert(is_hex_digit(digits[digits.len() - 1]));
    } else {
        assert(line =~= name);
    }
    assert(line.take(name.len() as int) =~= name);
    assert(line.skip(name.len() as int) =~= digits);
}

/// The lines of an exported file of secrets.
proof fn lemma_env_lines(encrypt_secret: Seq<u8>, software_secret: Seq<u8>)
    ensures
        lines_of(env_text(encrypt_secret, software_secret)) == seq![
            "DATABASEENCRYPTSECRET="@ + hex_text(encrypt_secret),
            "SOFTWARESECRET="@ + hex_text(software_secret),
        ],
        behind(
            "DATABASEENCRYPTSECRET="@ + hex_text(encrypt_secret),
            "DATABASEENCRYPTSECRET="@,
        ) == Some(hex_text(encrypt_secret)),
        behind("SOFTWARESECRET="@ + hex_text(software_secret), "SOFTWARESECRET="@) == Some(
            hex_text(software_secret),
        ),
{
    let first = "DATABASEENCRYPTSECRET="@ + hex_text(encrypt_secret);
    let second = "SOFTWARESECRET="@ + hex_text(software_secret);
    reveal_strlit("DATABASEENCRYPTSECRET=");
    reveal_strlit("SOFTWARESECRET=");
    lemma_setting_line("DATABASEENCRYPTSECRET="@, encrypt_secret);
    lemma_setting_line("SOFTWARESECRET="@, software_secret);
    lemma_first_line(first, second + "\n"@);
    lemma_first_line(second, Seq::empty());
    assert(env_text(encrypt_secret, software_secret) =~= first + "\n"@ + (second + "\n"@));
    assert(second + "\n"@ =~= second + "\n"@ + Seq::<char>::empty());
    assert(lines_of(env_text(encrypt_secret, software_secret)) =~= seq![first, second]);
}

/// A line that sets the one secret does not set the other.
proof fn lemma_other_setting(value: Seq<char>)
    ensures
        behind("SOFTWARESECRET="@ + value, "DATABASEENCRYPTSECRET="@) is None,
{
    reveal_strlit("DATABASEENCRYPTSECRET=");
    reveal_strlit("SOFTWARESECRET=");
    let line = "SOFTWARESECRET="@ + value;
    assert(line[0] == 'S');
    if 22 <= line.len() {
        assert(line.take(22)[0] == 'S');
    }
}

/// Of two lines the second decides where it has the prefix.
proof fn lemma_last_of_two(first: Seq<char>, second: Seq<char>, prefix: Seq<char>)
    ensures
        last_value(seq![first, second], prefix) == match behind(second, prefix) {
            Some(value) => Some(value),
            None => behind(first, prefix),
        },
{
    reveal_with_fuel(last_value, 3);
    assert(seq![first, second].drop_last() =~= seq![first]);
    assert(seq![first].drop_last() =~= Seq::<Seq<char>>::empty());
}

/// The file of secrets that a server exports is one that the same server takes
/// back.
pub proof fn law_export_imports(encrypt_secret: Seq<u8>, software_secret: Seq<u8>)
    ensures
        archive_checked(
            Some(env_text(encrypt_secret, software_secret)),
            encrypt_secret,
            software_secret,
        ) is Ok,
{
    let first = "DATABASEENCRYPTSECRET="@ + hex_text(encrypt_secret);
    let second = "SOFTWARESECRET="@ + hex_text(software_secret);
    lemma_env_lines(encrypt_secret, software_secret);
    lemma_other_setting(hex_text(software_secret));
    lemma_last_of_two(first, second, "DATABASEENCRYPTSECRET="@);
    lemma_last_of_two(first, second, "SOFTWARESECRET="@);
}

/// An archive of which a secret differs from that of the server is refused.
pub proof fn law_foreign_archive_refused(
    ours: (Seq<u8>, Seq<u8>),
    theirs: (Seq<u8>, Seq<u8>),
)
    requires
        ours != theirs,
    ensures
        archive_checked(Some(env_text(theirs.0, theirs.1)), ours.0, ours.1) == Err::<(), Failure>(
            Failure::Unauthorized("archive secrets do not match server configuration"@),
        ),
{
    law_export_imports(theirs.0, theirs.1);
    law_hex_round_trip(ours.0);
    law_hex_round_trip(ours.1);
    law_hex_round_trip(theirs.0);
    law_hex_round_trip(theirs.1);
}

} // verus!
