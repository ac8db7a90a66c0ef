//! What the console asks of the server, and what it makes of the answers.

use vstd::prelude::*;

use crate::console::{pages_for, App, Console, IdentityEntry, UserEntry, PAGE_SIZE};
use crate::outside::opt_text;
use crate::routes::router::Method;
use crate::text::{decimal, decimal_text, same_text};

verus! {

/// A request to the server.
#[derive(Debug)]
pub struct Call {
    pub method: Method,
    pub url: String,
    pub admin_key: String,
}

/// How the server took a request: it succeeded, answered with another status
/// (given as text), or could not be reached.
#[derive(Debug)]
pub enum Outcome {
    Success,
    Status(String),
    Unreachable,
}

/// A list that the server was asked for.
#[derive(Debug)]
pub enum Listing<T> {
    Rows(Vec<T>),
    Refused,
    Unreachable,
}

/// A device as the server describes it. What is absent was not there or was of
/// another type.
#[derive(Debug)]
pub struct RawIdentity {
    pub uuid: Option<String>,
    pub user_id: Option<String>,
    pub ip_address: Option<String>,
    pub is_confirmed: Option<bool>,
    pub device_token: Option<String>,
    pub created_at: Option<String>,
    pub updated_at: Option<String>,
}

/// An account as the server describes it. What is absent was not there or was
/// of another type.
#[derive(Debug)]
pub struct RawUser {
    pub uuid: Option<String>,
    pub name: Option<String>,
    pub is_deleted: Option<bool>,
    pub identity_count: Option<i64>,
    pub created_at: Option<String>,
    pub updated_at: Option<String>,
}

/// Whether a request goes to a path of the server, with the key of the
/// administrator.
pub open spec fn calls(call: Call, method: Method, s: Console, path: Seq<char>) -> bool {
    &&& call.method == method
    &&& call.url@ == s.base + path
    &&& call.admin_key@ == s.admin_key
}

/// The path that acts on a device.
pub open spec fn device_path(uuid: Seq<char>, action: Seq<char>) -> Seq<char> {
    "/admin/identities/"@ + uuid + "/"@ + action
}

/// The path that acts on an account.
pub open spec fn account_path(uuid: Seq<char>, action: Seq<char>) -> Seq<char> {
    "/admin/users/"@ + uuid + "/"@ + action
}

/// The action that sets the approval of a device.
pub open spec fn approval_action(confirm: bool) -> Seq<char> {
    if confirm {
        "confirm"@
    } else {
        "unconfirm"@
    }
}

/// The action that marks or restores an account.
pub open spec fn deletion_action(delete: bool) -> Seq<char> {
    if delete {
        "delete"@
    } else {
        "restore"@
    }
}

fn approval_word(confirm: bool) -> (r: String)
    ensures
        r@ == approval_action(confirm),
{
    if confirm {
        "confirm".to_string()
    } else {
        "unconfirm".to_string()
    }
}

fn deletion_word(delete: bool) -> (r: String)
    ensures
        r@ == deletion_action(delete),
{
    if delete {
        "delete".to_string()
    } else {
        "restore".to_string()
    }
}

fn joined(a: &str, b: &str, c: &str, d: &str) -> (r: String)
    ensures
        r@ == a@ + b@ + c@ + d@,
{
    let mut s = a.to_string();
    s.push_str(b);
    s.push_str(c);
    s.push_str(d);
    s
}

impl App {
    fn call(&self, method: Method, path: &str) -> (r: Call)
        ensures
            calls(r, method, self@, path@),
    {
        let mut url = self.base.clone();
        url.push_str(path);
        Call { method, url, admin_key: self.admin_key.clone() }
    }
}

// ---------------------------------------------------------------------------
// Fetching devices
// ---------------------------------------------------------------------------

/// A text, or what stands in for it.
pub open spec fn text_or(v: Option<String>, default: Seq<char>) -> Seq<char> {
    match v {
        Some(s) => s@,
        None => default,
    }
}

fn or_text(v: Option<String>, default: &str) -> (r: String)
    ensures
        r@ == text_or(v, default@),
{
    match v {
        Some(s) => s,
        None => default.to_string(),
    }
}

/// Whether an entry is what the console knows of a device that the server
/// describes.
pub open spec fn device_read(raw: RawIdentity, entry: IdentityEntry) -> bool {
    &&& entry.uuid@ == text_or(raw.uuid, "?"@)
    &&& opt_text(entry.user_id) == opt_text(raw.user_id)
    &&& entry.ip_address@ == text_or(raw.ip_address, "?"@)
    &&& entry.confirmed == (raw.is_confirmed == Some(true))
    &&& entry.device_token@ == text_or(raw.device_token, "-"@)
    &&& entry.created_at@ == text_or(raw.created_at, "?"@)
    &&& entry.updated_at@ == text_or(raw.updated_at, "?"@)
}

/// Reads a device that the server describes.
pub fn read_device(raw: RawIdentity) -> (r: IdentityEntry)
    ensures
        device_read(raw, r),
{
    IdentityEntry {
        uuid: or_text(raw.uuid, "?"),
        user_id: raw.user_id,
        ip_address: or_text(raw.ip_address, "?"),
        confirmed: match raw.is_confirmed {
            Some(confirmed) => confirmed,
            None => false,
        },
        device_token: or_text(raw.device_token, "-"),
        created_at: or_text(raw.created_at, "?"),
        updated_at: or_text(raw.updated_at, "?"),
    }
}

/// Reads the devices that the server describes, in order.
pub fn read_devices(rows: Vec<RawIdentity>) -> (r: Vec<IdentityEntry>)
    ensures
        r@.len() == rows@.len(),
        forall|i: int| 0 <= i < r@.len() ==> device_read(rows@[i], #[trigger] r@[i]),
{
    let mut out: Vec<IdentityEntry> = Vec::new();
    for raw in it: rows
        invariant
            it.seq() == rows@,
            out@.len() == it.index(),
            forall|i: int| 0 <= i < out@.len() ==> device_read(rows@[i], #[trigger] out@[i]),
    {
        out.push(read_device(raw));
    }
    out
}

/// The state once the devices are listed: on the same page, or on the last one
/// if there are fewer, with its first device selected.
pub open spec fn devices_listed(s: Console, entries: Seq<IdentityEntry>) -> Console {
    let total = pages_for(entries.len());
    let page: int = if s.page < total {
        s.page as int
    } else {
        total - 1
    };
    Console {
        identities: entries,
        total_pages: total as usize,
        page: page as usize,
        selected: if entries.len() == 0 {
            None
        } else {
            Some(0)
        },
        loading: false,
        ..s
    }
}

/// The state once the devices could not be listed.
pub open spec fn devices_not_listed(s: Console, reachable: bool) -> Console {
    Console {
        message: "Failed to fetch identities"@,
        backend_down: if reachable {
            s.backend_down
        } else {
            true
        },
        loading: false,
        ..s
    }
}

impl App {
    /// Asks for the devices.
    pub fn fetch_all(&mut self) -> (r: Call)
        ensures
            final(self)@ == (Console { loading: true, backend_down: false, ..old(self)@ }),
            calls(r, Method::Get, old(self)@, "/admin/identities"@),
            old(self)@.wf() ==> final(self)@.wf(),
    {
        self.loading = true;
        self.backend_down = false;
        self.call(Method::Get, "/admin/identities")
    }

    /// Takes the devices.
    pub fn fetched_all(&mut self, reply: Listing<RawIdentity>)
        requires
            old(self)@.wf(),
        ensures
            final(self)@.wf(),
            match reply {
                Listing::Rows(rows) => {
                    &&& final(self)@ == devices_listed(old(self)@, final(self)@.identities)
                    &&& final(self)@.identities.len() == rows@.len()
                    &&& forall|i: int|
                        0 <= i < rows@.len() ==> device_read(
                            rows@[i],
                            #[trigger] final(self)@.identities[i],
                        )
                },
                Listing::Refused => final(self)@ == devices_not_listed(old(self)@, true),
                Listing::Unreachable => final(self)@ == devices_not_listed(old(self)@, false),
            },
    {
        match reply {
            Listing::Rows(rows) => {
                let entries = read_devices(rows);
                let len: usize = entries.len();
                let total: usize = if len == 0 {
                    1
                } else {
                    (len - 1) / PAGE_SIZE + 1
                };
                self.identities = entries;
                self.total_pages = total;
                if self.page >= total {
                    self.page = total - 1;
                }
                self.selected = if len == 0 {
                    None
                } else {
                    Some(0)
                };
            },
            Listing::Refused => {
                self.message = "Failed to fetch identities".to_string();
            },
            Listing::Unreachable => {
                self.backend_down = true;
                self.message = "Failed to fetch identities".to_string();
            },
        }
        self.loading = false;
    }
}

// ---------------------------------------------------------------------------
// Fetching accounts
// ---------------------------------------------------------------------------

/// Whether an entry is what the console knows of an account that the server
/// describes.
pub open spec fn account_read(raw: RawUser, entry: UserEntry) -> bool {
    &&& entry.uuid@ == text_or(raw.uuid, "?"@)
    &&& entry.name@ == text_or(raw.name, "?"@)
    &&& entry.is_deleted == (raw.is_deleted == Some(true))
    &&& entry.identity_count == match raw.identity_count {
        Some(n) => n,
        None => 0,
    }
    &&& entry.created_at@ == text_or(raw.created_at, "?"@)
    &&& entry.updated_at@ == text_or(raw.updated_at, "?"@)
}

/// Reads an account that the server describes.
pub fn read_account(raw: RawUser) -> (r: UserEntry)
    ensures
        account_read(raw, r),
{
    UserEntry {
        uuid: or_text(raw.uuid, "?"),
        name: or_text(raw.name, "?"),
        is_deleted: match raw.is_deleted {
            Some(is_deleted) => is_deleted,
            None => false,
        },
        identity_count: match raw.identity_count {
            Some(n) => n,
            None => 0,
        },
        created_at: or_text(raw.created_at, "?"),
        updated_at: or_text(raw.updated_at, "?"),
    }
}

/// Reads the accounts that the server describes, in order.
pub fn read_accounts(rows: Vec<RawUser>) -> (r: Vec<UserEntry>)
    ensures
        r@.len() == rows@.len(),
        forall|i: int| 0 <= i < r@.len() ==> account_read(rows@[i], #[trigger] r@[i]),
{
    let mut out: Vec<UserEntry> = Vec::new();
    for raw in it: rows
        invariant
            it.seq() == rows@,
            out@.len() == it.index(),
            forall|i: int| 0 <= i < out@.len() ==> account_read(rows@[i], #[trigger] out@[i]),
    {
        out.push(read_account(raw));
    }
    out
}

/// The state once the accounts are listed: the same one selected, or the last
/// one if there are fewer.
pub open spec fn accounts_listed(s: Console, entries: Seq<UserEntry>) -> Console {
    let at: int = match s.user_selected {
        Some(i) => i as int,
        None => 0,
    };
    Console {
        users: entries,
        user_selected: if entries.len() == 0 {
            None
        } else if at < entries.len() {
            Some(at as usize)
        } else {
            Some((entries.len() - 1) as usize)
        },
        ..s
    }
}

/// The state once the accounts could not be listed.
pub open spec fn accounts_not_listed(s: Console, reachable: bool) -> Console {
    Console {
        message: "Failed to fetch users"@,
        backend_down: if reachable {
            s.backend_down
        } else {
            true
        },
        ..s
    }
}

impl App {
    /// Asks for the accounts.
    pub fn fetch_users(&mut self) -> (r: Call)
        ensures
            final(self)@ == (Console { backend_down: false, ..old(self)@ }),
            calls(r, Method::Get, old(self)@, "/admin/users"@),
            old(self)@.wf() ==> final(self)@.wf(),
    {
        self.backend_down = false;
        self.call(Method::Get, "/admin/users")
    }

    /// Takes the accounts.
    pub fn fetched_users(&mut self, reply: Listing<RawUser>)
        requires
            old(self)@.wf(),
        ensures
            final(self)@.wf(),
            match reply {
                Listing::Rows(rows) => {
                    &&& final(self)@ == accounts_listed(old(self)@, final(self)@.users)
                    &&& final(self)@.users.len() == rows@.len()
                    &&& forall|i: int|
                        0 <= i < rows@.len() ==> account_read(
                            rows@[i],
                            #[trigger] final(self)@.users[i],
                        )
                },
                Listing::Refused => final(self)@ == accounts_not_listed(old(self)@, true),
                Listing::Unreachable => final(self)@ == accounts_not_listed(old(self)@, false),
            },
    {
        match reply {
            Listing::Rows(rows) => {
                let entries = read_accounts(rows);
                let len: usize = entries.len();
                let at: usize = match self.user_selected {
                    Some(i) => i,
                    None => 0,
                };
                self.users = entries;
                self.user_selected = if len == 0 {
                    None
                } else if at < len {
                    Some(at)
                } else {
                    Some(len - 1)
                };
            },
            Listing::Refused => {
                self.message = "Failed to fetch users".to_string();
            },
            Listing::Unreachable => {
                self.backend_down = true;
                self.message = "Failed to fetch users".to_string();
            },
        }
    }
}

// ---------------------------------------------------------------------------
// One device
// ---------------------------------------------------------------------------

/// A device whose approval is about to be set.
#[derive(Debug)]
pub struct ToggleDevice {
    pub call: Call,
    pub index: usize,
    pub uuid: String,
    pub confirm: bool,
}

/// The devices with the approval of one of them set.
pub open spec fn with_approval(entries: Seq<IdentityEntry>, i: int, confirm: bool) -> Seq<
    IdentityEntry,
> {
    entries.update(i, IdentityEntry { confirmed: confirm, ..entries[i] })
}

/// The state once the server has answered the request to set an approval.
pub open spec fn device_toggled(
    s: Console,
    i: int,
    uuid: Seq<char>,
    confirm: bool,
    outcome: Outcome,
) -> Console {
    match outcome {
        Outcome::Success => Console {
            identities: with_approval(s.identities, i, confirm),
            message: approval_action(confirm) + "ed "@ + uuid,
            ..s
        },
        _ => Console {
            message: "Failed to "@ + approval_action(confirm) + " "@ + uuid,
            ..s
        },
    }
}

/// A device that is about to be removed.
#[derive(Debug)]
pub struct DeleteDevice {
    pub call: Call,
    pub uuid: String,
}

/// The state once the server has answered the request to remove a device.
pub open spec fn device_deleted(s: Console, uuid: Seq<char>, outcome: Outcome) -> Console {
    Console {
        message: match outcome {
            Outcome::Success => "Deleted "@ + uuid,
            Outcome::Status(status) => "Failed to delete "@ + uuid + " ("@ + status@ + ")"@,
            Outcome::Unreachable => "Failed to delete "@ + uuid,
        },
        ..s
    }
}

impl App {
    /// Asks to turn the approval of the selected device round.
    pub fn toggle_selected(&self) -> (r: Option<ToggleDevice>)
        requires
            self@.wf(),
        ensures
            match r {
                Some(step) => {
                    &&& self@.selected_index() == Some(step.index as int)
                    &&& step.index < self@.identities.len()
                    &&& step.uuid@ == self@.identities[step.index as int].uuid@
                    &&& step.confirm == !self@.identities[step.index as int].confirmed
                    &&& calls(
                        step.call,
                        Method::Post,
                        self@,
                        device_path(step.uuid@, approval_action(step.confirm)),
                    )
                },
                None => self@.selected is None,
            },
    {
        let index: usize = match self.selected_global_index() {
            Some(i) => i,
            None => return None,
        };
        let uuid = self.identities[index].uuid.clone();
        let confirm: bool = !self.identities[index].confirmed;
        let call = self.device_call(uuid.as_str(), confirm);
        Some(ToggleDevice { call, index, uuid, confirm })
    }

    /// The request that sets the approval of a device.
    pub fn device_call(&self, uuid: &str, confirm: bool) -> (r: Call)
        ensures
            calls(r, Method::Post, self@, device_path(uuid@, approval_action(confirm))),
    {
        let action = approval_word(confirm);
        let path = joined("/admin/identities/", uuid, "/", action.as_str());
        self.call(Method::Post, path.as_str())
    }

    /// Takes the answer to the request to set an approval.
    pub fn toggled(&mut self, step: ToggleDevice, outcome: Outcome)
        requires
            old(self)@.wf(),
            step.index < old(self)@.identities.len(),
        ensures
            final(self)@.wf(),
            final(self)@ == device_toggled(
                old(self)@,
                step.index as int,
                step.uuid@,
                step.confirm,
                outcome,
            ),
    {
        let action = approval_word(step.confirm);
        match outcome {
            Outcome::Success => {
                self.set_approval(step.index, step.confirm);
                let mut message = action;
                message.push_str("ed ");
                message.push_str(step.uuid.as_str());
                self.message = message;
            },
            _ => {
                self.message = joined("Failed to ", action.as_str(), " ", step.uuid.as_str());
            },
        }
    }

    fn set_approval(&mut self, index: usize, confirm: bool)
        requires
            index < old(self)@.identities.len(),
        ensures
            final(self)@ == (Console {
                identities: with_approval(old(self)@.identities, index as int, confirm),
                ..old(self)@
            }),
    {
        self.identities[index].confirmed = confirm;
        assert(self.identities@ =~= with_approval(
            old(self)@.identities,
            index as int,
            confirm,
        ));
    }

    /// Asks to remove the device that was asked about.
    pub fn delete_pending(&mut self) -> (r: Option<DeleteDevice>)
        ensures
            final(self)@ == (Console { pending_delete: None, ..old(self)@ }),
            old(self)@.wf() ==> final(self)@.wf(),
            match r {
                Some(step) => {
                    &&& old(self)@.pending_delete == Some(step.uuid@)
                    &&& calls(
                        step.call,
                        Method::Delete,
                        old(self)@,
                        "/admin/identities/"@ + step.uuid@,
                    )
                },
                None => old(self)@.pending_delete is None,
            },
    {
        let uuid = match &self.pending_delete {
            Some(uuid) => uuid.clone(),
            None => return None,
        };
        self.pending_delete = None;
        let mut path = "/admin/identities/".to_string();
        path.push_str(uuid.as_str());
        let call = self.call(Method::Delete, path.as_str());
        Some(DeleteDevice { call, uuid })
    }

    /// Takes the answer to the request to remove a device. Tells whether to
    /// fetch the devices anew.
    pub fn deleted(&mut self, step: DeleteDevice, outcome: Outcome) -> (again: bool)
        ensures
            final(self)@ == device_deleted(old(self)@, step.uuid@, outcome),
            again == (outcome is Success),
            old(self)@.wf() ==> final(self)@.wf(),
    {
        match outcome {
            Outcome::Success => {
                let mut message = "Deleted ".to_string();
                message.push_str(step.uuid.as_str());
                self.message = message;
                true
            },
            Outcome::Status(status) => {
                let mut message = joined(
                    "Failed to delete ",
                    step.uuid.as_str(),
                    " (",
                    status.as_str(),
                );
                message.push_str(")");
                self.message = message;
                false
            },
            Outcome::Unreachable => {
                let mut message = "Failed to delete ".to_string();
                message.push_str(step.uuid.as_str());
                self.message = message;
                false
            },
        }
    }
}

// ---------------------------------------------------------------------------
// One account
// ---------------------------------------------------------------------------

/// An account that is about to be marked or restored.
#[derive(Debug)]
pub struct ToggleAccount {
    pub call: Call,
    pub uuid: String,
    pub delete: bool,
}

/// The state once the server has answered the request to mark or restore an
/// account.
pub open spec fn account_toggled(s: Console, uuid: Seq<char>, delete: bool, outcome: Outcome) -> Console {
    let action = deletion_action(delete);
    Console {
        message: match outcome {
            Outcome::Success => action + "d user "@ + uuid,
            Outcome::Status(status) => "Failed to "@ + action + " user "@ + uuid + " ("@ + status@
                + ")"@,
            Outcome::Unreachable => "Failed to "@ + action + " user "@ + uuid,
        },
        ..s
    }
}

/// Whether a device belongs to an account.
pub open spec fn belongs(entry: IdentityEntry, account: Seq<char>) -> bool {
    opt_text(entry.user_id) == Some(account)
}

/// How many devices of an account are confirmed, and how many it has.
pub open spec fn confirmed_of(entries: Seq<IdentityEntry>, account: Seq<char>) -> (nat, nat) {
    (
        entries.filter(|e: IdentityEntry| belongs(e, account) && e.confirmed).len(),
        entries.filter(|e: IdentityEntry| belongs(e, account)).len(),
    )
}

fn belongs_to(entry: &IdentityEntry, account: &str) -> (r: bool)
    ensures
        r == belongs(*entry, account@),
{
    match &entry.user_id {
        Some(user_id) => same_text(user_id.as_str(), account),
        None => false,
    }
}

impl App {
    /// Asks to mark or restore the selected account.
    pub fn toggle_user_deleted(&self, delete: bool) -> (r: Option<ToggleAccount>)
        requires
            self@.wf(),
        ensures
            match r {
                Some(step) => {
                    &&& self@.user_selected is Some
                    &&& step.uuid@ == self@.users[self@.user_selected->0 as int].uuid@
                    &&& step.delete == delete
                    &&& calls(
                        step.call,
                        Method::Post,
                        self@,
                        account_path(step.uuid@, deletion_action(delete)),
                    )
                },
                None => self@.user_selected is None,
            },
    {
        let index: usize = match self.user_selected {
            Some(i) => i,
            None => return None,
        };
        let uuid = self.users[index].uuid.clone();
        let action = deletion_word(delete);
        let path = joined("/admin/users/", uuid.as_str(), "/", action.as_str());
        let call = self.call(Method::Post, path.as_str());
        Some(ToggleAccount { call, uuid, delete })
    }

    /// Takes the answer to the request to mark or restore an account. Tells
    /// whether to fetch the accounts anew.
    pub fn user_toggled(&mut self, step: ToggleAccount, outcome: Outcome) -> (again: bool)
        ensures
            final(self)@ == account_toggled(old(self)@, step.uuid@, step.delete, outcome),
            again == (outcome is Success),
            old(self)@.wf() ==> final(self)@.wf(),
    {
        let action = deletion_word(step.delete);
        match outcome {
            Outcome::Success => {
                let mut message = action;
                message.push_str("d user ");
                message.push_str(step.uuid.as_str());
                self.message = message;
                true
            },
            Outcome::Status(status) => {
                let mut message = joined(
                    "Failed to ",
                    action.as_str(),
                    " user ",
                    step.uuid.as_str(),
                );
                message.push_str(" (");
                message.push_str(status.as_str());
                message.push_str(")");
                self.message = message;
                false
            },
            Outcome::Unreachable => {
                self.message = joined(
                    "Failed to ",
                    action.as_str(),
                    " user ",
                    step.uuid.as_str(),
                );
                false
            },
        }
    }

    /// Counts the confirmed devices of an account, and all of them.
    pub fn user_conf(&self, user_uuid: &str) -> (r: (usize, usize))
        ensures
            (r.0 as nat, r.1 as nat) == confirmed_of(self@.identities, user_uuid@),
            r.0 <= r.1,
    {
        let ghost entries = self@.identities;
        let ghost sure = |e: IdentityEntry| belongs(e, user_uuid@) && e.confirmed;
        let ghost theirs = |e: IdentityEntry| belongs(e, user_uuid@);
        let mut confirmed: usize = 0;
        let mut total: usize = 0;
        let mut i: usize = 0;
        proof {
            reveal(Seq::filter);
            assert(entries.take(0) =~= Seq::<IdentityEntry>::empty());
        }
        while i < self.identities.len()
            invariant
                i <= self.identities@.len(),
                entries == self@.identities,
                sure == (|e: IdentityEntry| belongs(e, user_uuid@) && e.confirmed),
                theirs == (|e: IdentityEntry| belongs(e, user_uuid@)),
                confirmed == entries.take(i as int).filter(sure).len(),
                total == entries.take(i as int).filter(theirs).len(),
                confirmed <= total <= i,
            decreases self.identities@.len() - i,
        {
            proof {
                reveal(Seq::filter);
                assert(entries.take(i + 1).drop_last() =~= entries.take(i as int));
            }
            let entry = &self.identities[i];
            if belongs_to(entry, user_uuid) {
                total += 1;
                if entry.confirmed {
                    confirmed += 1;
                }
            }
            i += 1;
        }
        assert(entries.take(i as int) =~= entries);
        (confirmed, total)
    }
}

// ---------------------------------------------------------------------------
// All devices of an account
// ---------------------------------------------------------------------------

/// The devices of an account whose approval is about to be set, one after the
/// other: how many were asked for, and for how many of those that succeeded.
#[derive(Debug)]
pub struct Approval {
    pub user: String,
    pub devices: Vec<String>,
    pub confirm: bool,
    pub asked: usize,
    pub ok: usize,
}

/// The identifiers of the devices of an account, in order.
pub open spec fn devices_of(entries: Seq<IdentityEntry>, account: Seq<char>) -> Seq<Seq<char>> {
    entries.filter(|e: IdentityEntry| belongs(e, account)).map_values(|e: IdentityEntry| e.uuid@)
}

/// Whether every device of an account is confirmed.
pub open spec fn all_confirmed(entries: Seq<IdentityEntry>, account: Seq<char>) -> bool {
    forall|i: int|
        0 <= i < entries.len() && belongs(#[trigger] entries[i], account) ==> entries[i].confirmed
}

/// The devices with the approval set of the first one that has an identifier.
pub open spec fn first_set(entries: Seq<IdentityEntry>, uuid: Seq<char>, confirm: bool, after: Seq<
    IdentityEntry,
>) -> bool {
    if exists|i: int| 0 <= i < entries.len() && (#[trigger] entries[i]).uuid@ == uuid {
        exists|i: int|
            {
                &&& 0 <= i < entries.len()
                &&& (#[trigger] entries[i]).uuid@ == uuid
                &&& forall|j: int| 0 <= j < i ==> (#[trigger] entries[j]).uuid@ != uuid
                &&& after == with_approval(entries, i, confirm)
            }
    } else {
        after == entries
    }
}

impl App {
    /// Asks to confirm all devices of the selected account, or, where all of
    /// them are confirmed, to withdraw that.
    pub fn toggle_user_approval(&mut self) -> (r: Option<Approval>)
        requires
            old(self)@.wf(),
        ensures
            final(self)@.wf(),
            match old(self)@.user_selected {
                None => r is None && final(self)@ == old(self)@,
                Some(at) => {
                    let account = old(self)@.users[at as int].uuid@;
                    let devices = devices_of(old(self)@.identities, account);
                    match r {
                        None => devices.len() == 0 && final(self)@ == (Console {
                            message: "User "@ + account + " has no devices to approve"@,
                            ..old(self)@
                        }),
                        Some(step) => {
                            &&& devices.len() > 0
                            &&& final(self)@ == old(self)@
                            &&& step.user@ == account
                            &&& step.devices@.map_values(|d: String| d@) == devices
                            &&& step.confirm == !all_confirmed(old(self)@.identities, account)
                            &&& step.asked == 0
                            &&& step.ok == 0
                        },
                    }
                },
            },
    {
        let index: usize = match self.user_selected {
            Some(i) => i,
            None => return None,
        };
        let user = self.users[index].uuid.clone();
        let ghost entries = self@.identities;
        let ghost theirs = |e: IdentityEntry| belongs(e, user@);
        let ghost named = |e: IdentityEntry| e.uuid@;
        let ghost text = |d: String| d@;
        let mut devices: Vec<String> = Vec::new();
        let mut all: bool = true;
        let mut i: usize = 0;
        proof {
            reveal(Seq::filter);
            assert(entries.take(0) =~= Seq::<IdentityEntry>::empty());
            assert(devices@.map_values(text) =~= entries.take(0).filter(theirs).map_values(named));
        }
        while i < self.identities.len()
            invariant
                i <= self.identities@.len(),
                self@ == old(self)@,
                entries == self@.identities,
                theirs == (|e: IdentityEntry| belongs(e, user@)),
                named == (|e: IdentityEntry| e.uuid@),
                text == (|d: String| d@),
                devices@.map_values(text) == entries.take(i as int).filter(theirs).map_values(
                    named,
                ),
                all == (forall|k: int|
                    0 <= k < i && belongs(#[trigger] entries[k], user@) ==> entries[k].confirmed),
            decreases self.identities@.len() - i,
        {
            let ghost before = entries.take(i as int).filter(theirs);
            proof {
                reveal(Seq::filter);
                assert(entries.take(i + 1).drop_last() =~= entries.take(i as int));
            }
            let entry = &self.identities[i];
            if belongs_to(entry, user.as_str()) {
                let ghost had = devices@;
                devices.push(entry.uuid.clone());
                if !entry.confirmed {
                    all = false;
                }
                assert(devices@.map_values(text) =~= had.map_values(text).push(entry.uuid@));
                assert(before.push(*entry).map_values(named) =~= before.map_values(named).push(
                    entry.uuid@,
                ));
            }
            i += 1;
        }
        assert(entries.take(i as int) =~= entries);
        assert(devices@.map_values(text).len() == devices@.len());
        if devices.len() == 0 {
            let mut message = "User ".to_string();
            message.push_str(user.as_str());
            message.push_str(" has no devices to approve");
            self.message = message;
            return None;
        }
        Some(Approval { user, devices, confirm: !all, asked: 0, ok: 0 })
    }

    /// The request that sets the approval of the first device that was not
    /// asked for yet, until all of them were.
    pub fn approval_call(&self, step: &Approval) -> (r: Option<Call>)
        ensures
            match r {
                Some(call) => step.asked < step.devices@.len() && calls(
                    call,
                    Method::Post,
                    self@,
                    device_path(
                        step.devices@[step.asked as int]@,
                        approval_action(step.confirm),
                    ),
                ),
                None => step.asked >= step.devices@.len(),
            },
    {
        if step.asked >= step.devices.len() {
            return None;
        }
        Some(self.device_call(step.devices[step.asked].as_str(), step.confirm))
    }

    /// Takes the answer for the device that was asked for, and goes on to the
    /// next one. Where it succeeded, the console shows the new state at once.
    pub fn approved(&mut self, step: &mut Approval, outcome: &Outcome)
        requires
            old(self)@.wf(),
            old(step).asked < old(step).devices@.len(),
            old(step).ok <= old(step).asked,
        ensures
            final(self)@.wf(),
            final(step).asked == old(step).asked + 1,
            final(step).ok <= final(step).asked,
            final(step).user == old(step).user,
            final(step).devices == old(step).devices,
            final(step).confirm == old(step).confirm,
            if *outcome is Success {
                &&& final(step).ok == old(step).ok + 1
                &&& first_set(
                    old(self)@.identities,
                    old(step).devices@[old(step).asked as int]@,
                    old(step).confirm,
                    final(self)@.identities,
                )
                &&& final(self)@ == (Console {
                    identities: final(self)@.identities,
                    ..old(self)@
                })
            } else {
                final(step).ok == old(step).ok && final(self)@ == old(self)@
            },
    {
        let i: usize = step.asked;
        assert(i < step.devices.len());
        step.asked = i + 1;
        match outcome {
            Outcome::Success => {},
            _ => return,
        }
        step.ok = step.ok + 1;
        let confirm: bool = step.confirm;
        if let Some(k) = self.position_of(&step.devices[i]) {
            assert(old(self)@.identities[k as int].uuid@ == old(step).devices@[i as int]@);
            self.set_approval(k, confirm);
        }
    }

    /// Where the first device with an identifier stands.
    fn position_of(&self, uuid: &String) -> (r: Option<usize>)
        ensures
            match r {
                Some(k) => {
                    &&& k < self@.identities.len()
                    &&& self@.identities[k as int].uuid@ == uuid@
                    &&& forall|j: int|
                        0 <= j < k ==> (#[trigger] self@.identities[j]).uuid@ != uuid@
                },
                None => forall|j: int|
                    0 <= j < self@.identities.len() ==> (#[trigger] self@.identities[j]).uuid@
                        != uuid@,
            },
    {
        let mut k: usize = 0;
        while k < self.identities.len()
            invariant
                k <= self.identities@.len(),
                forall|j: int| 0 <= j < k ==> (#[trigger] self@.identities[j]).uuid@ != uuid@,
            decreases self.identities@.len() - k,
        {
            if self.identities[k].uuid == *uuid {
                return Some(k);
            }
            k += 1;
        }
        None
    }

    /// Reports how many of the devices were set.
    pub fn approval_done(&mut self, step: &Approval)
        ensures
            final(self)@ == (Console {
                message: (if step.confirm {
                    "approved"@
                } else {
                    "revoked"@
                }) + " "@ + decimal_text(step.ok as nat) + "/"@ + decimal_text(
                    step.devices@.len(),
                ) + " device(s) for "@ + step.user@,
                ..old(self)@
            }),
            old(self)@.wf() ==> final(self)@.wf(),
    {
        let verb = if step.confirm {
            "approved".to_string()
        } else {
            "revoked".to_string()
        };
        let ok = decimal(step.ok as u64);
        let all = decimal(step.devices.len() as u64);
        let mut message = joined(verb.as_str(), " ", ok.as_str(), "/");
        message.push_str(all.as_str());
        message.push_str(" device(s) for ");
        message.push_str(step.user.as_str());
        self.message = message;
    }
}

/// Confirming what is not all confirmed and withdrawing it: the next request
/// for the same account asks for the opposite.
pub proof fn law_approval_alternates(
    entries: Seq<IdentityEntry>,
    after: Seq<IdentityEntry>,
    account: Seq<char>,
    confirm: bool,
)
    requires
        confirm == !all_confirmed(entries, account),
        after.len() == entries.len(),
        forall|i: int|
            0 <= i < entries.len() ==> #[trigger] after[i] == if belongs(entries[i], account) {
                IdentityEntry { confirmed: confirm, ..entries[i] }
            } else {
                entries[i]
            },
        exists|i: int| 0 <= i < entries.len() && belongs(#[trigger] entries[i], account),
    ensures
        all_confirmed(after, account) == confirm,
{
    let i = choose|i: int| 0 <= i < entries.len() && belongs(#[trigger] entries[i], account);
    assert(belongs(after[i], account));
    if confirm {
        assert forall|k: int|
            0 <= k < after.len() && belongs(#[trigger] after[k], account) implies after[k].confirmed by {
            assert(belongs(entries[k], account));
        }
    }
}

// ---------------------------------------------------------------------------
// Archives
// ---------------------------------------------------------------------------

/// What became of an archive that was asked for.
#[derive(Debug)]
pub enum ExportOutcome {
    /// It was written, with so many bytes.
    Written(u64),
    /// It came, but could not be written, for a reason.
    WriteFailed(String),
    Failed,
}

/// The state once it is known what became of the archive.
pub open spec fn export_reported(s: Console, outcome: ExportOutcome) -> Console {
    let path = s.export_dir + "/pwd-export.tar.gz"@;
    Console {
        busy: false,
        message: match outcome {
            ExportOutcome::Written(n) => "Exported "@ + decimal_text(n as nat) + " bytes to "@
                + path,
            ExportOutcome::WriteFailed(reason) => "Export: write to "@ + path + " failed: "@
                + reason@,
            ExportOutcome::Failed => "Export failed"@,
        },
        ..s
    }
}

/// The state once the server has answered an import.
pub open spec fn import_reported(s: Console, outcome: Outcome) -> Console {
    match outcome {
        Outcome::Success => Console { busy: false, ..s },
        Outcome::Status(status) => Console {
            busy: false,
            message: "Import failed ("@ + status@ + ")"@,
            ..s
        },
        Outcome::Unreachable => Console { busy: false, message: "Import failed"@, ..s },
    }
}

impl App {
    /// Asks for an archive.
    pub fn do_export(&mut self) -> (r: Call)
        ensures
            final(self)@ == (Console { busy: true, message: Seq::empty(), ..old(self)@ }),
            calls(r, Method::Get, old(self)@, "/admin/export"@),
            old(self)@.wf() ==> final(self)@.wf(),
    {
        self.busy = true;
        self.message = String::new();
        assert(self.message@ =~= Seq::<char>::empty());
        self.call(Method::Get, "/admin/export")
    }

    /// Reports what became of the archive.
    pub fn exported(&mut self, outcome: ExportOutcome)
        ensures
            final(self)@ == export_reported(old(self)@, outcome),
            old(self)@.wf() ==> final(self)@.wf(),
    {
        let path = self.export_path();
        self.message = match outcome {
            ExportOutcome::Written(n) => {
                let bytes = decimal(n);
                joined("Exported ", bytes.as_str(), " bytes to ", path.as_str())
            },
            ExportOutcome::WriteFailed(reason) => joined(
                "Export: write to ",
                path.as_str(),
                " failed: ",
                reason.as_str(),
            ),
            ExportOutcome::Failed => "Export failed".to_string(),
        };
        self.busy = false;
    }

    /// Starts an import: gives the path of the archive to read.
    pub fn begin_import(&mut self) -> (path: String)
        ensures
            final(self)@ == (Console { busy: true, message: Seq::empty(), ..old(self)@ }),
            path@ == old(self)@.import_path,
            old(self)@.wf() ==> final(self)@.wf(),
    {
        self.busy = true;
        self.message = String::new();
        assert(self.message@ =~= Seq::<char>::empty());
        self.import_path.clone()
    }

    /// Reports that the archive could not be read.
    pub fn import_unreadable(&mut self, reason: &str)
        ensures
            final(self)@ == (Console {
                busy: false,
                message: "Cannot read "@ + old(self)@.import_path + ": "@ + reason@,
                ..old(self)@
            }),
            old(self)@.wf() ==> final(self)@.wf(),
    {
        self.message = joined("Cannot read ", self.import_path.as_str(), ": ", reason);
        self.busy = false;
    }

    /// The request that hands the archive over.
    pub fn import_call(&self) -> (r: Call)
        ensures
            calls(r, Method::Post, self@, "/admin/import"@),
    {
        self.call(Method::Post, "/admin/import")
    }

    /// Takes the answer to an import. Tells whether to fetch everything anew.
    pub fn imported(&mut self, outcome: Outcome) -> (again: bool)
        ensures
            final(self)@ == import_reported(old(self)@, outcome),
            again == (outcome is Success),
            old(self)@.wf() ==> final(self)@.wf(),
    {
        self.busy = false;
        match outcome {
            Outcome::Success => true,
            Outcome::Status(status) => {
                let mut message = "Import failed (".to_string();
                message.push_str(status.as_str());
                message.push_str(")");
                self.message = message;
                false
            },
            Outcome::Unreachable => {
                self.message = "Import failed".to_string();
                false
            },
        }
    }

    /// Reports an import once everything was fetched anew, and shows the first
    /// page.
    pub fn import_done(&mut self)
        requires
            old(self)@.wf(),
        ensures
            final(self)@ == (Console {
                page: 0,
                message: "Import successful — data reloaded"@,
                ..old(self)@
            }),
            final(self)@.wf(),
    {
        self.page = 0;
        self.message = "Import successful — data reloaded".to_string();
    }
}

} // verus!
