//! The console without its screen: one command, one report.

use vstd::prelude::*;

use crate::console::flows::{
    account_path, approval_action, deletion_action, device_path, read_account, read_device,
    text_or, RawIdentity, RawUser,
};
use crate::console::view::{truncate, truncated};
use crate::outside::opt_text;
use crate::routes::router::Method;
use crate::text::{decimal, decimal_text, same_text, signed_decimal, signed_text, texts};

verus! {

/// What the console was started for.
#[derive(Debug)]
pub enum OneShot {
    /// To show its screen.
    Interactive,
    List,
    Confirm { uuid: String, confirm: bool },
    Delete { uuid: String },
    Users,
    UserDelete { uuid: String, delete: bool },
    Export,
    /// From a path, or from where the archive is exported to.
    Import { path: Option<String> },
    /// A command that lacks its argument: how to write it.
    Incomplete(String),
    /// Not a command: which ones there are.
    Unknown(String),
}

/// The value of a [`OneShot`].
pub enum Task {
    Interactive,
    List,
    Confirm { uuid: Seq<char>, confirm: bool },
    Delete { uuid: Seq<char> },
    Users,
    UserDelete { uuid: Seq<char>, delete: bool },
    Export,
    Import { path: Option<Seq<char>> },
    Incomplete(Seq<char>),
    Unknown(Seq<char>),
}

impl View for OneShot {
    type V = Task;

    open spec fn view(&self) -> Task {
        match self {
            OneShot::Interactive => Task::Interactive,
            OneShot::List => Task::List,
            OneShot::Confirm { uuid, confirm } => Task::Confirm { uuid: uuid@, confirm: *confirm },
            OneShot::Delete { uuid } => Task::Delete { uuid: uuid@ },
            OneShot::Users => Task::Users,
            OneShot::UserDelete { uuid, delete } => Task::UserDelete {
                uuid: uuid@,
                delete: *delete,
            },
            OneShot::Export => Task::Export,
            OneShot::Import { path } => Task::Import { path: opt_text(*path) },
            OneShot::Incomplete(usage) => Task::Incomplete(usage@),
            OneShot::Unknown(usage) => Task::Unknown(usage@),
        }
    }
}

/// What the arguments behind the name of the program ask for.
pub open spec fn task_of(args: Seq<Seq<char>>) -> Task {
    if args.len() == 0 {
        Task::Interactive
    } else {
        let cmd = args[0];
        let rest = args.len() > 1;
        if cmd == "list"@ {
            Task::List
        } else if cmd == "confirm"@ || cmd == "unconfirm"@ {
            if rest {
                Task::Confirm { uuid: args[1], confirm: cmd == "confirm"@ }
            } else {
                Task::Incomplete("Usage: admin_cli confirm|unconfirm <uuid>"@)
            }
        } else if cmd == "delete"@ {
            if rest {
                Task::Delete { uuid: args[1] }
            } else {
                Task::Incomplete("Usage: admin_cli delete <uuid>"@)
            }
        } else if cmd == "users"@ {
            Task::Users
        } else if cmd == "user-delete"@ || cmd == "user-restore"@ {
            if rest {
                Task::UserDelete { uuid: args[1], delete: cmd == "user-delete"@ }
            } else {
                Task::Incomplete("Usage: admin_cli user-delete|user-restore <uuid>"@)
            }
        } else if cmd == "export"@ {
            Task::Export
        } else if cmd == "import"@ {
            Task::Import {
                path: if rest {
                    Some(args[1])
                } else {
                    None
                },
            }
        } else {
            Task::Unknown(
                "Usage: admin_cli [list|confirm|unconfirm|delete|users|user-delete|user-restore|export|import [path]]"@,
            )
        }
    }
}

/// Reads the arguments behind the name of the program.
pub fn parse_args(args: &Vec<String>) -> (r: OneShot)
    ensures
        r@ == task_of(texts(args@)),
{
    if args.len() == 0 {
        return OneShot::Interactive;
    }
    let cmd = args[0].as_str();
    assert(texts(args@)[0] == cmd@);
    let argument: Option<String> = if args.len() > 1 {
        Some(args[1].clone())
    } else {
        None
    };
    assert(args@.len() > 1 ==> texts(args@)[1] == args@[1]@);
    if same_text(cmd, "list") {
        return OneShot::List;
    }
    let confirm: bool = same_text(cmd, "confirm");
    if confirm || same_text(cmd, "unconfirm") {
        return match argument {
            Some(uuid) => OneShot::Confirm { uuid, confirm },
            None => OneShot::Incomplete("Usage: admin_cli confirm|unconfirm <uuid>".to_string()),
        };
    }
    if same_text(cmd, "delete") {
        return match argument {
            Some(uuid) => OneShot::Delete { uuid },
            None => OneShot::Incomplete("Usage: admin_cli delete <uuid>".to_string()),
        };
    }
    if same_text(cmd, "users") {
        return OneShot::Users;
    }
    let delete: bool = same_text(cmd, "user-delete");
    if delete || same_text(cmd, "user-restore") {
        return match argument {
            Some(uuid) => OneShot::UserDelete { uuid, delete },
            None => OneShot::Incomplete(
                "Usage: admin_cli user-delete|user-restore <uuid>".to_string(),
            ),
        };
    }
    if same_text(cmd, "export") {
        return OneShot::Export;
    }
    if same_text(cmd, "import") {
        return OneShot::Import { path: argument };
    }
    OneShot::Unknown(
        "Usage: admin_cli [list|confirm|unconfirm|delete|users|user-delete|user-restore|export|import [path]]".to_string(),
    )
}

/// The request that a task makes, if it makes one: its method and its path.
pub open spec fn task_request(task: Task) -> Option<(Method, Seq<char>)> {
    match task {
        Task::List => Some((Method::Get, "/admin/identities"@)),
        Task::Confirm { uuid, confirm } => Some(
            (Method::Post, device_path(uuid, approval_action(confirm))),
        ),
        Task::Delete { uuid } => Some((Method::Delete, "/admin/identities/"@ + uuid)),
        Task::Users => Some((Method::Get, "/admin/users"@)),
        Task::UserDelete { uuid, delete } => Some(
            (Method::Post, account_path(uuid, deletion_action(delete))),
        ),
        Task::Export => Some((Method::Get, "/admin/export"@)),
        Task::Import { path: _ } => Some((Method::Post, "/admin/import"@)),
        _ => None,
    }
}

fn three(a: &str, b: &str, c: &str) -> (r: String)
    ensures
        r@ == a@ + b@ + c@,
{
    let mut s = a.to_string();
    s.push_str(b);
    s.push_str(c);
    s
}

/// The request that a task makes.
pub fn request_of(task: &OneShot) -> (r: Option<(Method, String)>)
    ensures
        match r {
            Some(request) => task_request(task@) == Some((request.0, request.1@)),
            None => task_request(task@) is None,
        },
{
    match task {
        OneShot::List => Some((Method::Get, "/admin/identities".to_string())),
        OneShot::Confirm { uuid, confirm } => {
            let mut path = three("/admin/identities/", uuid.as_str(), "/");
            if *confirm {
                path.push_str("confirm");
            } else {
                path.push_str("unconfirm");
            }
            Some((Method::Post, path))
        },
        OneShot::Delete { uuid } => {
            let mut path = "/admin/identities/".to_string();
            path.push_str(uuid.as_str());
            Some((Method::Delete, path))
        },
        OneShot::Users => Some((Method::Get, "/admin/users".to_string())),
        OneShot::UserDelete { uuid, delete } => {
            let mut path = three("/admin/users/", uuid.as_str(), "/");
            if *delete {
                path.push_str("delete");
            } else {
                path.push_str("restore");
            }
            Some((Method::Post, path))
        },
        OneShot::Export => Some((Method::Get, "/admin/export".to_string())),
        OneShot::Import { path: _ } => Some((Method::Post, "/admin/import".to_string())),
        _ => None,
    }
}

/// What a task reports once it has succeeded, besides lists and archives.
pub open spec fn done_text(task: Task) -> Seq<char> {
    match task {
        Task::Confirm { uuid, confirm } => approval_action(confirm) + "ed "@ + uuid,
        Task::Delete { uuid } => "deleted "@ + uuid,
        Task::UserDelete { uuid, delete } => deletion_action(delete) + "d user "@ + uuid,
        Task::Import { path: _ } => "Import successful"@,
        _ => ""@,
    }
}

/// Reports that a task has succeeded.
pub fn done_report(task: &OneShot) -> (r: String)
    ensures
        r@ == done_text(task@),
{
    match task {
        OneShot::Confirm { uuid, confirm } => {
            if *confirm {
                three("confirm", "ed ", uuid.as_str())
            } else {
                three("unconfirm", "ed ", uuid.as_str())
            }
        },
        OneShot::Delete { uuid } => {
            let mut s = "deleted ".to_string();
            s.push_str(uuid.as_str());
            s
        },
        OneShot::UserDelete { uuid, delete } => {
            if *delete {
                three("delete", "d user ", uuid.as_str())
            } else {
                three("restore", "d user ", uuid.as_str())
            }
        },
        OneShot::Import { path: _ } => "Import successful".to_string(),
        _ => "".to_string(),
    }
}

/// The line that reports the status of an answer.
pub fn status_report(status: u16) -> (r: String)
    ensures
        r@ == "Status: "@ + decimal_text(status as nat),
{
    let mut s = "Status: ".to_string();
    s.push_str(decimal(status as u64).as_str());
    s
}

/// The line that reports an archive that was written.
pub fn export_report(bytes: u64, path: &str) -> (r: String)
    ensures
        r@ == "Exported "@ + decimal_text(bytes as nat) + " bytes to "@ + path@,
{
    let mut s = three("Exported ", decimal(bytes).as_str(), " bytes to ");
    s.push_str(path);
    s
}

/// The line that reports an archive that did not come.
pub fn export_failure_report(status: u16) -> (r: String)
    ensures
        r@ == "Export failed: "@ + decimal_text(status as nat),
{
    let mut s = "Export failed: ".to_string();
    s.push_str(decimal(status as u64).as_str());
    s
}

/// The path of the archive that an import reads.
pub fn import_source(path: &Option<String>, export_dir: &str) -> (r: String)
    ensures
        r@ == text_or(*path, export_dir@ + "/pwd-export.tar.gz"@),
{
    match path {
        Some(path) => path.clone(),
        None => {
            let mut s = export_dir.to_string();
            s.push_str("/pwd-export.tar.gz");
            s
        },
    }
}

/// The lines that report a device.
pub open spec fn device_lines(raw: RawIdentity) -> Seq<Seq<char>> {
    seq![
        "  ["@ + (if raw.is_confirmed == Some(true) {
            "✓"@
        } else {
            "✗"@
        }) + "] "@ + text_or(raw.uuid, "?"@),
        "         user:    "@ + text_or(raw.user_id, "-"@),
        "         ip:      "@ + text_or(raw.ip_address, "?"@),
        "         device:  "@ + truncated(text_or(raw.device_token, "-"@), 45),
        "         created: "@ + text_or(raw.created_at, "?"@),
        "         updated: "@ + text_or(raw.updated_at, "?"@),
    ]
}

fn labelled(label: &str, text: &str) -> (r: String)
    ensures
        r@ == label@ + text@,
{
    let mut s = label.to_string();
    s.push_str(text);
    s
}

/// Reports a device.
pub fn device_report(raw: RawIdentity) -> (r: Vec<String>)
    ensures
        texts(r@) == device_lines(raw),
{
    let e = read_device(raw);
    let mark = if e.confirmed {
        "✓"
    } else {
        "✗"
    };
    let mut first = three("  [", mark, "] ");
    first.push_str(e.uuid.as_str());
    let user = match &e.user_id {
        Some(user) => user.clone(),
        None => "-".to_string(),
    };
    let device = truncate(e.device_token.as_str(), 45);
    let mut v: Vec<String> = Vec::new();
    v.push(first);
    v.push(labelled("         user:    ", user.as_str()));
    v.push(labelled("         ip:      ", e.ip_address.as_str()));
    v.push(labelled("         device:  ", device.as_str()));
    v.push(labelled("         created: ", e.created_at.as_str()));
    v.push(labelled("         updated: ", e.updated_at.as_str()));
    assert(texts(v@) =~= device_lines(raw));
    v
}

/// The line that reports an account.
pub open spec fn account_line(raw: RawUser) -> Seq<char> {
    "  ["@ + (if raw.is_deleted == Some(true) {
        "deleted"@
    } else {
        "active "@
    }) + "] "@ + text_or(raw.name, "?"@) + "  "@ + text_or(raw.uuid, "?"@) + "  devices:"@
        + signed_text(
        match raw.identity_count {
            Some(n) => n as int,
            None => 0,
        },
    ) + "  created:"@ + text_or(raw.created_at, "?"@)
}

/// Reports an account.
pub fn account_report(raw: RawUser) -> (r: String)
    ensures
        r@ == account_line(raw),
{
    let e = read_account(raw);
    let mark = if e.is_deleted {
        "deleted"
    } else {
        "active "
    };
    let mut s = three("  [", mark, "] ");
    s.push_str(e.name.as_str());
    s.push_str("  ");
    s.push_str(e.uuid.as_str());
    s.push_str("  devices:");
    s.push_str(signed_decimal(e.identity_count).as_str());
    s.push_str("  created:");
    s.push_str(e.created_at.as_str());
    s
}

} // verus!
