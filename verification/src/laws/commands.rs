//! What the console does with one command, without its screen.

use vstd::prelude::*;

use crate::console::flows::{RawIdentity, RawUser};
use crate::console::report::{
    account_report, device_report, done_report, export_failure_report, export_report,
    import_source, parse_args, request_of, status_report, OneShot,
};
use crate::console::view::truncate;
use crate::routes::router::Method;
use crate::text::{decimal_text, signed_text, texts};

verus! {

/// Whether a word is one of the commands that act on something that is named
/// behind them.
pub open spec fn needs_a_name(word: Seq<char>) -> bool {
    ||| word == "confirm"@
    ||| word == "unconfirm"@
    ||| word == "delete"@
    ||| word == "user-delete"@
    ||| word == "user-restore"@
}

/// Whether a word is one of the commands that stand alone.
pub open spec fn stands_alone(word: Seq<char>) -> bool {
    word == "list"@ || word == "users"@ || word == "export"@ || word == "import"@
}

proof fn lemma_words_differ()
    ensures
        "confirm"@ != "unconfirm"@,
        "confirm"@ != "delete"@,
        "confirm"@ != "user-delete"@,
        "confirm"@ != "user-restore"@,
        "confirm"@ != "list"@,
        "confirm"@ != "users"@,
        "confirm"@ != "export"@,
        "confirm"@ != "import"@,
        "unconfirm"@ != "delete"@,
        "unconfirm"@ != "user-delete"@,
        "unconfirm"@ != "user-restore"@,
        "unconfirm"@ != "list"@,
        "unconfirm"@ != "users"@,
        "unconfirm"@ != "export"@,
        "unconfirm"@ != "import"@,
        "delete"@ != "user-delete"@,
        "delete"@ != "user-restore"@,
        "delete"@ != "list"@,
        "delete"@ != "users"@,
        "delete"@ != "export"@,
        "delete"@ != "import"@,
        "user-delete"@ != "user-restore"@,
        "user-delete"@ != "list"@,
        "user-delete"@ != "users"@,
        "user-delete"@ != "export"@,
        "user-delete"@ != "import"@,
        "user-restore"@ != "list"@,
        "user-restore"@ != "users"@,
        "user-restore"@ != "export"@,
        "user-restore"@ != "import"@,
        "list"@ != "users"@,
        "list"@ != "export"@,
        "list"@ != "import"@,
        "users"@ != "export"@,
        "users"@ != "import"@,
        "export"@ != "import"@,
{
    reveal_strlit("confirm");
    reveal_strlit("unconfirm");
    reveal_strlit("delete");
    reveal_strlit("user-delete");
    reveal_strlit("user-restore");
    reveal_strlit("list");
    reveal_strlit("users");
    reveal_strlit("export");
    reveal_strlit("import");
    assert("confirm"@.len() == 7 && "unconfirm"@.len() == 9 && "delete"@.len() == 6);
    assert("user-delete"@.len() == 11 && "user-restore"@.len() == 12);
    assert("list"@.len() == 4 && "users"@.len() == 5);
    assert("export"@.len() == 6 && "import"@.len() == 6);
    assert("delete"@[0] == 'd');
    assert("export"@[0] == 'e');
    assert("import"@[0] == 'i');
}

/// Without a command the console shows its screen. A command that lacks its name
/// is incomplete, and what is no command is unknown.
pub proof fn law_commands_are_told_apart(args: Vec<String>, r: OneShot)
    requires
        call_ensures(parse_args, (&args,), r),
    ensures
        r is Interactive <==> args@.len() == 0,
        args@.len() > 0 ==> {
            let word = args@[0]@;
            &&& r is Incomplete <==> needs_a_name(word) && args@.len() == 1
            &&& r is Unknown <==> !needs_a_name(word) && !stands_alone(word)
            &&& r is List <==> word == "list"@
            &&& r is Users <==> word == "users"@
            &&& r is Export <==> word == "export"@
            &&& r is Import <==> word == "import"@
        },
{
    lemma_words_differ();
    assert(texts(args@).len() == args@.len());
    if args@.len() > 0 {
        assert(texts(args@)[0] == args@[0]@);
    }
}

/// A command acts on what is named behind it, and does what its word says.
pub proof fn law_commands_do_what_their_words_say(args: Vec<String>, r: OneShot)
    requires
        call_ensures(parse_args, (&args,), r),
        args@.len() > 1,
    ensures
        ({
            let word = args@[0]@;
            let name = args@[1]@;
            &&& word == "confirm"@ ==> (r matches OneShot::Confirm { uuid, confirm } && uuid@
                == name && confirm)
            &&& word == "unconfirm"@ ==> (r matches OneShot::Confirm { uuid, confirm } && uuid@
                == name && !confirm)
            &&& word == "delete"@ ==> (r matches OneShot::Delete { uuid } && uuid@ == name)
            &&& word == "user-delete"@ ==> (r matches OneShot::UserDelete { uuid, delete }
                && uuid@ == name && delete)
            &&& word == "user-restore"@ ==> (r matches OneShot::UserDelete { uuid, delete }
                && uuid@ == name && !delete)
            &&& word == "import"@ ==> (r matches OneShot::Import { path } && path is Some
                && path->0@ == name)
        }),
{
    lemma_words_differ();
    assert(texts(args@).len() == args@.len());
    assert(texts(args@)[0] == args@[0]@);
    assert(texts(args@)[1] == args@[1]@);
}

/// An import without a path reads the archive that an export writes.
pub proof fn law_import_reads_what_export_writes(
    args: Vec<String>,
    r: OneShot,
    path: Option<String>,
    export_dir: &str,
    source: String,
)
    requires
        call_ensures(parse_args, (&args,), r),
        call_ensures(import_source, (&path, export_dir), source),
    ensures
        args@.len() == 1 && args@[0]@ == "import"@ ==> (r matches OneShot::Import { path: p } && p
            is None),
        path is Some ==> source@ == path->0@,
        path is None ==> source@ == export_dir@ + "/pwd-export.tar.gz"@,
{
    lemma_words_differ();
    assert(texts(args@).len() == args@.len());
    if args@.len() > 0 {
        assert(texts(args@)[0] == args@[0]@);
    }
}

/// What is shown of a command that is incomplete or unknown is how to write it.
pub proof fn law_usage_is_shown(args: Vec<String>, r: OneShot)
    requires
        call_ensures(parse_args, (&args,), r),
        args@.len() > 0,
    ensures
        r matches OneShot::Incomplete(usage) ==> {
            let word = args@[0]@;
            &&& word == "confirm"@ || word == "unconfirm"@ ==> usage@
                == "Usage: admin_cli confirm|unconfirm <uuid>"@
            &&& word == "delete"@ ==> usage@ == "Usage: admin_cli delete <uuid>"@
            &&& word == "user-delete"@ || word == "user-restore"@ ==> usage@
                == "Usage: admin_cli user-delete|user-restore <uuid>"@
        },
        r matches OneShot::Unknown(usage) ==> usage@
            == "Usage: admin_cli [list|confirm|unconfirm|delete|users|user-delete|user-restore|export|import [path]]"@,
{
    lemma_words_differ();
    assert(texts(args@)[0] == args@[0]@);
}

/// Whether a task makes a request.
pub open spec fn requests(r: Option<(Method, String)>, method: Method, path: Seq<char>) -> bool {
    r is Some && (r->0).0 == method && (r->0).1@ == path
}

/// A task makes the request of the server that does what it is for, and reports
/// that it did.
pub proof fn law_tasks_make_their_requests(
    task: OneShot,
    r: Option<(Method, String)>,
    done: String,
)
    requires
        call_ensures(request_of, (&task,), r),
        call_ensures(done_report, (&task,), done),
    ensures
        match task {
            OneShot::List => requests(r, Method::Get, "/admin/identities"@),
            OneShot::Confirm { uuid, confirm } => if confirm {
                requests(r, Method::Post, "/admin/identities/"@ + uuid@ + "/"@ + "confirm"@)
                    && done@ == "confirm"@ + "ed "@ + uuid@
            } else {
                requests(r, Method::Post, "/admin/identities/"@ + uuid@ + "/"@ + "unconfirm"@)
                    && done@ == "unconfirm"@ + "ed "@ + uuid@
            },
            OneShot::Delete { uuid } => requests(
                r,
                Method::Delete,
                "/admin/identities/"@ + uuid@,
            ) && done@ == "deleted "@ + uuid@,
            OneShot::Users => requests(r, Method::Get, "/admin/users"@),
            OneShot::UserDelete { uuid, delete } => if delete {
                requests(r, Method::Post, "/admin/users/"@ + uuid@ + "/"@ + "delete"@) && done@
                    == "delete"@ + "d user "@ + uuid@
            } else {
                requests(r, Method::Post, "/admin/users/"@ + uuid@ + "/"@ + "restore"@) && done@
                    == "restore"@ + "d user "@ + uuid@
            },
            OneShot::Export => requests(r, Method::Get, "/admin/export"@),
            OneShot::Import { path: _ } => requests(r, Method::Post, "/admin/import"@) && done@
                == "Import successful"@,
            _ => r is None,
        },
        task is List || task is Users || task is Export ==> done@ == ""@,
{
}

/// Statuses and archives are reported in numbers.
pub proof fn law_reports_hold_their_numbers(
    status: u16,
    bytes: u64,
    path: &str,
    answered: String,
    written: String,
    failed: String,
)
    requires
        call_ensures(status_report, (status,), answered),
        call_ensures(export_report, (bytes, path), written),
        call_ensures(export_failure_report, (status,), failed),
    ensures
        answered@ == "Status: "@ + decimal_text(status as nat),
        written@ == "Exported "@ + decimal_text(bytes as nat) + " bytes to "@ + path@,
        failed@ == "Export failed: "@ + decimal_text(status as nat),
{
}

/// A text, or what stands in for one that is absent.
pub open spec fn given_or(v: Option<String>, other: Seq<char>) -> Seq<char> {
    if v is Some {
        v->0@
    } else {
        other
    }
}

/// A device is reported in six lines: whether it is confirmed, with its
/// identifier, and then its account, its address, its token, cut to forty-five
/// bytes, and its times.
pub proof fn law_devices_are_reported(
    raw: RawIdentity,
    r: Vec<String>,
    token: &str,
    cut: String,
)
    requires
        call_ensures(device_report, (raw,), r),
        token@ == given_or(raw.device_token, "-"@),
        call_ensures(truncate, (token, 45), cut),
    ensures
        r@.len() == 6,
        raw.is_confirmed == Some(true) ==> r@[0]@ == "  ["@ + "✓"@ + "] "@ + given_or(
            raw.uuid,
            "?"@,
        ),
        raw.is_confirmed != Some(true) ==> r@[0]@ == "  ["@ + "✗"@ + "] "@ + given_or(
            raw.uuid,
            "?"@,
        ),
        r@[1]@ == "         user:    "@ + given_or(raw.user_id, "-"@),
        r@[2]@ == "         ip:      "@ + given_or(raw.ip_address, "?"@),
        r@[3]@ == "         device:  "@ + cut@,
        r@[4]@ == "         created: "@ + given_or(raw.created_at, "?"@),
        r@[5]@ == "         updated: "@ + given_or(raw.updated_at, "?"@),
{
    assert(texts(r@).len() == r@.len());
    assert(forall|i: int| 0 <= i < r@.len() ==> (#[trigger] r@[i])@ == texts(r@)[i]);
}

/// An account is reported in one line: whether it is deleted, its name and
/// identifier, how many devices it has, and when it was made.
pub proof fn law_accounts_are_reported(raw: RawUser, r: String)
    requires
        call_ensures(account_report, (raw,), r),
    ensures
        ({
            let mark = if raw.is_deleted == Some(true) { "deleted"@ } else { "active "@ };
            let devices: int = if raw.identity_count is Some {
                raw.identity_count->0 as int
            } else {
                0
            };
            r@ == "  ["@ + mark + "] "@ + given_or(raw.name, "?"@) + "  "@ + given_or(
                raw.uuid,
                "?"@,
            ) + "  devices:"@ + signed_text(devices) + "  created:"@ + given_or(
                raw.created_at,
                "?"@,
            )
        }),
{
}

} // verus!
