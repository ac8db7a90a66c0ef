//! What the console asks of the server, and what it shows of the answers.

use vstd::prelude::*;

use crate::console::flows::{
    account_toggled, accounts_listed, accounts_not_listed, all_confirmed, confirmed_of,
    device_deleted, device_toggled, devices_listed, devices_not_listed, devices_of,
    export_reported, first_set, import_reported, read_account, read_accounts, read_device,
    read_devices, Approval, Call, ExportOutcome, Outcome, RawIdentity, RawUser, ToggleAccount,
    ToggleDevice,
};
use crate::console::{pages_for, App, Console, IdentityEntry, Tab, UserEntry};
use crate::outside::opt_text;
use crate::routes::router::Method;
use crate::text::decimal_text;

verus! {

/// Whether a request goes to a place at the server that the console was started
/// for, under the key that it was started with.
pub open spec fn asks(call: Call, app: App, method: Method, path: Seq<char>) -> bool {
    call.method == method && call.url@ == app.base@ + path && call.admin_key@ == app.admin_key@
}

/// The console is started for a server, under a key and with a directory for
/// archives, from which it also imports. Nothing is listed, asked or at work.
pub proof fn law_the_console_is_started_for_a_server(
    base: String,
    admin_key: String,
    export_dir: String,
    r: App,
)
    requires
        call_ensures(App::new, (base, admin_key, export_dir), r),
    ensures
        r.base@ == base@,
        r.admin_key@ == admin_key@,
        r.export_dir@ == export_dir@,
        r.import_path@ == export_dir@ + "/pwd-export.tar.gz"@,
        r.tab == Tab::Devices,
        r.identities@.len() == 0 && r.users@.len() == 0,
        r.selected is None && r.user_selected is None,
        r.page == 0 && r.total_pages == 0,
        r.loading && !r.busy && !r.backend_down,
        r.pending_delete is None && !r.pending_export,
        r.message@.len() == 0,
{
    assert(r@.identities.len() == 0 && r@.users.len() == 0 && r@.message.len() == 0);
    assert(opt_text(r.pending_delete) is None);
}

/// The tabs stand in a row, the devices first, then the accounts, the export and
/// the import, and the row is a ring.
pub proof fn law_the_tabs_stand_in_a_row(tab: Tab, after: Tab, before: Tab)
    requires
        call_ensures(Tab::after, (tab,), after),
        call_ensures(Tab::before, (tab,), before),
    ensures
        tab == Tab::Devices ==> after == Tab::Users && before == Tab::Import,
        tab == Tab::Users ==> after == Tab::Export && before == Tab::Devices,
        tab == Tab::Export ==> after == Tab::Import && before == Tab::Users,
        tab == Tab::Import ==> after == Tab::Devices && before == Tab::Export,
{
}

/// A page starts behind ten devices for each page before it, and the selected
/// device is counted from there.
pub proof fn law_the_selection_is_counted_from_the_page(
    app: App,
    start: usize,
    r: Option<usize>,
)
    requires
        app@.wf(),
        call_ensures(App::page_start, (&app,), start),
        call_ensures(App::selected_global_index, (&app,), r),
    ensures
        start == 10 * app.page,
        r is Some <==> app.selected is Some,
        r matches Some(i) ==> i == 10 * app.page + app.selected->0,
{
}

// ---------------------------------------------------------------------------
// Reading
// ---------------------------------------------------------------------------

/// What the server says of a device is shown as it is. A question mark stands
/// for what it does not say, a dash for a token, and a device is taken as
/// confirmed only if the server says so.
pub proof fn law_devices_are_read_as_described(raw: RawIdentity, r: IdentityEntry)
    requires
        call_ensures(read_device, (raw,), r),
    ensures
        r.uuid@ == if raw.uuid is Some { raw.uuid->0@ } else { "?"@ },
        r.user_id is Some <==> raw.user_id is Some,
        r.user_id is Some ==> r.user_id->0@ == raw.user_id->0@,
        r.ip_address@ == if raw.ip_address is Some { raw.ip_address->0@ } else { "?"@ },
        r.confirmed <==> raw.is_confirmed is Some && raw.is_confirmed->0,
        r.device_token@ == if raw.device_token is Some { raw.device_token->0@ } else { "-"@ },
        r.created_at@ == if raw.created_at is Some { raw.created_at->0@ } else { "?"@ },
        r.updated_at@ == if raw.updated_at is Some { raw.updated_at->0@ } else { "?"@ },
{
}

/// What the server says of an account is shown as it is. A question mark stands
/// for what it does not say, and it has no devices and is not deleted unless the
/// server says so.
pub proof fn law_accounts_are_read_as_described(raw: RawUser, r: UserEntry)
    requires
        call_ensures(read_account, (raw,), r),
    ensures
        r.uuid@ == if raw.uuid is Some { raw.uuid->0@ } else { "?"@ },
        r.name@ == if raw.name is Some { raw.name->0@ } else { "?"@ },
        r.is_deleted <==> raw.is_deleted is Some && raw.is_deleted->0,
        r.identity_count == if raw.identity_count is Some { raw.identity_count->0 } else { 0 },
        r.created_at@ == if raw.created_at is Some { raw.created_at->0@ } else { "?"@ },
        r.updated_at@ == if raw.updated_at is Some { raw.updated_at->0@ } else { "?"@ },
{
}

/// Lists are read row by row, in order.
pub proof fn law_lists_are_read_in_order(
    devices: Vec<RawIdentity>,
    accounts: Vec<RawUser>,
    d: Vec<IdentityEntry>,
    a: Vec<UserEntry>,
    i: int,
)
    requires
        call_ensures(read_devices, (devices,), d),
        call_ensures(read_accounts, (accounts,), a),
    ensures
        d@.len() == devices@.len(),
        a@.len() == accounts@.len(),
        0 <= i < d@.len() ==> {
            &&& d@[i].uuid@ == if devices@[i].uuid is Some { devices@[i].uuid->0@ } else { "?"@ }
            &&& opt_text(d@[i].user_id) == opt_text(devices@[i].user_id)
            &&& d@[i].confirmed == (devices@[i].is_confirmed == Some(true))
        },
        0 <= i < a@.len() ==> {
            &&& a@[i].uuid@ == if accounts@[i].uuid is Some { accounts@[i].uuid->0@ } else { "?"@ }
            &&& a@[i].name@ == if accounts@[i].name is Some { accounts@[i].name->0@ } else { "?"@ }
            &&& a@[i].is_deleted == (accounts@[i].is_deleted == Some(true))
        },
{
    if 0 <= i < d@.len() {
        assert(d@[i] == d@[i]);
    }
    if 0 <= i < a@.len() {
        assert(a@[i] == a@[i]);
    }
}

// ---------------------------------------------------------------------------
// Lists
// ---------------------------------------------------------------------------

/// A page holds ten devices, and so many pages are needed that all devices fit
/// and none of the pages is empty, but for one page where there are no devices.
pub proof fn law_ten_devices_fill_a_page(devices: nat)
    ensures
        devices == 0 ==> pages_for(devices) == 1,
        devices > 0 ==> 10 * (pages_for(devices) - 1) < devices <= 10 * pages_for(devices),
{
}

/// Once the devices are listed, the console stays on its page as long as there
/// is something on it, and goes to the last page otherwise. The first device of
/// the page is selected, and nothing else changes.
pub proof fn law_listed_devices_stay_on_the_page(s: Console, entries: Seq<IdentityEntry>)
    requires
        entries.len() <= usize::MAX,
    ensures
        ({
            let after = devices_listed(s, entries);
            &&& after == (Console {
                identities: entries,
                total_pages: after.total_pages,
                page: after.page,
                selected: after.selected,
                loading: false,
                ..s
            })
            &&& entries.len() == 0 ==> after.page == 0 && after.total_pages == 1 && after.selected
                is None
            &&& entries.len() > 0 ==> {
                &&& after.selected == Some(0usize)
                &&& 10 * (after.total_pages - 1) < entries.len() <= 10 * after.total_pages
                &&& 10 * s.page < entries.len() ==> after.page == s.page
                &&& 10 * s.page >= entries.len() ==> after.page == after.total_pages - 1
            }
        }),
{
}

/// Once the accounts are listed, the selected place stays, or is the last one
/// where there are fewer; nothing else changes.
pub proof fn law_listed_accounts_keep_the_selection(s: Console, entries: Seq<UserEntry>)
    requires
        entries.len() <= usize::MAX,
    ensures
        ({
            let after = accounts_listed(s, entries);
            &&& after == (Console {
                users: entries,
                user_selected: after.user_selected,
                ..s
            })
            &&& entries.len() == 0 ==> after.user_selected is None
            &&& entries.len() > 0 && s.user_selected is None ==> after.user_selected == Some(
                0usize,
            )
            &&& entries.len() > 0 && s.user_selected is Some && s.user_selected->0 < entries.len()
                ==> after.user_selected == s.user_selected
            &&& entries.len() > 0 && s.user_selected is Some && s.user_selected->0 >= entries.len()
                ==> after.user_selected == Some((entries.len() - 1) as usize)
        }),
{
}

/// A list that does not come is reported and leaves what is shown; a server that
/// cannot be reached is remembered as down.
pub proof fn law_lists_that_do_not_come_are_reported(s: Console, reachable: bool)
    ensures
        devices_not_listed(s, reachable) == (Console {
            message: "Failed to fetch identities"@,
            backend_down: s.backend_down || !reachable,
            loading: false,
            ..s
        }),
        accounts_not_listed(s, reachable) == (Console {
            message: "Failed to fetch users"@,
            backend_down: s.backend_down || !reachable,
            ..s
        }),
{
}

// ---------------------------------------------------------------------------
// Devices
// ---------------------------------------------------------------------------

/// The request that sets an approval says which, of which device.
pub proof fn law_approval_is_asked_for(app: App, uuid: &str, confirm: bool, r: Call)
    requires
        call_ensures(App::device_call, (&app, uuid, confirm), r),
    ensures
        confirm ==> asks(r, app, Method::Post, "/admin/identities/"@ + uuid@ + "/"@ + "confirm"@),
        !confirm ==> asks(
            r,
            app,
            Method::Post,
            "/admin/identities/"@ + uuid@ + "/"@ + "unconfirm"@,
        ),
{
}

/// The approval that is turned round is that of the selected device: a confirmed
/// one is asked to be no longer, and one that waits is asked to be.
pub proof fn law_the_selected_device_is_turned_round(app: App, r: Option<ToggleDevice>)
    requires
        app@.wf(),
        call_ensures(App::toggle_selected, (&app,), r),
    ensures
        r is Some <==> app.selected is Some,
        r matches Some(step) ==> {
            let entry = app.identities@[step.index as int];
            &&& step.index == 10 * app.page + app.selected->0
            &&& step.index < app.identities@.len()
            &&& step.uuid@ == entry.uuid@
            &&& step.confirm <==> !entry.confirmed
            &&& !entry.confirmed ==> asks(
                step.call,
                app,
                Method::Post,
                "/admin/identities/"@ + entry.uuid@ + "/"@ + "confirm"@,
            )
            &&& entry.confirmed ==> asks(
                step.call,
                app,
                Method::Post,
                "/admin/identities/"@ + entry.uuid@ + "/"@ + "unconfirm"@,
            )
        },
{
}

/// An approval that was set is shown at once, for that device alone, and
/// reported; one that was not is reported and changes nothing.
pub proof fn law_a_set_approval_is_shown(
    s: Console,
    i: int,
    uuid: Seq<char>,
    confirm: bool,
    outcome: Outcome,
    j: int,
)
    requires
        0 <= i < s.identities.len(),
        0 <= j < s.identities.len(),
    ensures
        ({
            let after = device_toggled(s, i, uuid, confirm, outcome);
            let word = if confirm { "confirm"@ } else { "unconfirm"@ };
            &&& after == (Console {
                identities: after.identities,
                message: after.message,
                ..s
            })
            &&& outcome is Success ==> {
                &&& after.message == word + "ed "@ + uuid
                &&& after.identities.len() == s.identities.len()
                &&& j != i ==> after.identities[j] == s.identities[j]
                &&& after.identities[i] == (IdentityEntry {
                    confirmed: confirm,
                    ..s.identities[i]
                })
            }
            &&& outcome !is Success ==> {
                &&& after.message == "Failed to "@ + word + " "@ + uuid
                &&& after.identities == s.identities
            }
        }),
{
}

/// A removal is reported, with the status where the server gave one, and changes
/// nothing else that is shown.
pub proof fn law_a_removal_is_reported(s: Console, uuid: Seq<char>, outcome: Outcome)
    ensures
        ({
            let after = device_deleted(s, uuid, outcome);
            &&& after == (Console { message: after.message, ..s })
            &&& match outcome {
                Outcome::Success => after.message == "Deleted "@ + uuid,
                Outcome::Status(status) => after.message == "Failed to delete "@ + uuid + " ("@
                    + status@ + ")"@,
                Outcome::Unreachable => after.message == "Failed to delete "@ + uuid,
            }
        }),
{
}

// ---------------------------------------------------------------------------
// Accounts
// ---------------------------------------------------------------------------

/// The account that is marked or restored is the selected one.
pub proof fn law_the_selected_account_is_marked(
    app: App,
    delete: bool,
    r: Option<ToggleAccount>,
)
    requires
        app@.wf(),
        call_ensures(App::toggle_user_deleted, (&app, delete), r),
    ensures
        r is Some <==> app.user_selected is Some,
        r matches Some(step) ==> {
            let uuid = app.users@[app.user_selected->0 as int].uuid@;
            &&& step.uuid@ == uuid
            &&& step.delete == delete
            &&& delete ==> asks(
                step.call,
                app,
                Method::Post,
                "/admin/users/"@ + uuid + "/"@ + "delete"@,
            )
            &&& !delete ==> asks(
                step.call,
                app,
                Method::Post,
                "/admin/users/"@ + uuid + "/"@ + "restore"@,
            )
        },
{
}

/// What became of marking or restoring an account is reported, with the status
/// where the server gave one, and changes nothing else that is shown.
pub proof fn law_a_marked_account_is_reported(
    s: Console,
    uuid: Seq<char>,
    delete: bool,
    outcome: Outcome,
)
    ensures
        ({
            let after = account_toggled(s, uuid, delete, outcome);
            let word = if delete { "delete"@ } else { "restore"@ };
            &&& after == (Console { message: after.message, ..s })
            &&& match outcome {
                Outcome::Success => after.message == word + "d user "@ + uuid,
                Outcome::Status(status) => after.message == "Failed to "@ + word + " user "@ + uuid
                    + " ("@ + status@ + ")"@,
                Outcome::Unreachable => after.message == "Failed to "@ + word + " user "@ + uuid,
            }
        }),
{
}

/// The devices counted for an account grow by one with each that belongs to it,
/// and the confirmed ones by one with each of those that is confirmed.
pub proof fn law_devices_of_an_account_are_counted(
    app: App,
    more: App,
    entry: IdentityEntry,
    account: &str,
    r: (usize, usize),
    grown: (usize, usize),
)
    requires
        more.identities@ == app.identities@.push(entry),
        call_ensures(App::user_conf, (&app, account), r),
        call_ensures(App::user_conf, (&more, account), grown),
    ensures
        app.identities@.len() == 0 ==> r == (0usize, 0usize),
        ({
            let theirs = entry.user_id is Some && entry.user_id->0@ == account@;
            &&& grown.1 == r.1 + if theirs { 1int } else { 0 }
            &&& grown.0 == r.0 + if theirs && entry.confirmed { 1int } else { 0 }
        }),
{
    reveal(Seq::filter);
    assert(more.identities@.drop_last() =~= app.identities@);
    assert(confirmed_of(more.identities@, account@).1 == grown.1);
}

/// The devices that are approved together are those that belong to the account,
/// in order: with a device more that does, its identifier is the last one more;
/// with any other device, they are the same.
pub proof fn law_devices_of_an_account_are_asked_for(
    entries: Seq<IdentityEntry>,
    entry: IdentityEntry,
    account: Seq<char>,
)
    ensures
        devices_of(Seq::empty(), account).len() == 0,
        entry.user_id is Some && entry.user_id->0@ == account ==> devices_of(
            entries.push(entry),
            account,
        ) == devices_of(entries, account).push(entry.uuid@),
        entry.user_id is None || entry.user_id->0@ != account ==> devices_of(
            entries.push(entry),
            account,
        ) == devices_of(entries, account),
{
    reveal(Seq::filter);
    assert(entries.push(entry).drop_last() =~= entries);
    assert(devices_of(entries.push(entry), account) =~= if opt_text(entry.user_id) == Some(
        account,
    ) {
        devices_of(entries, account).push(entry.uuid@)
    } else {
        devices_of(entries, account)
    });
}

/// All devices of an account are confirmed exactly if none that belongs to it
/// waits.
pub proof fn law_one_waiting_device_is_enough(
    entries: Seq<IdentityEntry>,
    account: Seq<char>,
)
    ensures
        !all_confirmed(entries, account) <==> exists|i: int|
            {
                &&& 0 <= i < entries.len()
                &&& (#[trigger] entries[i]).user_id is Some
                &&& entries[i].user_id->0@ == account
                &&& !entries[i].confirmed
            },
{
    if !all_confirmed(entries, account) {
        let i = choose|i: int|
            0 <= i < entries.len() && crate::console::flows::belongs(
                #[trigger] entries[i],
                account,
            ) && !entries[i].confirmed;
        assert(entries[i].user_id is Some);
    }
    if all_confirmed(entries, account) {
        assert forall|i: int|
            0 <= i < entries.len() && (#[trigger] entries[i]).user_id is Some
                && entries[i].user_id->0@ == account implies entries[i].confirmed by {
            assert(crate::console::flows::belongs(entries[i], account));
        }
    }
}

/// The devices of an account are asked for one after the other, and no more once
/// all of them were.
pub proof fn law_devices_are_approved_in_turn(app: App, step: Approval, r: Option<Call>)
    requires
        call_ensures(App::approval_call, (&app, &step), r),
    ensures
        r is Some <==> step.asked < step.devices@.len(),
        r matches Some(call) ==> {
            let uuid = step.devices@[step.asked as int]@;
            &&& step.confirm ==> asks(
                call,
                app,
                Method::Post,
                "/admin/identities/"@ + uuid + "/"@ + "confirm"@,
            )
            &&& !step.confirm ==> asks(
                call,
                app,
                Method::Post,
                "/admin/identities/"@ + uuid + "/"@ + "unconfirm"@,
            )
        },
{
}

/// Of the devices that are shown, the first with the identifier gets the
/// approval, and every other one stays as it is.
pub proof fn law_the_first_device_is_set(
    entries: Seq<IdentityEntry>,
    uuid: Seq<char>,
    confirm: bool,
    after: Seq<IdentityEntry>,
    k: int,
)
    requires
        first_set(entries, uuid, confirm, after),
        0 <= k < entries.len(),
    ensures
        after.len() == entries.len(),
        after[k].uuid@ == entries[k].uuid@,
        entries[k].uuid@ != uuid ==> after[k] == entries[k],
        entries[k].uuid@ == uuid && (forall|j: int|
            0 <= j < k ==> (#[trigger] entries[j]).uuid@ != uuid) ==> after[k] == (IdentityEntry {
            confirmed: confirm,
            ..entries[k]
        }),
{
}

// ---------------------------------------------------------------------------
// Archives
// ---------------------------------------------------------------------------

/// Archives are written to one file of the directory that the console was
/// started with, and handed over to the server in one request.
pub proof fn law_archives_have_one_place(app: App, path: String, call: Call)
    requires
        call_ensures(App::export_path, (&app,), path),
        call_ensures(App::import_call, (&app,), call),
    ensures
        path@ == app.export_dir@ + "/pwd-export.tar.gz"@,
        asks(call, app, Method::Post, "/admin/import"@),
{
}

/// What became of an archive is reported: how many bytes went where, or what
/// went wrong. The console is ready again, and nothing else changes.
pub proof fn law_an_export_is_reported(s: Console, outcome: ExportOutcome)
    ensures
        ({
            let after = export_reported(s, outcome);
            &&& after == (Console { busy: false, message: after.message, ..s })
            &&& match outcome {
                ExportOutcome::Written(n) => after.message == "Exported "@ + decimal_text(n as nat)
                    + " bytes to "@ + (s.export_dir + "/pwd-export.tar.gz"@),
                ExportOutcome::WriteFailed(reason) => after.message == "Export: write to "@ + (
                s.export_dir + "/pwd-export.tar.gz"@) + " failed: "@ + reason@,
                ExportOutcome::Failed => after.message == "Export failed"@,
            }
        }),
{
}

/// An import that failed is reported, with the status where the server gave one.
/// The console is ready again, and nothing else changes.
pub proof fn law_a_failed_import_is_reported(s: Console, outcome: Outcome)
    ensures
        ({
            let after = import_reported(s, outcome);
            &&& after == (Console { busy: false, message: after.message, ..s })
            &&& match outcome {
                Outcome::Success => after.message == s.message,
                Outcome::Status(status) => after.message == "Import failed ("@ + status@ + ")"@,
                Outcome::Unreachable => after.message == "Import failed"@,
            }
        }),
{
}

} // verus!
