//! What administrators see and do, and what groups hold.

use vstd::prelude::*;
use vstd::utf8::encode_utf8;

use crate::chance::drawn_uuid;
use crate::config::Config;
use crate::domain::group::{group_stored, Group, GroupList};
use crate::domain::identity::{Identity, IdentityCommand, IdentityList};
use crate::domain::user::{User, UserCommand, UserList};
use crate::error::{AppResult, Failure};
use crate::laws::devices::law_removal_takes_one_device;
use crate::outside::{archive_bytes, datetime_text, datetime_utc_text, hex_text, opt_text};
use crate::routes::admin::{
    delete_identity, device_count, export_at, export_handler, identities_listed, import_handler,
    last_value, list_identities, list_users, parse_env, toggle_identity, toggle_user, users_listed,
    ConfirmLookup, DeleteLookup, ExportResponse, IdentityResponse, ImportDatabase, ImportStage,
    ImportSwap, ToggleUser, UserResponse,
};
use crate::routes::group::{
    approve_handler, create_handler, groups_listed, list_handler, pending_handler, pending_listed,
    CreateGroupRequest, GroupChecked, GroupInsert, GroupResponse, PendingIdentity,
};
use crate::routes::{AdminPass, Session};
use crate::text::{behind, decimal_text, lines, texts};
use crate::time::Timestamp;

verus! {

/// Whether a text writes a moment as answers do.
pub open spec fn writes_moment(text: Seq<char>, moment: int) -> bool {
    text == datetime_text(
        (moment / 1_000_000_000) as i64,
        (moment % 1_000_000_000) as u32,
    )
}

// ---------------------------------------------------------------------------
// Groups
// ---------------------------------------------------------------------------

/// A group with a name of at most 128 characters is stored for the account of
/// the session, under that name, with the notes that were sent or with none. A
/// longer name is malformed.
pub proof fn law_created_group_is_what_was_sent(
    request: CreateGroupRequest,
    session: Session,
    r: AppResult<GroupChecked>,
    step: GroupInsert,
    before: Seq<Group>,
    after: Seq<Group>,
    response: GroupResponse,
)
    requires
        call_ensures(create_handler, (request,), r),
        r is Ok ==> call_ensures(GroupChecked::authorized, (r->Ok_0, &session), step)
            && step.command.effect(before, after) && call_ensures(
            GroupInsert::stored,
            (step, after.last()),
            response,
        ),
    ensures
        r is Ok <==> request.name@.len() <= 128,
        r matches Err(e) ==> e@ == Failure::Validation(
            "group name"@ + " exceeds "@ + decimal_text(128) + " characters"@,
        ),
        r is Ok ==> {
            let row = after.last();
            &&& after == before.push(row)
            &&& drawn_uuid(row.uuid@)
            &&& row.user_id@ == session.owner()
            &&& row.name@ == request.name@
            &&& request.extra is Some ==> row.extra@ == request.extra->0@
            &&& request.extra is None ==> row.extra@ == seq!['{', '}']
            &&& response.uuid@ == row.uuid@
            &&& response.name@ == request.name@
            &&& response.extra@ == row.extra@
        },
{
    reveal_strlit("{}");
    assert("{}"@ =~= seq!['{', '}']);
    if r is Ok {
        let row = choose|row: Group| #[trigger]
            group_stored(step.command->Insert_0, row) && after == before.push(row);
        assert(after.last() == row);
    }
}

/// The groups of the account of the session are listed, and no others, each as
/// it is.
pub proof fn law_groups_of_the_account_are_listed(
    session: Session,
    list: GroupList,
    row: Group,
    rows: Vec<Group>,
    r: Vec<GroupResponse>,
    i: int,
)
    requires
        call_ensures(list_handler, (&session,), list),
        call_ensures(groups_listed, (&rows,), r),
        0 <= i < rows@.len(),
    ensures
        list.lists(row) <==> row.user_id@ == session.owner(),
        r@.len() == rows@.len(),
        r@[i].uuid@ == rows@[i].uuid@,
        r@[i].name@ == rows@[i].name@,
        r@[i].extra@ == rows@[i].extra@,
{
    assert(r@[i] == r@[i]);
}

// ---------------------------------------------------------------------------
// Devices
// ---------------------------------------------------------------------------

/// The devices that wait are those that are not confirmed, each shown with its
/// identifier and address.
pub proof fn law_waiting_devices_are_listed(
    pass: AdminPass,
    list: IdentityList,
    row: Identity,
    rows: Vec<Identity>,
    r: Vec<PendingIdentity>,
    i: int,
)
    requires
        call_ensures(pending_handler, (&pass,), list),
        call_ensures(pending_listed, (&rows,), r),
        0 <= i < rows@.len(),
    ensures
        list.lists(row) <==> !row.is_confirmed,
        r@.len() == rows@.len(),
        r@[i].uuid@ == rows@[i].uuid@,
        r@[i].ip_address@ == rows@[i].ip_address@,
{
    assert(r@[i] == r@[i]);
}

/// Every device is listed to administrators, each as it is.
pub proof fn law_devices_are_listed_as_they_are(
    pass: AdminPass,
    list: IdentityList,
    row: Identity,
    rows: Vec<Identity>,
    r: Vec<IdentityResponse>,
    i: int,
)
    requires
        call_ensures(list_identities, (&pass,), list),
        call_ensures(identities_listed, (&rows,), r),
        0 <= i < rows@.len(),
    ensures
        list.lists(row),
        r@.len() == rows@.len(),
        r@[i].uuid@ == rows@[i].uuid@,
        opt_text(r@[i].user_id) == opt_text(rows@[i].user_id),
        r@[i].ip_address@ == rows@[i].ip_address@,
        opt_text(r@[i].device_token) == opt_text(rows@[i].device_token),
        r@[i].is_confirmed == rows@[i].is_confirmed,
        writes_moment(r@[i].created_at@, rows@[i].created_at@),
        writes_moment(r@[i].updated_at@, rows@[i].updated_at@),
{
    assert(r@[i] == r@[i]);
}

/// Whether a table has the approval of one device set, and nothing else changed
/// but the time of that.
pub open spec fn approval_set(
    before: Seq<Identity>,
    after: Seq<Identity>,
    device: Seq<char>,
    confirmed: bool,
    i: int,
) -> bool {
    &&& after.len() == before.len()
    &&& before[i].uuid@ != device ==> after[i] == before[i]
    &&& before[i].uuid@ == device ==> {
        &&& after[i] == (Identity {
            is_confirmed: confirmed,
            updated_at: after[i].updated_at,
            ..before[i]
        })
        &&& after[i].updated_at.given()
    }
}

/// To approve a device is to set its approval, whoever it belongs to; what is
/// not there cannot be approved.
pub proof fn law_approval_confirms_the_device(
    pass: AdminPass,
    uuid: &str,
    step: ConfirmLookup,
    row: Identity,
    device: Option<Identity>,
    r: AppResult<IdentityCommand>,
    before: Seq<Identity>,
    after: Seq<Identity>,
    i: int,
)
    requires
        call_ensures(approve_handler, (&pass, uuid), step),
        call_ensures(ConfirmLookup::found, (step, device), r),
        r is Ok ==> r->Ok_0.effect(before, after),
        0 <= i < before.len(),
    ensures
        step.key.finds(row) <==> row.uuid@ == uuid@,
        r is Ok <==> device is Some,
        r matches Err(e) ==> e@ == Failure::IdentityNotFound,
        r is Ok ==> approval_set(before, after, uuid@, true, i),
{
}

/// The two actions on a device set and withdraw its approval. There are no
/// others.
pub proof fn law_device_actions_do_what_they_say(
    pass: AdminPass,
    uuid: &str,
    action: &str,
    step: AppResult<ConfirmLookup>,
    row: Identity,
    device: Option<Identity>,
    r: AppResult<IdentityCommand>,
    before: Seq<Identity>,
    after: Seq<Identity>,
    i: int,
)
    requires
        call_ensures(toggle_identity, (&pass, uuid, action), step),
        step is Ok ==> call_ensures(ConfirmLookup::found, (step->Ok_0, device), r),
        step is Ok && r is Ok ==> r->Ok_0.effect(before, after),
        0 <= i < before.len(),
    ensures
        step is Ok <==> action@ == "confirm"@ || action@ == "unconfirm"@,
        step matches Err(e) ==> e@ == Failure::Validation("action must be confirm or unconfirm"@),
        step is Ok ==> (step->Ok_0.key.finds(row) <==> row.uuid@ == uuid@),
        step is Ok ==> (r is Ok <==> device is Some),
        step is Ok && r is Err ==> r->Err_0@ == Failure::IdentityNotFound,
        action@ == "confirm"@ && r is Ok ==> approval_set(before, after, uuid@, true, i),
        action@ == "unconfirm"@ && r is Ok ==> approval_set(before, after, uuid@, false, i),
{
    reveal_strlit("confirm");
    reveal_strlit("unconfirm");
    assert("confirm"@.len() != "unconfirm"@.len());
}

/// A device that is removed is gone, every other one stays as it is, and what is
/// not there cannot be removed.
pub proof fn law_removal_takes_the_device_asked_for(
    pass: AdminPass,
    uuid: &str,
    step: DeleteLookup,
    row: Identity,
    device: Option<Identity>,
    r: AppResult<IdentityCommand>,
    before: Seq<Identity>,
    after: Seq<Identity>,
)
    requires
        call_ensures(delete_identity, (&pass, uuid), step),
        call_ensures(DeleteLookup::found, (step, device), r),
        r is Ok ==> r->Ok_0.effect(before, after),
    ensures
        step.key.finds(row) <==> row.uuid@ == uuid@,
        r is Ok <==> device is Some,
        r matches Err(e) ==> e@ == Failure::IdentityNotFound,
        r is Ok ==> (after.contains(row) <==> before.contains(row) && row.uuid@ != uuid@),
{
    if r is Ok {
        law_removal_takes_one_device(before, after, r->Ok_0, row);
    }
}

// ---------------------------------------------------------------------------
// Accounts
// ---------------------------------------------------------------------------

/// Every account is listed to administrators, each as it is, with the number of
/// devices that are linked to it.
pub proof fn law_accounts_are_listed_as_they_are(
    users: Vec<User>,
    devices: Vec<Identity>,
    r: Vec<UserResponse>,
    i: int,
)
    requires
        call_ensures(users_listed, (&users, &devices), r),
        0 <= i < users@.len(),
    ensures
        r@.len() == users@.len(),
        r@[i].uuid@ == users@[i].uuid@,
        r@[i].name@ == users@[i].name@,
        r@[i].is_deleted == users@[i].is_deleted,
        writes_moment(r@[i].created_at@, users@[i].created_at@),
        writes_moment(r@[i].updated_at@, users@[i].updated_at@),
{
    assert(r@[i] == r@[i]);
}

/// The number of devices shown for an account grows by one with a device that is
/// linked to it, whether confirmed or not, and by no other one.
pub proof fn law_accounts_count_their_devices(
    users: Vec<User>,
    devices: Vec<Identity>,
    more: Vec<Identity>,
    device: Identity,
    r: Vec<UserResponse>,
    grown: Vec<UserResponse>,
    i: int,
)
    requires
        call_ensures(users_listed, (&users, &devices), r),
        call_ensures(users_listed, (&users, &more), grown),
        more@ == devices@.push(device),
        0 <= i < users@.len(),
    ensures
        devices@.len() == 0 ==> r@[i].identity_count == 0,
        device.user_id is Some && device.user_id->0@ == users@[i].uuid@
            ==> grown@[i].identity_count == r@[i].identity_count + 1,
        device.user_id is None || device.user_id->0@ != users@[i].uuid@
            ==> grown@[i].identity_count == r@[i].identity_count,
{
    reveal(Seq::filter);
    assert(r@[i] == r@[i] && grown@[i] == grown@[i]);
    assert(more@.drop_last() =~= devices@);
    assert(device_count(more@, users@[i].uuid@) >= 0);
}

/// Administrators ask for all accounts and all devices.
pub proof fn law_accounts_are_counted_over_all_devices(
    pass: AdminPass,
    lists: (UserList, IdentityList),
    row: Identity,
)
    requires
        call_ensures(list_users, (&pass,), lists),
    ensures
        lists.0 is All,
        lists.1.lists(row),
{
}

/// The two actions on an account set and clear its mark of deletion, and nothing
/// else changes but the time of that. There are no others.
pub proof fn law_account_actions_do_what_they_say(
    pass: AdminPass,
    uuid: &str,
    action: &str,
    step: AppResult<ToggleUser>,
    row: User,
    user: Option<User>,
    r: AppResult<UserCommand>,
    before: Seq<User>,
    after: Seq<User>,
    i: int,
)
    requires
        call_ensures(toggle_user, (&pass, uuid, action), step),
        step is Ok ==> call_ensures(ToggleUser::found, (step->Ok_0, user), r),
        step is Ok && r is Ok ==> r->Ok_0.effect(before, after),
        0 <= i < before.len(),
    ensures
        step is Ok <==> action@ == "delete"@ || action@ == "restore"@,
        step matches Err(e) ==> e@ == Failure::Validation("action must be delete or restore"@),
        step is Ok ==> (step->Ok_0.key.finds(row) <==> row.uuid@ == uuid@),
        step is Ok ==> (r is Ok <==> user is Some),
        step is Ok && r is Err ==> r->Err_0@ == Failure::NotFound("user not found"@),
        step is Ok && r is Ok ==> {
            &&& after.len() == before.len()
            &&& before[i].uuid@ != uuid@ ==> after[i] == before[i]
            &&& before[i].uuid@ == uuid@ ==> {
                &&& after[i] == (User {
                    is_deleted: action@ == "delete"@,
                    updated_at: after[i].updated_at,
                    ..before[i]
                })
                &&& after[i].updated_at.given()
            }
        },
{
    reveal_strlit("delete");
    reveal_strlit("restore");
    assert("delete"@.len() != "restore"@.len());
}

// ---------------------------------------------------------------------------
// The archive
// ---------------------------------------------------------------------------

/// Whether bytes are an archive of three files: the database, the two secrets in
/// hexadecimal, each on a line of its own behind its name, and a note that is
/// dated.
pub open spec fn archives(body: Seq<u8>, database: Seq<u8>, config: Config, moment: int) -> bool {
    body == archive_bytes(
        seq![
            ("pwd_manager.db"@, database),
            (
                ".env"@,
                encode_utf8(
                    "DATABASEENCRYPTSECRET="@ + hex_text(config.database_encrypt_secret@) + "\n"@
                        + "SOFTWARESECRET="@ + hex_text(config.software_secret@) + "\n"@,
                ),
            ),
            (
                "README.txt"@,
                encode_utf8(
                    "Password Manager Export\nGenerated: "@ + datetime_utc_text(
                        (moment / 1_000_000_000) as i64,
                        (moment % 1_000_000_000) as u32,
                    )
                        + "\n\nThis archive contains:\n- pwd_manager.db  (SQLite database, all passwords encrypted at rest)\n- .env            (export secrets — KEEP SAFE)\n\nTo import, use the admin CLI Import tab or POST /admin/import.\n"@,
                ),
            ),
        ],
    )
}

/// An export answers with the archive of the database and the secrets, dated by
/// the moment of the export.
pub proof fn law_export_packs_the_database(
    pass: AdminPass,
    database: Vec<u8>,
    config: Config,
    now: Timestamp,
    r: AppResult<ExportResponse>,
)
    requires
        call_ensures(export_at, (&pass, &database, &config, now), r),
    ensures
        r is Ok,
        r->Ok_0.status == 200,
        r->Ok_0.content_type@ == "application/gzip"@,
        archives(r->Ok_0.body@, database@, config, now@),
{
}

/// An export is dated by the clock.
pub proof fn law_export_is_dated_by_the_clock(
    pass: AdminPass,
    database: Vec<u8>,
    config: Config,
    r: AppResult<ExportResponse>,
)
    requires
        call_ensures(export_handler, (&pass, &database, &config), r),
    ensures
        r is Ok,
        r->Ok_0.status == 200,
        r->Ok_0.content_type@ == "application/gzip"@,
        exists|now: Timestamp| #[trigger]
            now.given() && archives(r->Ok_0.body@, database@, config, now@),
{
    let now = choose|now: Timestamp| #[trigger]
        now.given() && r->Ok_0.body@ == archive_bytes(
            crate::routes::admin::export_entries(database@, config, now@),
        );
    assert(now.given() && archives(r->Ok_0.body@, database@, config, now@));
}

/// An import goes on exactly if the file of secrets names those of the server.
/// What names others is refused, and what names less than both is malformed.
pub proof fn law_import_takes_the_own_secrets(
    pass: AdminPass,
    env: Option<String>,
    text: &str,
    config: Config,
    named: Option<(String, String)>,
    r: AppResult<ImportDatabase>,
)
    requires
        call_ensures(import_handler, (&pass, env, &config), r),
        env is Some ==> text@ == env->0@ && call_ensures(parse_env, (text,), named),
    ensures
        env is None ==> r is Err && r->Err_0@ == Failure::Validation("missing .env in archive"@),
        env is Some && named is None ==> r is Err && r->Err_0@ == Failure::Validation(
            "incomplete .env in archive"@,
        ),
        env is Some && named is Some ==> {
            &&& r is Ok <==> (named->0).0@ == hex_text(config.database_encrypt_secret@)
                && (named->0).1@ == hex_text(config.software_secret@)
            &&& r is Err ==> r->Err_0@ == Failure::Unauthorized(
                "archive secrets do not match server configuration"@,
            )
        },
        r is Ok ==> r->Ok_0.staged@ == config.database_url@ + ".importing"@,
{
}

/// Whether a line is the last of some that start with a prefix.
pub open spec fn last_with(lines: Seq<Seq<char>>, prefix: Seq<char>, i: int) -> bool {
    &&& 0 <= i < lines.len()
    &&& prefix.is_prefix_of(lines[i])
    &&& forall|j: int| i < j < lines.len() ==> !prefix.is_prefix_of(#[trigger] lines[j])
}

proof fn lemma_last_value(lines: Seq<Seq<char>>, prefix: Seq<char>)
    ensures
        last_value(lines, prefix) matches Some(value) ==> exists|i: int|
            last_with(lines, prefix, i) && #[trigger] lines[i] == prefix + value,
        last_value(lines, prefix) is None ==> forall|i: int|
            0 <= i < lines.len() ==> !prefix.is_prefix_of(#[trigger] lines[i]),
    decreases lines.len(),
{
    if lines.len() > 0 {
        let rest = lines.drop_last();
        let line = lines.last();
        lemma_last_value(rest, prefix);
        assert(forall|j: int| 0 <= j < rest.len() ==> #[trigger] lines[j] == rest[j]);
        assert(line.take(prefix.len() as int) == line.subrange(0, prefix.len() as int));
        if behind(line, prefix) is Some {
            let value = behind(line, prefix)->0;
            assert(line =~= prefix + value);
            assert(last_with(lines, prefix, lines.len() - 1));
            assert(lines[lines.len() - 1] == prefix + value);
        } else {
            assert(!prefix.is_prefix_of(line));
            if last_value(rest, prefix) is Some {
                let value = last_value(rest, prefix)->0;
                let i = choose|i: int|
                    last_with(rest, prefix, i) && #[trigger] rest[i] == prefix + value;
                assert(lines[i] == prefix + value);
                assert(last_with(lines, prefix, i));
            }
        }
    }
}

/// The secrets that a file names are what the last line that starts with the
/// name of each says behind it, and it names them exactly if there is such a
/// line for both.
pub proof fn law_secrets_are_read_from_the_last_lines(
    env: &str,
    all: Vec<String>,
    r: Option<(String, String)>,
)
    requires
        call_ensures(lines, (env,), all),
        call_ensures(parse_env, (env,), r),
    ensures
        r matches Some(named) ==> {
            &&& exists|i: int|
                last_with(texts(all@), "DATABASEENCRYPTSECRET="@, i) && #[trigger] texts(all@)[i]
                    == "DATABASEENCRYPTSECRET="@ + named.0@
            &&& exists|i: int|
                last_with(texts(all@), "SOFTWARESECRET="@, i) && #[trigger] texts(all@)[i]
                    == "SOFTWARESECRET="@ + named.1@
        },
        r is None ==> {
            ||| forall|i: int|
                0 <= i < all@.len() ==> !"DATABASEENCRYPTSECRET="@.is_prefix_of(
                    #[trigger] texts(all@)[i],
                )
            ||| forall|i: int|
                0 <= i < all@.len() ==> !"SOFTWARESECRET="@.is_prefix_of(
                    #[trigger] texts(all@)[i],
                )
        },
{
    lemma_last_value(texts(all@), "DATABASEENCRYPTSECRET="@);
    lemma_last_value(texts(all@), "SOFTWARESECRET="@);
}

/// The database of an archive that opens takes the place of the live one, staged
/// beside it; without a database, or with one that does not open, the live one
/// stays.
pub proof fn law_import_swaps_what_opens(
    step: ImportDatabase,
    database: Option<Vec<u8>>,
    stage: AppResult<ImportStage>,
    opens: bool,
    swap: AppResult<ImportSwap>,
)
    requires
        call_ensures(ImportDatabase::read, (step, database), stage),
        stage is Ok ==> call_ensures(ImportStage::opened, (stage->Ok_0, opens), swap),
    ensures
        stage is Ok <==> database is Some,
        stage is Ok ==> stage->Ok_0.database@ == database->0@ && stage->Ok_0.staged@
            == step.staged@,
        stage is Err ==> stage->Err_0@ == Failure::Validation(
            "missing pwd_manager.db in archive"@,
        ),
        stage is Ok ==> (swap is Ok <==> opens),
        stage is Ok && swap is Ok ==> swap->Ok_0.staged@ == step.staged@,
        stage is Ok && swap is Err ==> swap->Err_0@ == Failure::Validation(
            "imported db is not a valid SQLite database"@,
        ),
{
}

} // verus!
