//! What storing and changing a password leave in the database.

use vstd::prelude::*;

use crate::config::Config;
use crate::domain::group::Group;
use crate::domain::one_of;
use crate::domain::password::{password_stored, Password};
use crate::error::{AppResult, Failure};
use crate::laws::plain::{
    days_until_close, key_between, lapsed, lemma_days, lemma_key, lemma_plain, plain_in,
};
use crate::outside::hex_bytes;
use crate::routes::passwords::{
    create_handler, entry_result, update_handler, CreateChecked, CreateGroup, CreateInsert,
    CreatePasswordRequest, PasswordEntry, UpdateChecked, UpdateLookup, UpdatePasswordRequest,
    UpdateSource, UpdateTarget, UpdateWrite,
};
use crate::routes::Session;
use crate::time::Timestamp;

verus! {

/// A password that was created is a new row at the end of the table, under the
/// identifier that was drawn, with the name, the notes and the group of the
/// request. Where the request has no name it has an empty one, where it has no
/// notes it has `{}`. Its window opens at the moment of creation and is as long
/// as the request asks, within a day and a year, or thirty days.
pub proof fn law_created_password_is_what_was_sent(
    request: CreatePasswordRequest,
    session: Session,
    config: Config,
    checked: AppResult<CreateChecked>,
    sealed: AppResult<CreateGroup>,
    group: Option<Group>,
    uuid: String,
    now: Timestamp,
    made: AppResult<CreateInsert>,
    before: Seq<Password>,
    after: Seq<Password>,
)
    requires
        call_ensures(create_handler, (request,), checked),
        checked is Ok,
        call_ensures(CreateChecked::authorized, (checked->Ok_0, &session, &config), sealed),
        sealed is Ok,
        call_ensures(CreateGroup::found_at, (sealed->Ok_0, group, uuid, now), made),
        made is Ok,
        made->Ok_0.command.effect(before, after),
    ensures
        group is Some,
        group->0.user_id@ == session.owner(),
        after.len() == before.len() + 1,
        after.take(before.len() as int) == before,
        after.last().uuid@ == uuid@,
        after.last().group_id@ == request.group_id@,
        request.name matches Some(name) ==> after.last().name@ == name@,
        request.name is None ==> after.last().name@.len() == 0,
        request.extra matches Some(extra) ==> after.last().extra@ == extra@,
        request.extra is None ==> after.last().extra@ == seq!['{', '}'],
        after.last().valid_since == now,
        request.valid_since_days is None ==> after.last().valid_since_days == 30,
        request.valid_since_days matches Some(days) ==> {
            &&& 1 <= days <= 365 ==> after.last().valid_since_days == days
            &&& days < 1 ==> after.last().valid_since_days == 1
            &&& days > 365 ==> after.last().valid_since_days == 365
        },
        !lapsed(after.last(), now@),
{
    reveal_strlit("{}");
    let new = made->Ok_0.command->Insert_0;
    let row = choose|row: Password| #[trigger]
        password_stored(new, row) && after == before.push(row);
    assert(after.last() == row);
    assert(after.take(before.len() as int) =~= before);
    assert("{}"@ =~= seq!['{', '}']);
}

/// What is stored of a password opens, under the secret of the database, to what
/// the device sealed, and so does what is shown of it to any device.
pub proof fn law_created_password_opens_to_what_was_sealed(
    step: CreateChecked,
    session: Session,
    config: Config,
    sealed: AppResult<CreateGroup>,
    key: Seq<u8>,
)
    requires
        call_ensures(CreateChecked::authorized, (step, &session, &config), sealed),
        key_between(session.identity(), config.database_encrypt_secret@) == Some(key),
        plain_in(step.request.pwd@, key) is Some,
        plain_in(step.request.pwd@, key)->0.len() <= 68_719_476_736,
    ensures
        sealed is Ok,
        plain_in(sealed->Ok_0.pwd@, config.database_encrypt_secret@) == plain_in(
            step.request.pwd@,
            key,
        ),
        sealed->Ok_0.owner@ == session.owner(),
{
    let secret = config.database_encrypt_secret@;
    lemma_key(session.identity(), secret);
    lemma_plain(hex_bytes(step.request.pwd@), key);
    if sealed is Ok {
        lemma_plain(hex_bytes(sealed->Ok_0.pwd@), secret);
    }
}

/// A password can be created in a group of one's own and in no other, and the
/// creation looks for the very group that the request names.
pub proof fn law_creation_needs_a_group_of_ones_own(
    step: CreateGroup,
    groups: Seq<Group>,
    group: Option<Group>,
    uuid: String,
    now: Timestamp,
    made: AppResult<CreateInsert>,
)
    requires
        one_of(groups, |g: Group| step.key.finds(g), group),
        call_ensures(CreateGroup::found_at, (step, group, uuid, now), made),
    ensures
        made is Ok <==> group is Some && group->0.user_id@ == step.owner@,
        made is Ok ==> groups.contains(group->0) && group->0.uuid@ == step.key->Uuid_0@,
        made matches Err(e) ==> e@ == Failure::Unauthorized("unauthorized"@),
{
    let wanted = |g: Group| step.key.finds(g);
    if group is Some {
        assert(wanted(group->0));
    }
}

/// A password is created at a moment that the clock gives.
pub proof fn law_creation_goes_by_the_clock(
    step: CreateGroup,
    group: Option<Group>,
    made: AppResult<CreateInsert>,
)
    requires
        call_ensures(CreateGroup::found, (step, group), made),
        made is Ok,
    ensures
        made->Ok_0.command is Insert,
        made->Ok_0.command->Insert_0.valid_since.given(),
        crate::chance::drawn_uuid(made->Ok_0.command->Insert_0.uuid@),
        made->Ok_0.command->Insert_0.group_id@ == step.request.group_id@,
        made->Ok_0.command->Insert_0.pwd@ == step.pwd@,
        step.request.name matches Some(name) ==> made->Ok_0.command->Insert_0.name@ == name@,
        step.request.extra matches Some(extra) ==> made->Ok_0.command->Insert_0.extra@ == extra@,
{
}

/// The answer to a creation shows the stored row, at a moment that the clock
/// gives.
pub proof fn law_creation_answers_with_the_row(
    step: CreateInsert,
    row: Password,
    session: Session,
    config: Config,
    r: AppResult<PasswordEntry>,
)
    requires
        call_ensures(CreateInsert::stored, (step, &row, &session, &config), r),
        r is Ok,
    ensures
        r->Ok_0.uuid@ == row.uuid@,
        r->Ok_0.valid_since_days == row.valid_since_days,
        r->Ok_0.created_at@ == crate::time::moment_text(row.created_at@),
        r->Ok_0.updated_at@ == crate::time::moment_text(row.updated_at@),
        exists|now: Timestamp| #[trigger]
            now.given() && days_until_close(
                r->Ok_0.expires as int,
                row.valid_since@,
                row.valid_since_days as int,
                now@,
            ),
{
    let now = choose|now: Timestamp| #[trigger]
        now.given() && entry_result(
            r,
            row,
            session.identity(),
            config.database_encrypt_secret@,
            now@,
        );
    lemma_days(row, now@);
}

/// An update gives the row with the identifier in the request the group of the
/// request, its name and its notes where it gives any and the former ones where
/// it gives none, and opens its window anew at the moment of the update. Its time
/// of creation and the length of its window stay, and so does every other row.
pub proof fn law_updated_password_is_what_was_sent(
    uuid: String,
    request: UpdatePasswordRequest,
    session: Session,
    config: Config,
    checked: AppResult<UpdateChecked>,
    first: UpdateLookup,
    existing: Option<Password>,
    second: AppResult<UpdateSource>,
    source: Option<Group>,
    third: AppResult<UpdateTarget>,
    target: Option<Group>,
    now: Timestamp,
    made: AppResult<UpdateWrite>,
    before: Seq<Password>,
    after: Seq<Password>,
    i: int,
)
    requires
        call_ensures(update_handler, (uuid, request), checked),
        checked is Ok,
        call_ensures(UpdateChecked::authorized, (checked->Ok_0, &session), first),
        call_ensures(UpdateLookup::found, (first, existing), second),
        second is Ok,
        call_ensures(UpdateSource::found, (second->Ok_0, source), third),
        third is Ok,
        call_ensures(UpdateTarget::found_at, (third->Ok_0, target, &session, &config, now), made),
        made is Ok,
        made->Ok_0.command.effect(before, after),
        0 <= i < before.len(),
    ensures
        source is Some && source->0.user_id@ == session.owner(),
        target is Some && target->0.user_id@ == session.owner(),
        after.len() == before.len(),
        before[i].uuid@ != uuid@ ==> after[i] == before[i],
        before[i].uuid@ == uuid@ ==> {
            &&& after[i].uuid == before[i].uuid
            &&& after[i].group_id@ == request.group_id@
            &&& request.name matches Some(name) ==> after[i].name@ == name@
            &&& request.name is None ==> after[i].name == before[i].name
            &&& request.extra matches Some(extra) ==> after[i].extra@ == extra@
            &&& request.extra is None ==> after[i].extra == before[i].extra
            &&& after[i].valid_since_days == before[i].valid_since_days
            &&& after[i].valid_since == now
            &&& after[i].updated_at == now
            &&& after[i].created_at == before[i].created_at
        },
{
}

/// What an update stores of a password opens, under the secret of the database,
/// to what the device sealed.
pub proof fn law_updated_password_opens_to_what_was_sealed(
    step: UpdateTarget,
    target: Option<Group>,
    session: Session,
    config: Config,
    now: Timestamp,
    made: AppResult<UpdateWrite>,
    key: Seq<u8>,
)
    requires
        call_ensures(UpdateTarget::found_at, (step, target, &session, &config, now), made),
        key_between(session.identity(), config.database_encrypt_secret@) == Some(key),
        plain_in(step.request.pwd@, key) is Some,
        plain_in(step.request.pwd@, key)->0.len() <= 68_719_476_736,
    ensures
        made is Ok <==> target is Some && target->0.user_id@ == step.owner@,
        made is Ok ==> made->Ok_0.command is Update && made->Ok_0.command->changes.pwd is Some
            && plain_in(
            made->Ok_0.command->changes.pwd->0@,
            config.database_encrypt_secret@,
        ) == plain_in(step.request.pwd@, key),
        made matches Err(e) ==> e@ == Failure::Unauthorized("unauthorized"@),
{
    let secret = config.database_encrypt_secret@;
    lemma_key(session.identity(), secret);
    lemma_plain(hex_bytes(step.request.pwd@), key);
    if made is Ok {
        lemma_plain(hex_bytes(made->Ok_0.command->changes.pwd->0@), secret);
    }
}

/// An update is written at a moment that the clock gives, which becomes the time
/// of change and the start of the window.
pub proof fn law_update_goes_by_the_clock(
    step: UpdateTarget,
    target: Option<Group>,
    session: Session,
    config: Config,
    made: AppResult<UpdateWrite>,
)
    requires
        call_ensures(UpdateTarget::found, (step, target, &session, &config), made),
        made is Ok,
    ensures
        made->Ok_0.command is Update,
        made->Ok_0.command->Update_updated_at.given(),
        made->Ok_0.command->valid_since == made->Ok_0.command->Update_updated_at,
        made->Ok_0.command->Update_uuid@ == step.uuid@,
        made->Ok_0.command->changes.name == step.request.name,
        made->Ok_0.command->changes.extra == step.request.extra,
        made->Ok_0.command->changes.group_id == Some(step.request.group_id),
{
}

/// An update looks for the password of the request, for the group that it is in
/// and for the group that it goes to. Each that is missing or belongs to another
/// account is answered alike.
pub proof fn law_update_checks_both_groups(
    checked: UpdateChecked,
    session: Session,
    first: UpdateLookup,
    existing: Option<Password>,
    second: AppResult<UpdateSource>,
    source: Option<Group>,
    third: AppResult<UpdateTarget>,
)
    requires
        call_ensures(UpdateChecked::authorized, (checked, &session), first),
        call_ensures(UpdateLookup::found, (first, existing), second),
        second is Ok ==> call_ensures(UpdateSource::found, (second->Ok_0, source), third),
    ensures
        first.key->Uuid_0@ == checked.uuid@,
        second is Ok <==> existing is Some,
        second is Ok ==> second->Ok_0.key->Uuid_0@ == existing->0.group_id@,
        second matches Err(e) ==> e@ == Failure::Unauthorized("unauthorized"@),
        second is Ok ==> (third is Ok <==> source is Some && source->0.user_id@
            == session.owner()),
        second is Ok && third is Ok ==> third->Ok_0.key->Uuid_0@ == checked.request.group_id@,
        second is Ok && third is Err ==> third->Err_0@ == Failure::Unauthorized("unauthorized"@),
{
}

/// A name of up to 256 characters and notes of up to 4096 are taken, longer ones
/// are refused, both when a password is created and when it is changed.
pub proof fn law_names_and_notes_have_their_lengths(
    create: CreatePasswordRequest,
    created: AppResult<CreateChecked>,
    uuid: String,
    update: UpdatePasswordRequest,
    updated: AppResult<UpdateChecked>,
)
    requires
        call_ensures(create_handler, (create,), created),
        call_ensures(update_handler, (uuid, update), updated),
    ensures
        created is Ok <==> (create.name matches Some(name) ==> name@.len() <= 256) && (
        create.extra matches Some(extra) ==> extra@.len() <= 4096),
        created is Ok ==> created->Ok_0.request == create,
        updated is Ok <==> (update.name matches Some(name) ==> name@.len() <= 256) && (
        update.extra matches Some(extra) ==> extra@.len() <= 4096),
        updated is Ok ==> updated->Ok_0.request == update && updated->Ok_0.uuid == uuid,
        created matches Err(e) ==> e@ is Validation,
        updated matches Err(e) ==> e@ is Validation,
{
}

} // verus!
