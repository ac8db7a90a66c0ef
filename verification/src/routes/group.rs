//! `/group/*`: the groups of an account, and the devices that wait for
//! approval.

use vstd::prelude::*;

use crate::chance::{drawn_uuid, fresh_uuid};
use crate::domain::group::{Group, GroupCommand, GroupList, NewGroup};
use crate::domain::identity::{Identity, IdentityList};
use crate::error::{length_checked, validate_length, AppResult, Failure};
use crate::outside::is_uuid_v4;
use crate::routes::admin::{set_confirm, ConfirmLookup};
use crate::routes::{AdminPass, Session};

verus! {

/// The longest name of a group, in characters.
pub const MAX_GROUP_NAME_LEN: usize = 128;

#[derive(Debug)]
pub struct GroupResponse {
    pub uuid: String,
    pub name: String,
    pub extra: String,
}

#[derive(Debug)]
pub struct CreateGroupRequest {
    pub name: String,
    pub extra: Option<String>,
}

/// A request to create that keeps to its length.
#[derive(Debug)]
pub struct GroupChecked {
    pub request: CreateGroupRequest,
}

/// The one step of a creation: store the group.
#[derive(Debug)]
pub struct GroupInsert {
    pub command: GroupCommand,
}

/// Whether a response shows a group.
pub open spec fn group_shown(response: GroupResponse, group: Group) -> bool {
    &&& response.uuid@ == group.uuid@
    &&& response.name@ == group.name@
    &&& response.extra@ == group.extra@
}

/// Checks a request to create a group.
pub fn create_handler(request: CreateGroupRequest) -> (r: AppResult<GroupChecked>)
    ensures
        match r {
            Ok(step) => length_checked("group name"@, request.name@, MAX_GROUP_NAME_LEN as nat)
                is Ok && step.request == request,
            Err(e) => length_checked("group name"@, request.name@, MAX_GROUP_NAME_LEN as nat)
                == Err::<(), Failure>(e@),
        },
{
    match validate_length("group name", request.name.as_str(), MAX_GROUP_NAME_LEN) {
        Ok(_) => Ok(GroupChecked { request }),
        Err(e) => Err(e),
    }
}

impl GroupChecked {
    /// Makes the group for the account of the session.
    pub fn authorized(self, session: &Session) -> (r: GroupInsert)
        ensures
            r.command matches GroupCommand::Insert(new) && {
                &&& is_uuid_v4(new.uuid@) && drawn_uuid(new.uuid@)
                &&& new.user_id@ == session.owner()
                &&& new.name == self.request.name
                &&& new.extra@ == match self.request.extra {
                    Some(extra) => extra@,
                    None => "{}"@,
                }
            },
    {
        let new = NewGroup {
            uuid: fresh_uuid(),
            user_id: session.user_id().clone(),
            name: self.request.name,
            extra: match self.request.extra {
                Some(extra) => extra,
                None => "{}".to_string(),
            },
        };
        GroupInsert { command: Group::create(new) }
    }
}

impl GroupInsert {
    /// Shows the stored group.
    pub fn stored(self, group: Group) -> (r: GroupResponse)
        ensures
            group_shown(r, group),
    {
        GroupResponse { uuid: group.uuid, name: group.name, extra: group.extra }
    }
}

/// Asks for the groups of the account of the session.
pub fn list_handler(session: &Session) -> (r: GroupList)
    ensures
        r matches GroupList::User(id) && id@ == session.owner(),
{
    Group::find_by_user(session.user_id().as_str())
}

/// Shows groups, in order.
pub fn groups_listed(groups: &Vec<Group>) -> (r: Vec<GroupResponse>)
    ensures
        r@.len() == groups@.len(),
        forall|i: int| 0 <= i < r@.len() ==> group_shown(#[trigger] r@[i], groups@[i]),
{
    let mut out: Vec<GroupResponse> = Vec::new();
    let mut i: usize = 0;
    while i < groups.len()
        invariant
            i <= groups@.len(),
            out@.len() == i,
            forall|k: int| 0 <= k < i ==> group_shown(#[trigger] out@[k], groups@[k]),
        decreases groups@.len() - i,
    {
        let g = &groups[i];
        out.push(
            GroupResponse { uuid: g.uuid.clone(), name: g.name.clone(), extra: g.extra.clone() },
        );
        i += 1;
    }
    out
}

// ---------------------------------------------------------------------------
// Devices that wait for approval
// ---------------------------------------------------------------------------

#[derive(Debug)]
pub struct PendingIdentity {
    pub uuid: String,
    pub ip_address: String,
}

/// Whether an item shows a device that waits.
pub open spec fn pending_shown(item: PendingIdentity, device: Identity) -> bool {
    item.uuid@ == device.uuid@ && item.ip_address@ == device.ip_address@
}

/// Asks for the devices that wait for approval.
pub fn pending_handler(pass: &AdminPass) -> (r: IdentityList)
    ensures
        r is Pending,
{
    Identity::find_pending()
}

/// Shows the devices that wait, in order.
pub fn pending_listed(devices: &Vec<Identity>) -> (r: Vec<PendingIdentity>)
    ensures
        r@.len() == devices@.len(),
        forall|i: int| 0 <= i < r@.len() ==> pending_shown(#[trigger] r@[i], devices@[i]),
{
    let mut out: Vec<PendingIdentity> = Vec::new();
    let mut i: usize = 0;
    while i < devices.len()
        invariant
            i <= devices@.len(),
            out@.len() == i,
            forall|k: int| 0 <= k < i ==> pending_shown(#[trigger] out@[k], devices@[k]),
        decreases devices@.len() - i,
    {
        let d = &devices[i];
        out.push(PendingIdentity { uuid: d.uuid.clone(), ip_address: d.ip_address.clone() });
        i += 1;
    }
    out
}

/// Approves a device.
pub fn approve_handler(pass: &AdminPass, uuid: &str) -> (r: ConfirmLookup)
    ensures
        r.uuid@ == uuid@,
        r.confirmed,
        r.key matches crate::domain::identity::IdentityKey::Uuid(id) && id@ == uuid@,
{
    set_confirm(uuid, true)
}

} // verus!
