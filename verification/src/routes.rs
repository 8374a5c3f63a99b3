//! Decision cores of the room-administration routes.
//!
//! The routes themselves are thin store round-trips; what they decide —
//! which lookups reject the request with what error, whether the room row
//! is deleted, and which notice goes on the room's bus — is here, over the
//! plain results of those lookups.

use vstd::prelude::*;
use vstd::string::StringExecFns;

use crate::codec;
use crate::codec::spec_encode;
use crate::errors::{ServiceError, STATUS_BAD_REQUEST, STATUS_UNAUTHORIZED};
use crate::records::{Member, Room, User};
use crate::wire::{ClientWsMessage, ClientWsMessageType, WireView};

verus! {

/// Body of the signup route.
#[derive(Clone, Debug)]
pub struct NewUserRequest {
    pub name: String,
    pub password: String,
}

/// Body of the login route.
#[derive(Clone, Debug)]
pub struct LoginRequest {
    pub name: String,
    pub password: String,
}

/// Body of the room-creation route.
#[derive(Clone, Debug)]
pub struct CreateRoomRequest {
    pub name: String,
}

/// Body of the member-removal route.
#[derive(Clone, Debug)]
pub struct RemoveUserRequest {
    pub user_name: String,
}

/// The notice published when a member leaves a room by request.
pub open spec fn spec_user_leave_notice(member_id: i64, member_name: Seq<char>) -> WireView {
    WireView {
        member_id,
        member_name,
        message_type: ClientWsMessageType::Leave,
        message: "left the room by user's request"@,
    }
}

/// The notice published when a room's creator removes a member: a kick
/// targeting that member, delivered only by the target's own sender.
pub open spec fn spec_kick_notice(member_id: i64, member_name: Seq<char>) -> WireView {
    WireView {
        member_id,
        member_name,
        message_type: ClientWsMessageType::Kick,
        message: "user is kicked"@,
    }
}

/// Gate of the join route: whether the upgrade to a live connection may
/// proceed, and whether a membership row must still be created.
pub fn join_room(room: &Room, existing_member: Option<&Member>) -> (r: Result<
    bool,
    ServiceError,
>)
    ensures
        match r {
            Ok(create_member) => room.deleted_at is None && create_member == (existing_member
                is None),
            Err(e) => room.deleted_at is Some && e.code == STATUS_BAD_REQUEST && e.message@
                == "Room is deleted"@,
        },
{
    if room.deleted_at.is_some() {
        return Err(ServiceError::new(STATUS_BAD_REQUEST, "Room is deleted"));
    }
    Ok(existing_member.is_none())
}

/// What the leave route sends back on success.
#[derive(Clone, Debug)]
pub struct LeaveResponse {
    pub room_name: String,
    pub created_at: i64,
    pub member_id: i64,
    pub active_members_count: i64,
}

/// What a successful leave asks its caller to do and to answer.
#[derive(Clone, Debug)]
pub struct LeaveOutcome {
    /// Whether the room row itself must be soft-deleted (no members left).
    pub delete_room: bool,
    /// The encoded departure notice to publish on the room's bus.
    pub notice: Vec<u8>,
    pub response: LeaveResponse,
}

/// Decision core of the leave route.  `room` is the result of the room
/// lookup; `deleted_member` of the membership soft-delete; the count and
/// the leaver's name are fetched only on the path where both succeeded,
/// and are ignored on any other.
pub fn leave_room(
    room: Option<&Room>,
    deleted_member: Option<&Member>,
    active_members: i64,
    user_name: &str,
) -> (r: Result<LeaveOutcome, ServiceError>)
    ensures
        match r {
            Ok(out) => {
                &&& room is Some
                &&& deleted_member is Some
                &&& out.delete_room == (active_members == 0)
                &&& out.notice@ == spec_encode(
                    spec_user_leave_notice(deleted_member.unwrap().id, user_name@),
                )
                &&& out.response.room_name@ == room.unwrap().name@
                &&& out.response.created_at == room.unwrap().created_at
                &&& out.response.member_id == deleted_member.unwrap().id
                &&& out.response.active_members_count == active_members
            },
            Err(e) => {
                &&& (room is None || deleted_member is None)
                &&& (room is None ==> e.code == STATUS_BAD_REQUEST && e.message@
                    == "Room does not exist"@)
                &&& (room is Some ==> e.code == STATUS_BAD_REQUEST && e.message@
                    == "User is not a member of the room"@)
            },
        },
{
    let room = match room {
        Some(room) => room,
        None => {
            return Err(ServiceError::new(STATUS_BAD_REQUEST, "Room does not exist"));
        },
    };
    let member = match deleted_member {
        Some(member) => member,
        None => {
            return Err(ServiceError::new(STATUS_BAD_REQUEST, "User is not a member of the room"));
        },
    };
    let notice_msg = ClientWsMessage {
        member_id: member.id,
        member_name: user_name.to_owned(),
        message_type: ClientWsMessageType::Leave,
        message: String::from_str("left the room by user's request"),
    };
    Ok(
        LeaveOutcome {
            delete_room: active_members == 0,
            notice: codec::encode(&notice_msg),
            response: LeaveResponse {
                room_name: room.name.clone(),
                created_at: room.created_at,
                member_id: member.id,
                active_members_count: active_members,
            },
        },
    )
}

/// What the member-removal route sends back on success.
#[derive(Clone, Debug)]
pub struct RemoveResponse {
    pub room_name: String,
    pub created_at: i64,
    pub removed_user_id: i64,
    pub removed_user_name: String,
    pub active_members_count: i64,
}

/// What a successful removal asks its caller to do and to answer.
#[derive(Clone, Debug)]
pub struct RemoveOutcome {
    /// Whether the room row itself must be soft-deleted (no members left).
    pub delete_room: bool,
    /// The encoded kick notice to publish on the room's bus, if the room
    /// still has live connections.
    pub notice: Vec<u8>,
    pub response: RemoveResponse,
}

/// Decision core of the member-removal route.  Only the room's creator may
/// remove a member; `target` is the user named in the request (fetched
/// only once the requester is authorised), `deleted_member` the result of
/// the membership soft-delete.
pub fn remove_member(
    room: Option<&Room>,
    requester_user_id: i64,
    target: &User,
    deleted_member: Option<&Member>,
    active_members: i64,
) -> (r: Result<RemoveOutcome, ServiceError>)
    ensures
        match r {
            Ok(out) => {
                &&& room is Some
                &&& requester_user_id == room.unwrap().created_by
                &&& deleted_member is Some
                &&& out.delete_room == (active_members == 0)
                &&& out.notice@ == spec_encode(
                    spec_kick_notice(deleted_member.unwrap().id, target.name@),
                )
                &&& out.response.room_name@ == room.unwrap().name@
                &&& out.response.created_at == room.unwrap().created_at
                &&& out.response.removed_user_id == target.id
                &&& out.response.removed_user_name@ == target.name@
                &&& out.response.active_members_count == active_members
            },
            Err(e) => {
                &&& (room is None ==> e.code == STATUS_BAD_REQUEST && e.message@
                    == "Room does not exist"@)
                &&& (room is Some && requester_user_id != room.unwrap().created_by ==> e.code
                    == STATUS_UNAUTHORIZED && e.message@ == "Unauthorized"@)
                &&& (room is Some && requester_user_id == room.unwrap().created_by
                    ==> deleted_member is None && e.code == STATUS_BAD_REQUEST && e.message@
                    == "User is not a member of the room"@)
            },
        },
{
    let room = match room {
        Some(room) => room,
        None => {
            return Err(ServiceError::new(STATUS_BAD_REQUEST, "Room does not exist"));
        },
    };
    if requester_user_id != room.created_by {
        return Err(ServiceError::new(STATUS_UNAUTHORIZED, "Unauthorized"));
    }
    let member = match deleted_member {
        Some(member) => member,
        None => {
            return Err(ServiceError::new(STATUS_BAD_REQUEST, "User is not a member of the room"));
        },
    };
    let notice_msg = ClientWsMessage {
        member_id: member.id,
        member_name: target.name.clone(),
        message_type: ClientWsMessageType::Kick,
        message: String::from_str("user is kicked"),
    };
    Ok(
        RemoveOutcome {
            delete_room: active_members == 0,
            notice: codec::encode(&notice_msg),
            response: RemoveResponse {
                room_name: room.name.clone(),
                created_at: room.created_at,
                removed_user_id: target.id,
                removed_user_name: target.name.clone(),
                active_members_count: active_members,
            },
        },
    )
}

} // verus!
