//! Plain images of the persisted rows the hub consumes.
//!
//! The store owns these shapes; the hub only reads a few fields of them.
//! Timestamps are Unix-epoch seconds, so the rows are plain data here and
//! the store's own date type stays at the boundary.

use vstd::prelude::*;

verus! {

/// A room row: a persisted grouping of members and messages.
#[derive(Clone, Debug)]
pub struct Room {
    pub id: i64,
    pub name: String,
    pub created_by: i64,
    pub created_at: i64,
    pub deleted_at: Option<i64>,
}

/// A membership row: one user's join record in one room, soft-deleted on
/// leave.
#[derive(Clone, Debug)]
pub struct Member {
    pub id: i64,
    pub room_id: i64,
    pub user_id: i64,
    pub created_at: i64,
    pub last_joined_at: i64,
    pub deleted_at: Option<i64>,
}

/// A user row.
#[derive(Clone, Debug)]
pub struct User {
    pub id: i64,
    pub name: String,
    pub password: String,
    pub created_at: i64,
}

/// A stored chat line.
#[derive(Clone, Debug)]
pub struct Message {
    pub id: i64,
    pub room_id: i64,
    pub sender_id: i64,
    pub msg: String,
    pub created_at: i64,
}

} // verus!
