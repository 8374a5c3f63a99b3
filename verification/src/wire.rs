//! The message exchanged on a room's broadcast bus.
//!
//! Whether a message is durably recorded is a structural property of its
//! kind: only `Message`-kind traffic is chat content; `Leave` and `Kick`
//! are system notices that the durable writer must never store.

use vstd::prelude::*;

verus! {

/// The kind of a bus message: user chat content, a departure notice, or a
/// targeted removal order.
#[derive(Clone, Copy, Debug, PartialEq, Eq, Structural)]
pub enum ClientWsMessageType {
    Message,
    Leave,
    Kick,
}

/// One message on a room's bus: who said it, under what name, of what kind,
/// and the text shown to the other occupants.
#[derive(Clone, Debug)]
pub struct ClientWsMessage {
    pub member_id: i64,
    pub member_name: String,
    pub message_type: ClientWsMessageType,
    pub message: String,
}

/// Mathematical image of a [`ClientWsMessage`]: strings as character
/// sequences, everything else as-is.
pub struct WireView {
    pub member_id: i64,
    pub member_name: Seq<char>,
    pub message_type: ClientWsMessageType,
    pub message: Seq<char>,
}

impl View for ClientWsMessage {
    type V = WireView;

    open spec fn view(&self) -> WireView {
        WireView {
            member_id: self.member_id,
            member_name: self.member_name@,
            message_type: self.message_type,
            message: self.message@,
        }
    }
}

/// A message is skipped by the durable writer exactly when it is not user
/// chat content; there is no separate flag to keep in sync.
pub open spec fn spec_db_skip_write(kind: ClientWsMessageType) -> bool {
    kind != ClientWsMessageType::Message
}

impl ClientWsMessage {
    /// Whether the durable writer must not store this message as a chat line.
    pub fn db_skip_write(&self) -> (skip: bool)
        ensures
            skip == spec_db_skip_write(self.message_type),
    {
        match self.message_type {
            ClientWsMessageType::Message => false,
            ClientWsMessageType::Leave => true,
            ClientWsMessageType::Kick => true,
        }
    }
}

} // verus!
