//! The registry of rooms with live connections.
//!
//! A room entry exists exactly while at least one connection is attached to
//! it: the first join creates the entry together with a fresh bus handle,
//! and the leave that empties the member set removes it.  Bus handles are
//! never reused, so a room re-created after its last member left gets a bus
//! that no stale subscriber can still hold.
//!
//! The caller serialises access (one lock around the whole registry, held
//! only across these map updates, never across socket or database work).

use std::collections::HashMap;
use std::collections::HashSet;
use vstd::prelude::*;

verus! {

broadcast use vstd::std_specs::hash::group_hash_axioms;

/// Slot capacity of each room's broadcast bus.
pub const BUS_CAPACITY: usize = 10;

/// One room with live connections: the member ids currently attached, the
/// room's name, and the handle of its broadcast bus.
pub struct RoomState {
    pub clients: HashSet<i64>,
    pub name: String,
    pub bus: u64,
}

/// Mathematical image of a [`RoomState`].
#[verifier::ext_equal]
pub struct RoomView {
    pub members: Set<i64>,
    pub name: Seq<char>,
    pub bus: u64,
}

impl View for RoomState {
    type V = RoomView;

    open spec fn view(&self) -> RoomView {
        RoomView { members: self.clients@, name: self.name@, bus: self.bus }
    }
}

/// The room registry: room id to live room state, plus the next bus handle
/// to hand out.
pub struct Lobby {
    pub rooms: HashMap<i64, RoomState>,
    pub next_bus: u64,
}

/// Mathematical image of a [`Lobby`].
#[verifier::ext_equal]
pub struct LobbyView {
    pub rooms: Map<i64, RoomView>,
    pub next_bus: u64,
}

impl View for Lobby {
    type V = LobbyView;

    open spec fn view(&self) -> LobbyView {
        LobbyView {
            rooms: Map::new(
                |r: i64| self.rooms@.contains_key(r),
                |r: i64| self.rooms@[r]@,
            ),
            next_bus: self.next_bus,
        }
    }
}

/// Whether anyone is in this member set.
pub open spec fn occupied(members: Set<i64>) -> bool {
    exists|m: i64| members.contains(m)
}

/// The live member set of a room: empty when the room has no entry.
pub open spec fn spec_members(l: LobbyView, room_id: i64) -> Set<i64> {
    if l.rooms.contains_key(room_id) {
        l.rooms[room_id].members
    } else {
        Set::empty()
    }
}

impl LobbyView {
    /// Registry invariant: every entry has at least one live member, and
    /// every bus handle in use was handed out before `next_bus`.
    pub open spec fn wf(self) -> bool {
        forall|r: i64| #[trigger]
            self.rooms.contains_key(r) ==> occupied(self.rooms[r].members) && self.rooms[r].bus
                < self.next_bus
    }
}

/// The registry after a join, and the bus handle the join receives: an
/// existing room keeps its bus and gains the member; a first join creates
/// the entry with the next fresh bus.
pub open spec fn spec_attach(l: LobbyView, room_id: i64, room_name: Seq<char>, member_id: i64) -> (
    LobbyView,
    u64,
) {
    if l.rooms.contains_key(room_id) {
        let room = l.rooms[room_id];
        let updated = RoomView {
            members: room.members.insert(member_id),
            name: room.name,
            bus: room.bus,
        };
        (LobbyView { rooms: l.rooms.insert(room_id, updated), next_bus: l.next_bus }, room.bus)
    } else {
        let created = RoomView {
            members: Set::empty().insert(member_id),
            name: room_name,
            bus: l.next_bus,
        };
        (
            LobbyView {
                rooms: l.rooms.insert(room_id, created),
                next_bus: (l.next_bus + 1) as u64,
            },
            l.next_bus,
        )
    }
}

/// The registry after a leave, and whether the leave removed the room: the
/// member is dropped from the room's set, the entry disappears when the set
/// empties, and a leave for an unknown room or member changes nothing.
pub open spec fn spec_detach(l: LobbyView, room_id: i64, member_id: i64) -> (LobbyView, bool) {
    if l.rooms.contains_key(room_id) {
        let room = l.rooms[room_id];
        let members = room.members.remove(member_id);
        if members.is_empty() {
            (LobbyView { rooms: l.rooms.remove(room_id), next_bus: l.next_bus }, true)
        } else {
            let updated = RoomView { members, name: room.name, bus: room.bus };
            (LobbyView { rooms: l.rooms.insert(room_id, updated), next_bus: l.next_bus }, false)
        }
    } else {
        (l, false)
    }
}

/// A join preserves the registry invariant.
pub proof fn lemma_attach_preserves_wf(l: LobbyView, room_id: i64, room_name: Seq<char>, member_id: i64)
    requires
        l.wf(),
        l.next_bus < u64::MAX,
    ensures
        spec_attach(l, room_id, room_name, member_id).0.wf(),
{
    let after = spec_attach(l, room_id, room_name, member_id).0;
    assert forall|r: i64| #[trigger] after.rooms.contains_key(r) implies occupied(
        after.rooms[r].members,
    ) && after.rooms[r].bus < after.next_bus by {
        if r == room_id {
            assert(after.rooms[r].members.contains(member_id));
        } else {
            assert(l.rooms.contains_key(r));
        }
    }
}

/// A leave preserves the registry invariant.
pub proof fn lemma_detach_preserves_wf(l: LobbyView, room_id: i64, member_id: i64)
    requires
        l.wf(),
    ensures
        spec_detach(l, room_id, member_id).0.wf(),
{
    let after = spec_detach(l, room_id, member_id).0;
    assert forall|r: i64| #[trigger] after.rooms.contains_key(r) implies occupied(
        after.rooms[r].members,
    ) && after.rooms[r].bus < after.next_bus by {
        assert(l.rooms.contains_key(r));
        if r == room_id {
            let members = l.rooms[room_id].members.remove(member_id);
            assert(!members.is_empty());
            assert(occupied(members)) by {
                let w = choose|m: i64| members.contains(m);
                assert(members.contains(w) || !occupied(members));
                if !occupied(members) {
                    assert(forall|m: i64| !members.contains(m));
                    assert(members =~= Set::empty());
                }
            }
        }
    }
}

/// A room has an entry in the registry exactly while its live member set is
/// non-empty: no orphan entries, no missing entries while members remain.
pub proof fn lemma_room_entry_iff_occupied(l: LobbyView, room_id: i64)
    requires
        l.wf(),
    ensures
        l.rooms.contains_key(room_id) <==> occupied(spec_members(l, room_id)),
{
}

/// Re-joining a room one is already in changes nothing: the member set,
/// the bus and the rest of the registry stay as they were, and the join
/// receives the room's existing bus.
pub proof fn lemma_attach_idempotent(
    l: LobbyView,
    room_id: i64,
    room_name: Seq<char>,
    member_id: i64,
)
    requires
        l.rooms.contains_key(room_id),
        l.rooms[room_id].members.contains(member_id),
    ensures
        spec_attach(l, room_id, room_name, member_id).0.rooms =~~= l.rooms,
        spec_attach(l, room_id, room_name, member_id).0.next_bus == l.next_bus,
        spec_attach(l, room_id, room_name, member_id).1 == l.rooms[room_id].bus,
{
    assert(l.rooms[room_id].members.insert(member_id) =~= l.rooms[room_id].members);
}

/// A leave for a member who is not in the room (or for a room with no
/// entry) is a safe no-op: the registry is unchanged and no room is
/// reported removed.
pub proof fn lemma_detach_absent_no_op(l: LobbyView, room_id: i64, member_id: i64)
    requires
        l.wf(),
        l.rooms.contains_key(room_id) ==> !l.rooms[room_id].members.contains(member_id),
    ensures
        spec_detach(l, room_id, member_id).0.rooms =~~= l.rooms,
        spec_detach(l, room_id, member_id).0.next_bus == l.next_bus,
        !spec_detach(l, room_id, member_id).1,
{
    if l.rooms.contains_key(room_id) {
        let members = l.rooms[room_id].members.remove(member_id);
        assert(members =~= l.rooms[room_id].members);
        assert(occupied(members));
        let w = choose|m: i64| members.contains(m);
        assert(!members.is_empty());
    }
}

/// Two first joins of the same room id in a row create exactly one room
/// entry and one bus: the second join receives the bus the first created,
/// both members are in the one entry's set, and only one bus handle was
/// consumed.
pub proof fn lemma_concurrent_first_joins_share_one_room(
    l: LobbyView,
    room_id: i64,
    name_a: Seq<char>,
    name_b: Seq<char>,
    a: i64,
    b: i64,
)
    requires
        l.wf(),
        !l.rooms.contains_key(room_id),
        l.next_bus < u64::MAX,
    ensures
        ({
            let (l1, bus_a) = spec_attach(l, room_id, name_a, a);
            let (l2, bus_b) = spec_attach(l1, room_id, name_b, b);
            &&& bus_b == bus_a
            &&& l2.rooms.dom() =~= l.rooms.dom().insert(room_id)
            &&& l2.rooms[room_id].members.contains(a)
            &&& l2.rooms[room_id].members.contains(b)
            &&& l2.next_bus == l.next_bus + 1
        }),
{
    let (l1, bus_a) = spec_attach(l, room_id, name_a, a);
    let (l2, bus_b) = spec_attach(l1, room_id, name_b, b);
    assert(l2.rooms.dom() =~= l.rooms.dom().insert(room_id));
}

/// When the last member leaves, the entry is removed, and a later join of
/// the same room id receives a brand-new bus, distinct from every bus the
/// registry held before the leave: no stale subscriber of the old bus can
/// see the new room's traffic.
pub proof fn lemma_last_leave_then_rejoin_gets_fresh_bus(
    l: LobbyView,
    room_id: i64,
    leaver: i64,
    room_name: Seq<char>,
    joiner: i64,
)
    requires
        l.wf(),
        spec_members(l, room_id) =~= Set::empty().insert(leaver),
        l.next_bus < u64::MAX,
    ensures
        ({
            let (l1, now_empty) = spec_detach(l, room_id, leaver);
            let (l2, fresh_bus) = spec_attach(l1, room_id, room_name, joiner);
            &&& now_empty
            &&& !l1.rooms.contains_key(room_id)
            &&& l2.rooms[room_id].bus == fresh_bus
            &&& forall|r: i64| #[trigger] l.rooms.contains_key(r) ==> l.rooms[r].bus != fresh_bus
        }),
{
    assert(spec_members(l, room_id).contains(leaver));
    assert(l.rooms.contains_key(room_id)) by {
        if !l.rooms.contains_key(room_id) {
            assert(spec_members(l, room_id) =~= Set::empty());
        }
    }
    let members = l.rooms[room_id].members.remove(leaver);
    assert(members =~= Set::empty());
    assert(members.is_empty());
}

/// The bus handle a join returns is the handle of the room's entry after
/// the join, so the joining connection subscribes to the same bus every
/// other occupant of the room publishes on.
pub proof fn lemma_attach_returns_room_bus(l: LobbyView, room_id: i64, room_name: Seq<char>, member_id: i64)
    ensures
        ({
            let (l1, bus) = spec_attach(l, room_id, room_name, member_id);
            &&& l1.rooms.contains_key(room_id)
            &&& l1.rooms[room_id].bus == bus
            &&& l1.rooms[room_id].members.contains(member_id)
        }),
{
}

/// What a join hands back: the bus to subscribe to, and whether this join
/// created the room (so the caller must set up the bus itself).
pub struct AttachResult {
    pub bus: u64,
    pub created: bool,
}

impl RoomState {
    /// A freshly created room: no members yet, with the given bus.
    pub fn new(name: String, bus: u64) -> (st: RoomState)
        ensures
            st@.members =~= Set::empty(),
            st@.name == name@,
            st@.bus == bus,
    {
        RoomState { clients: HashSet::new(), name, bus }
    }
}

impl Lobby {
    /// An empty registry; no bus handle has been handed out yet.
    pub fn new() -> (l: Lobby)
        ensures
            l@.rooms =~= Map::<i64, RoomView>::empty(),
            l@.next_bus == 0,
            l@.wf(),
    {
        let l = Lobby { rooms: HashMap::new(), next_bus: 0 };
        proof {
            assert(l@.rooms =~= Map::<i64, RoomView>::empty());
        }
        l
    }

    /// Join a room: create its entry on first join, add the member
    /// (idempotently), and return the room's bus handle.
    pub fn attach(&mut self, room_id: i64, room_name: String, member_id: i64) -> (r: AttachResult)
        requires
            old(self)@.wf(),
            old(self)@.next_bus < u64::MAX,
        ensures
            final(self)@ == spec_attach(old(self)@, room_id, room_name@, member_id).0,
            r.bus == spec_attach(old(self)@, room_id, room_name@, member_id).1,
            r.created == !old(self)@.rooms.contains_key(room_id),
            final(self)@.wf(),
    {
        proof {
            lemma_attach_preserves_wf(self@, room_id, room_name@, member_id);
        }
        let ghost before = self@;
        match self.rooms.remove(&room_id) {
            Some(mut st) => {
                st.clients.insert(member_id);
                let bus: u64 = st.bus;
                self.rooms.insert(room_id, st);
                proof {
                    assert(self@ =~~= spec_attach(before, room_id, room_name@, member_id).0);
                }
                AttachResult { bus, created: false }
            },
            None => {
                let mut st = RoomState::new(room_name, self.next_bus);
                st.clients.insert(member_id);
                let bus: u64 = self.next_bus;
                self.next_bus = self.next_bus + 1;
                self.rooms.insert(room_id, st);
                proof {
                    assert(self@ =~~= spec_attach(before, room_id, room_name@, member_id).0);
                }
                AttachResult { bus, created: true }
            },
        }
    }

    /// Leave a room: drop the member from its set, remove the entry if the
    /// set empties, and report whether the room was removed.  A leave for a
    /// room or member that is not there is a no-op.
    pub fn detach(&mut self, room_id: i64, member_id: i64) -> (now_empty: bool)
        requires
            old(self)@.wf(),
        ensures
            final(self)@ == spec_detach(old(self)@, room_id, member_id).0,
            now_empty == spec_detach(old(self)@, room_id, member_id).1,
            final(self)@.wf(),
    {
        proof {
            lemma_detach_preserves_wf(self@, room_id, member_id);
        }
        let ghost before = self@;
        match self.rooms.remove(&room_id) {
            Some(mut st) => {
                st.clients.remove(&member_id);
                if st.clients.is_empty() {
                    proof {
                        assert(self@ =~~= spec_detach(before, room_id, member_id).0);
                    }
                    true
                } else {
                    self.rooms.insert(room_id, st);
                    proof {
                        assert(self@ =~~= spec_detach(before, room_id, member_id).0);
                    }
                    false
                }
            },
            None => {
                proof {
                    assert(self@ =~~= spec_detach(before, room_id, member_id).0);
                }
                false
            },
        }
    }
}

} // verus!
