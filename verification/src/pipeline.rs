//! Per-connection pipeline: the decisions of the three tasks that drive
//! one client connection, and the session lifecycle around them.
//!
//! Each connection runs an outbound sender, an inbound receiver and a
//! durable writer over one shared bus.  The loops, the socket and the
//! database live with the caller; this module decides, for every frame or
//! bus payload, what each task does next, and takes the session through
//! `Attaching -> Active -> Draining -> Detached`.

use vstd::prelude::*;
use vstd::string::StringExecFns;

use crate::codec;
use crate::codec::{spec_decode, spec_encode};
use crate::lobby::{spec_attach, spec_detach, AttachResult, Lobby};
use crate::wire::{ClientWsMessage, ClientWsMessageType, WireView};

verus! {

/// Why a connection's driving task stopped waiting: the client's socket
/// failed or sent garbage, or the client closed the connection itself.
#[derive(Clone, Copy, Debug, PartialEq, Eq, Structural)]
pub enum ServerTaskTerminationReason {
    ClientDisconnected,
    ClientLeft,
}

// ---------------------------------------------------------------------------
// Outbound sender
// ---------------------------------------------------------------------------
/// What the outbound sender does with one bus payload.
#[derive(Clone, Debug)]
pub enum SenderAction {
    /// Send this text to the socket and keep consuming.
    Forward(String),
    /// Send this text, then close the connection (the kicked member's own
    /// sender delivers the kick notice and terminates).
    ForwardAndClose(String),
    /// Nothing for this connection; keep consuming.
    Ignore,
}

/// Mathematical image of a [`SenderAction`].
pub enum SenderDecision {
    Forward(Seq<char>),
    ForwardAndClose(Seq<char>),
    Ignore,
}

impl View for SenderAction {
    type V = SenderDecision;

    open spec fn view(&self) -> SenderDecision {
        match self {
            SenderAction::Forward(t) => SenderDecision::Forward(t@),
            SenderAction::ForwardAndClose(t) => SenderDecision::ForwardAndClose(t@),
            SenderAction::Ignore => SenderDecision::Ignore,
        }
    }
}

/// The sender's filtering rule on a decoded message: a kick is delivered
/// only by the target's own sender, which then closes; chat and leave
/// notices go to everyone but their author; everything else is dropped.
pub open spec fn spec_route_to_sender(self_member_id: i64, m: WireView) -> SenderDecision {
    match m.message_type {
        ClientWsMessageType::Kick => if m.member_id == self_member_id {
            SenderDecision::ForwardAndClose(m.message)
        } else {
            SenderDecision::Ignore
        },
        _ => if m.member_id != self_member_id {
            SenderDecision::Forward(m.message)
        } else {
            SenderDecision::Ignore
        },
    }
}

/// The sender's rule on a raw bus payload: decode, then route; a payload
/// that does not decode is a protocol error, skipped by this consumer only.
pub open spec fn spec_sender_step(self_member_id: i64, payload: Seq<u8>) -> SenderDecision {
    match spec_decode(payload) {
        Some(m) => spec_route_to_sender(self_member_id, m),
        None => SenderDecision::Ignore,
    }
}

/// Decide what this connection's sender does with a decoded bus message.
pub fn route_to_sender(self_member_id: i64, m: &ClientWsMessage) -> (a: SenderAction)
    ensures
        a@ == spec_route_to_sender(self_member_id, m@),
{
    match m.message_type {
        ClientWsMessageType::Kick => {
            if m.member_id == self_member_id {
                SenderAction::ForwardAndClose(m.message.clone())
            } else {
                SenderAction::Ignore
            }
        },
        _ => {
            if m.member_id != self_member_id {
                SenderAction::Forward(m.message.clone())
            } else {
                SenderAction::Ignore
            }
        },
    }
}

/// Decide what this connection's sender does with one raw bus payload.
pub fn sender_step(self_member_id: i64, payload: &[u8]) -> (a: SenderAction)
    ensures
        a@ == spec_sender_step(self_member_id, payload@),
{
    match codec::decode(payload) {
        Some(m) => route_to_sender(self_member_id, &m),
        None => SenderAction::Ignore,
    }
}

// ---------------------------------------------------------------------------
// Inbound receiver
// ---------------------------------------------------------------------------
/// One frame read from the client's socket, as plain data.
#[derive(Clone, Debug)]
pub enum Frame {
    Text(String),
    Binary(Vec<u8>),
    Ping(Vec<u8>),
    Pong(Vec<u8>),
    Close,
    /// The socket reported an error or an undecodable frame.
    Malformed,
}

/// Mathematical image of a [`Frame`].
pub enum FrameView {
    Text(Seq<char>),
    Binary(Seq<u8>),
    Ping(Seq<u8>),
    Pong(Seq<u8>),
    Close,
    Malformed,
}

impl View for Frame {
    type V = FrameView;

    open spec fn view(&self) -> FrameView {
        match self {
            Frame::Text(t) => FrameView::Text(t@),
            Frame::Binary(b) => FrameView::Binary(b@),
            Frame::Ping(b) => FrameView::Ping(b@),
            Frame::Pong(b) => FrameView::Pong(b@),
            Frame::Close => FrameView::Close,
            Frame::Malformed => FrameView::Malformed,
        }
    }
}

/// What the inbound receiver does with one socket frame.
#[derive(Clone, Debug)]
pub enum ReceiverAction {
    /// Publish this payload on the room's bus and keep reading.
    Publish(Vec<u8>),
    /// Control traffic with no bus effect; keep reading.
    Ignore,
    /// Stop the task for the given reason; the pipeline starts draining.
    Stop(ServerTaskTerminationReason),
}

/// Mathematical image of a [`ReceiverAction`].
pub enum ReceiverDecision {
    Publish(Seq<u8>),
    Ignore,
    Stop(ServerTaskTerminationReason),
}

impl View for ReceiverAction {
    type V = ReceiverDecision;

    open spec fn view(&self) -> ReceiverDecision {
        match self {
            ReceiverAction::Publish(p) => ReceiverDecision::Publish(p@),
            ReceiverAction::Ignore => ReceiverDecision::Ignore,
            ReceiverAction::Stop(r) => ReceiverDecision::Stop(*r),
        }
    }
}

/// The chat message a text frame from this connection turns into.
pub open spec fn spec_chat_message(
    self_member_id: i64,
    self_member_name: Seq<char>,
    text: Seq<char>,
) -> WireView {
    WireView {
        member_id: self_member_id,
        member_name: self_member_name,
        message_type: ClientWsMessageType::Message,
        message: text,
    }
}

/// The receiver's rule: a text frame becomes an encoded chat message on the
/// bus; a close frame ends the task (the normal way a session ends); an
/// error ends it too; binary and ping/pong traffic has no bus effect.
pub open spec fn spec_receiver_step(
    self_member_id: i64,
    self_member_name: Seq<char>,
    frame: FrameView,
) -> ReceiverDecision {
    match frame {
        FrameView::Text(t) => ReceiverDecision::Publish(
            spec_encode(spec_chat_message(self_member_id, self_member_name, t)),
        ),
        FrameView::Close => ReceiverDecision::Stop(ServerTaskTerminationReason::ClientLeft),
        FrameView::Malformed => ReceiverDecision::Stop(
            ServerTaskTerminationReason::ClientDisconnected,
        ),
        _ => ReceiverDecision::Ignore,
    }
}

/// Decide what this connection's receiver does with one socket frame.
pub fn receiver_step(self_member_id: i64, self_member_name: &String, frame: Frame) -> (a:
    ReceiverAction)
    ensures
        a@ == spec_receiver_step(self_member_id, self_member_name@, frame@),
{
    match frame {
        Frame::Text(t) => {
            let m = ClientWsMessage {
                member_id: self_member_id,
                member_name: self_member_name.clone(),
                message_type: ClientWsMessageType::Message,
                message: t,
            };
            ReceiverAction::Publish(codec::encode(&m))
        },
        Frame::Close => ReceiverAction::Stop(ServerTaskTerminationReason::ClientLeft),
        Frame::Malformed => ReceiverAction::Stop(ServerTaskTerminationReason::ClientDisconnected),
        Frame::Binary(_) => ReceiverAction::Ignore,
        Frame::Ping(_) => ReceiverAction::Ignore,
        Frame::Pong(_) => ReceiverAction::Ignore,
    }
}

// ---------------------------------------------------------------------------
// Durable writer
// ---------------------------------------------------------------------------
/// One chat line the durable writer asks the store to append.
#[derive(Clone, Debug)]
pub struct ChatAppend {
    pub sender_id: i64,
    pub text: String,
}

/// Mathematical image of a [`ChatAppend`].
pub struct ChatAppendView {
    pub sender_id: i64,
    pub text: Seq<char>,
}

impl View for ChatAppend {
    type V = ChatAppendView;

    open spec fn view(&self) -> ChatAppendView {
        ChatAppendView { sender_id: self.sender_id, text: self.text@ }
    }
}

/// The writer's rule on one bus payload: append a chat line exactly for a
/// payload that decodes to a `Message`-kind message; control notices and
/// undecodable payloads are skipped.
pub open spec fn spec_writer_step(payload: Seq<u8>) -> Option<ChatAppendView> {
    match spec_decode(payload) {
        Some(m) => if m.message_type == ClientWsMessageType::Message {
            Some(ChatAppendView { sender_id: m.member_id, text: m.message })
        } else {
            None
        },
        None => None,
    }
}

/// Decide whether one bus payload is stored as a chat line, and as what.
pub fn writer_step(payload: &[u8]) -> (r: Option<ChatAppend>)
    ensures
        r is Some <==> spec_writer_step(payload@) is Some,
        r is Some ==> r.unwrap()@ == spec_writer_step(payload@).unwrap(),
{
    match codec::decode(payload) {
        Some(m) => {
            if m.db_skip_write() {
                None
            } else {
                Some(ChatAppend { sender_id: m.member_id, text: m.message })
            }
        },
        None => None,
    }
}

/// The chat lines a stretch of bus traffic asks the store to append, in
/// bus order.
pub open spec fn spec_writer_attempts(payloads: Seq<Seq<u8>>) -> Seq<ChatAppendView>
    decreases payloads.len(),
{
    if payloads.len() == 0 {
        Seq::empty()
    } else {
        let rest = spec_writer_attempts(payloads.drop_last());
        match spec_writer_step(payloads.last()) {
            Some(a) => rest.push(a),
            None => rest,
        }
    }
}

/// The chat lines actually stored, given the success of each append
/// attempt in order.
pub open spec fn spec_persisted(attempts: Seq<ChatAppendView>, ok: Seq<bool>) -> Seq<
    ChatAppendView,
>
    recommends
        ok.len() == attempts.len(),
    decreases attempts.len(),
{
    if attempts.len() == 0 {
        Seq::empty()
    } else {
        let rest = spec_persisted(attempts.drop_last(), ok.drop_last());
        if ok.len() == attempts.len() && ok.last() {
            rest.push(attempts.last())
        } else {
            rest
        }
    }
}

proof fn lemma_attempts_push(payloads: Seq<Seq<u8>>, p: Seq<u8>)
    ensures
        spec_writer_attempts(payloads.push(p)) == (match spec_writer_step(p) {
            Some(a) => spec_writer_attempts(payloads).push(a),
            None => spec_writer_attempts(payloads),
        }),
{
    assert(payloads.push(p).drop_last() =~= payloads);
    assert(payloads.push(p).last() == p);
}

proof fn lemma_persisted_push(attempts: Seq<ChatAppendView>, ok: Seq<bool>, a: ChatAppendView, o: bool)
    requires
        ok.len() == attempts.len(),
    ensures
        spec_persisted(attempts.push(a), ok.push(o)) == (if o {
            spec_persisted(attempts, ok).push(a)
        } else {
            spec_persisted(attempts, ok)
        }),
{
    assert(attempts.push(a).drop_last() =~= attempts);
    assert(ok.push(o).drop_last() =~= ok);
}

proof fn lemma_attempts_prefix_len(payloads: Seq<Seq<u8>>, i: int)
    requires
        0 <= i <= payloads.len(),
    ensures
        spec_writer_attempts(payloads.subrange(0, i)).len() <= spec_writer_attempts(
            payloads,
        ).len(),
    decreases payloads.len() - i,
{
    if i == payloads.len() {
        assert(payloads.subrange(0, i) =~= payloads);
    } else {
        assert(payloads.subrange(0, i + 1) =~= payloads.subrange(0, i).push(payloads[i]));
        lemma_attempts_push(payloads.subrange(0, i), payloads[i]);
        lemma_attempts_prefix_len(payloads, i + 1);
    }
}

/// Run the writer over a stretch of bus traffic, with `ok` recording, in
/// order, whether each append attempt succeeded; the stored lines are
/// returned.  Every payload is consumed: a failed append skips only its
/// own line and never stops the run.
pub fn writer_run(payloads: &Vec<Vec<u8>>, ok: &Vec<bool>) -> (stored: Vec<ChatAppend>)
    requires
        ok@.len() == spec_writer_attempts(payloads.deep_view()).len(),
    ensures
        stored@.map_values(|c: ChatAppend| c@) == spec_persisted(
            spec_writer_attempts(payloads.deep_view()),
            ok@,
        ),
{
    let ghost pd = payloads.deep_view();
    let mut stored: Vec<ChatAppend> = Vec::new();
    let mut attempt: usize = 0;
    let n: usize = payloads.len();
    let total: usize = ok.len();
    for i in 0..n
        invariant
            n == payloads.len(),
            total == ok@.len(),
            pd == payloads.deep_view(),
            ok@.len() == spec_writer_attempts(pd).len(),
            attempt == spec_writer_attempts(pd.subrange(0, i as int)).len(),
            attempt <= total,
            stored@.map_values(|c: ChatAppend| c@) == spec_persisted(
                spec_writer_attempts(pd.subrange(0, i as int)),
                ok@.subrange(0, attempt as int),
            ),
    {
        proof {
            assert(pd[i as int] == payloads@[i as int]@);
            assert(pd.subrange(0, i + 1) =~= pd.subrange(0, i as int).push(pd[i as int]));
            lemma_attempts_push(pd.subrange(0, i as int), pd[i as int]);
            lemma_attempts_prefix_len(pd, i + 1);
        }
        let ghost prior_attempts = spec_writer_attempts(pd.subrange(0, i as int));
        let ghost prior_ok = ok@.subrange(0, attempt as int);
        match writer_step(payloads[i].as_slice()) {
            Some(row) => {
                proof {
                    assert(attempt + 1 <= total);
                }
                let succeeded: bool = ok[attempt];
                if succeeded {
                    stored.push(row);
                }
                proof {
                    lemma_persisted_push(prior_attempts, prior_ok, row@, succeeded);
                    assert(ok@.subrange(0, attempt + 1) =~= prior_ok.push(ok@[attempt as int]));
                    if succeeded {
                        assert(stored@.map_values(|c: ChatAppend| c@) =~= spec_persisted(
                            prior_attempts,
                            prior_ok,
                        ).push(row@));
                    }
                }
                attempt = attempt + 1;
            },
            None => {
            },
        }
    }
    proof {
        assert(pd.subrange(0, n as int) =~= pd);
        assert(ok@.subrange(0, attempt as int) =~= ok@);
    }
    stored
}

// ---------------------------------------------------------------------------
// Laws of the fan-out and of the writer
// ---------------------------------------------------------------------------
/// A chat message from member `X` is forwarded by every other occupant's
/// sender and never echoed back to `X`'s own.
pub proof fn lemma_chat_fanout_skips_author(m: WireView, other: i64)
    requires
        m.message_type == ClientWsMessageType::Message,
        vstd::utf8::encode_utf8(m.member_name).len() <= u64::MAX,
    ensures
        spec_sender_step(m.member_id, spec_encode(m)) == SenderDecision::Ignore,
        other != m.member_id ==> spec_sender_step(other, spec_encode(m))
            == SenderDecision::Forward(m.message),
{
    codec::lemma_codec_round_trip(m);
}

/// A kick targeting member `Y` is forwarded only by `Y`'s own sender,
/// which then closes the connection; every other occupant's sender drops
/// it.
pub proof fn lemma_kick_reaches_only_target(m: WireView, other: i64)
    requires
        m.message_type == ClientWsMessageType::Kick,
        vstd::utf8::encode_utf8(m.member_name).len() <= u64::MAX,
    ensures
        spec_sender_step(m.member_id, spec_encode(m)) == SenderDecision::ForwardAndClose(
            m.message,
        ),
        other != m.member_id ==> spec_sender_step(other, spec_encode(m))
            == SenderDecision::Ignore,
{
    codec::lemma_codec_round_trip(m);
}

/// The durable writer stores exactly the `Message`-kind traffic: a chat
/// line for every chat message, nothing for a leave or kick notice.
pub proof fn lemma_writer_stores_exactly_chat(m: WireView)
    requires
        vstd::utf8::encode_utf8(m.member_name).len() <= u64::MAX,
    ensures
        m.message_type == ClientWsMessageType::Message ==> spec_writer_step(spec_encode(m))
            == Some(ChatAppendView { sender_id: m.member_id, text: m.message }),
        m.message_type != ClientWsMessageType::Message ==> spec_writer_step(spec_encode(m))
            is None,
{
    codec::lemma_codec_round_trip(m);
}

/// One failed append affects only its own line: every attempt whose own
/// append succeeded is stored, whatever became of any other attempt.
pub proof fn lemma_writer_failure_isolated(attempts: Seq<ChatAppendView>, ok: Seq<bool>, j: int)
    requires
        ok.len() == attempts.len(),
        0 <= j < attempts.len(),
        ok[j],
    ensures
        spec_persisted(attempts, ok).contains(attempts[j]),
    decreases attempts.len(),
{
    if j == attempts.len() - 1 {
        assert(spec_persisted(attempts, ok).last() == attempts[j]);
    } else {
        lemma_writer_failure_isolated(attempts.drop_last(), ok.drop_last(), j);
        let rest = spec_persisted(attempts.drop_last(), ok.drop_last());
        let k = choose|k: int| 0 <= k < rest.len() && rest[k] == attempts.drop_last()[j];
        assert(spec_persisted(attempts, ok)[k] == attempts[j]);
    }
}

/// End to end through the bus: a text frame from one member becomes a
/// payload that every other member's sender forwards as that very text,
/// that the author's own sender ignores, and that the durable writer
/// stores as a chat line under the author's id.
pub proof fn lemma_text_frame_end_to_end(
    self_member_id: i64,
    self_member_name: Seq<char>,
    text: Seq<char>,
    other: i64,
)
    requires
        vstd::utf8::encode_utf8(self_member_name).len() <= u64::MAX,
    ensures
        ({
            let payload = spec_encode(spec_chat_message(self_member_id, self_member_name, text));
            &&& spec_receiver_step(self_member_id, self_member_name, FrameView::Text(text))
                == ReceiverDecision::Publish(payload)
            &&& spec_sender_step(self_member_id, payload) == SenderDecision::Ignore
            &&& other != self_member_id ==> spec_sender_step(other, payload)
                == SenderDecision::Forward(text)
            &&& spec_writer_step(payload) == Some(
                ChatAppendView { sender_id: self_member_id, text },
            )
        }),
{
    codec::lemma_codec_round_trip(spec_chat_message(self_member_id, self_member_name, text));
}

// ---------------------------------------------------------------------------
// Session lifecycle
// ---------------------------------------------------------------------------
/// Where a connection's session stands.
#[derive(Clone, Copy, Debug, PartialEq, Eq, Structural)]
pub enum SessionPhase {
    /// Not yet registered with the room registry.
    Attaching,
    /// Registered; the three tasks are (to be) running.
    Active,
    /// One task finished; the others are being cancelled.
    Draining,
    /// Deregistered; the session is over.
    Detached,
}

/// One connection's session: its identity, its room, and where its
/// lifecycle stands.  Owned by the single pipeline driving the connection.
pub struct Session {
    pub phase: SessionPhase,
    pub room_id: i64,
    pub room_name: String,
    pub member_id: i64,
    pub user_id: i64,
    pub member_name: String,
    pub bus: u64,
}

/// Mathematical image of a [`Session`].
#[verifier::ext_equal]
pub struct SessionView {
    pub phase: SessionPhase,
    pub room_id: i64,
    pub room_name: Seq<char>,
    pub member_id: i64,
    pub user_id: i64,
    pub member_name: Seq<char>,
    pub bus: u64,
}

impl View for Session {
    type V = SessionView;

    open spec fn view(&self) -> SessionView {
        SessionView {
            phase: self.phase,
            room_id: self.room_id,
            room_name: self.room_name@,
            member_id: self.member_id,
            user_id: self.user_id,
            member_name: self.member_name@,
            bus: self.bus,
        }
    }
}

impl SessionView {
    /// The same session in another phase.
    pub open spec fn with_phase(self, phase: SessionPhase) -> SessionView {
        SessionView { phase, ..self }
    }

    /// The same session in another phase, on another bus.
    pub open spec fn with_phase_and_bus(self, phase: SessionPhase, bus: u64) -> SessionView {
        SessionView { phase, bus, ..self }
    }
}

/// The departure notice published (best-effort) when a session detaches.
pub open spec fn spec_leave_notice(member_id: i64, member_name: Seq<char>) -> WireView {
    WireView {
        member_id,
        member_name,
        message_type: ClientWsMessageType::Leave,
        message: member_name + " left the room"@,
    }
}

/// What a teardown asks its caller to do: publish the encoded departure
/// notice on the room's bus (best-effort; a publish with no subscribers
/// left is fine), and persist the member's last-joined timestamp (the
/// column records departures too, a misleading name kept as found).
pub struct Teardown {
    /// Whether the room's entry was removed (the session was its last).
    pub room_removed: bool,
    /// The encoded departure notice to publish.
    pub notice: Vec<u8>,
    /// Room whose member row gets the timestamp update.
    pub update_room_id: i64,
    /// Member whose row gets the timestamp update.
    pub update_member_id: i64,
}

impl Session {
    /// A session for an already-authorised connection, not yet registered.
    pub fn new(
        room_id: i64,
        room_name: String,
        member_id: i64,
        user_id: i64,
        member_name: String,
    ) -> (s: Session)
        ensures
            s@.phase == SessionPhase::Attaching,
            s@.room_id == room_id,
            s@.room_name == room_name@,
            s@.member_id == member_id,
            s@.user_id == user_id,
            s@.member_name == member_name@,
    {
        Session {
            phase: SessionPhase::Attaching,
            room_id,
            room_name,
            member_id,
            user_id,
            member_name,
            bus: 0,
        }
    }

    /// `Attaching -> Active`: register with the room registry and take the
    /// room's bus.  The caller then subscribes twice (sender, writer) and
    /// starts the three tasks.
    pub fn attach(&mut self, lobby: &mut Lobby) -> (r: AttachResult)
        requires
            old(self)@.phase == SessionPhase::Attaching,
            old(lobby)@.wf(),
            old(lobby)@.next_bus < u64::MAX,
        ensures
            final(self)@ == old(self)@.with_phase_and_bus(SessionPhase::Active, r.bus),
            final(lobby)@ == spec_attach(
                old(lobby)@,
                old(self)@.room_id,
                old(self)@.room_name,
                old(self)@.member_id,
            ).0,
            r.bus == spec_attach(
                old(lobby)@,
                old(self)@.room_id,
                old(self)@.room_name,
                old(self)@.member_id,
            ).1,
            r.created == !old(lobby)@.rooms.contains_key(old(self)@.room_id),
            final(lobby)@.wf(),
    {
        let r = lobby.attach(self.room_id, self.room_name.clone(), self.member_id);
        self.phase = SessionPhase::Active;
        self.bus = r.bus;
        proof {
            assert(self@ =~= old(self)@.with_phase_and_bus(SessionPhase::Active, r.bus));
        }
        r
    }

    /// `Active -> Draining`: the first of the three tasks finished, for
    /// whatever reason; the caller must now cancel the other two and await
    /// their shutdown.  No reason ends the session differently.
    pub fn on_task_finished(&mut self, _reason: ServerTaskTerminationReason)
        requires
            old(self)@.phase == SessionPhase::Active,
        ensures
            final(self)@ == old(self)@.with_phase(SessionPhase::Draining),
    {
        self.phase = SessionPhase::Draining;
        proof {
            assert(self@ =~= old(self)@.with_phase(SessionPhase::Draining));
        }
    }

    /// `Draining -> Detached`: with both cancelled tasks gone, deregister
    /// from the room and hand the caller the teardown work that is not
    /// this crate's to do.
    pub fn teardown(&mut self, lobby: &mut Lobby) -> (t: Teardown)
        requires
            old(self)@.phase == SessionPhase::Draining,
            old(lobby)@.wf(),
        ensures
            final(self)@ == old(self)@.with_phase(SessionPhase::Detached),
            final(lobby)@ == spec_detach(old(lobby)@, old(self)@.room_id, old(self)@.member_id).0,
            t.room_removed == spec_detach(
                old(lobby)@,
                old(self)@.room_id,
                old(self)@.member_id,
            ).1,
            t.notice@ == spec_encode(
                spec_leave_notice(old(self)@.member_id, old(self)@.member_name),
            ),
            t.update_room_id == old(self)@.room_id,
            t.update_member_id == old(self)@.member_id,
            final(lobby)@.wf(),
    {
        let room_removed = lobby.detach(self.room_id, self.member_id);
        let mut text = self.member_name.clone();
        text.append(" left the room");
        let notice_msg = ClientWsMessage {
            member_id: self.member_id,
            member_name: self.member_name.clone(),
            message_type: ClientWsMessageType::Leave,
            message: text,
        };
        let notice = codec::encode(&notice_msg);
        self.phase = SessionPhase::Detached;
        proof {
            assert(self@ =~= old(self)@.with_phase(SessionPhase::Detached));
        }
        Teardown {
            room_removed,
            notice,
            update_room_id: self.room_id,
            update_member_id: self.member_id,
        }
    }
}

} // verus!
