//! The event router and the per-connection state machine.
//!
//! Each inbound frame is decoded and classified in one pass: a well-formed
//! frame whose payload variant matches its declared action becomes a routing
//! decision; anything else is malformed and is dropped without touching any
//! state — the connection stays open and reads on.  The decisions that need
//! no outside call are completed here: a join registers the connection and
//! produces the unicast catch-up frame; a playback change stores the snapshot
//! and produces the room broadcast.  A chat decision is completed by
//! [`crate::message::add_message`] and
//! [`crate::message::broadcast_message`] once the store calls are done.

use vstd::prelude::*;

use crate::ConnId;
use crate::codec::{catch_up_frame, encode_catch_up, encode_video_action, parse_event, video_frame};
use crate::events::{ActionType, EventPayloadV, SyncInfo, SyncInfoV, WebsocketEvent, WebsocketEventV};
use crate::registry::{Broadcast, Registry, delivers_to, room_members};
use crate::sync::{SyncStore, get_sync_info, set_sync_info};

verus! {

/// What one inbound frame asks the relay to do.
#[derive(Debug)]
pub enum RouteDecision {
    /// The frame did not decode, or its payload did not match its action:
    /// drop it and read on.
    Malformed,
    /// A recognised frame the relay does nothing for (an unknown action, or a
    /// member leaving — no cleanup in this design).
    Ignored,
    /// A member joins a room: persist the membership, then complete the join.
    Join { room_id: String, user_id: String },
    /// A chat message: persist it and resolve the sender, then broadcast.
    Chat { room_id: String, user_id: String, text: String },
    /// A playback change: store the snapshot and broadcast it.
    Playback { room_id: String, sync: SyncInfo },
}

/// The mathematical value of a [`RouteDecision`].
#[verifier::ext_equal]
pub ghost enum RouteDecisionV {
    Malformed,
    Ignored,
    Join { room_id: Seq<char>, user_id: Seq<char> },
    Chat { room_id: Seq<char>, user_id: Seq<char>, text: Seq<char> },
    Playback { room_id: Seq<char>, sync: SyncInfoV },
}

impl View for RouteDecision {
    type V = RouteDecisionV;

    open spec fn view(&self) -> RouteDecisionV {
        match self {
            RouteDecision::Malformed => RouteDecisionV::Malformed,
            RouteDecision::Ignored => RouteDecisionV::Ignored,
            RouteDecision::Join { room_id, user_id } => RouteDecisionV::Join {
                room_id: room_id@,
                user_id: user_id@,
            },
            RouteDecision::Chat { room_id, user_id, text } => RouteDecisionV::Chat {
                room_id: room_id@,
                user_id: user_id@,
                text: text@,
            },
            RouteDecision::Playback { room_id, sync } => RouteDecisionV::Playback {
                room_id: room_id@,
                sync: sync@,
            },
        }
    }
}

/// Whether the payload variant is the one the declared action calls for.
pub open spec fn payload_matches_action(e: WebsocketEventV) -> bool {
    match e.action {
        ActionType::UserJoined => e.payload is UserJoined,
        ActionType::Message => e.payload is ChatMessage,
        ActionType::Play | ActionType::Pause | ActionType::Skip => e.payload is VideoAction,
        ActionType::UserLeft | ActionType::Unknown => true,
    }
}

/// How one decoded event routes.  A join and a chat take their identities
/// from the payload; a playback change takes its room from the envelope, and
/// an envelope without one is malformed.  A payload that does not match the
/// declared action is malformed.  Unknown actions and member-left events are
/// ignored.
pub open spec fn classify_spec(e: WebsocketEventV) -> RouteDecisionV {
    match e.action {
        ActionType::UserJoined => match e.payload {
            EventPayloadV::UserJoined { user_id, room_id } => RouteDecisionV::Join {
                room_id: room_id,
                user_id: user_id,
            },
            _ => RouteDecisionV::Malformed,
        },
        ActionType::Message => match e.payload {
            EventPayloadV::ChatMessage { user_id, room_id, message } => RouteDecisionV::Chat {
                room_id: room_id,
                user_id: user_id,
                text: message,
            },
            _ => RouteDecisionV::Malformed,
        },
        ActionType::Play | ActionType::Pause | ActionType::Skip => match e.payload {
            EventPayloadV::VideoAction { sync } => match e.room_id {
                Some(room_id) => RouteDecisionV::Playback { room_id: room_id, sync: sync },
                None => RouteDecisionV::Malformed,
            },
            _ => RouteDecisionV::Malformed,
        },
        ActionType::UserLeft | ActionType::Unknown => RouteDecisionV::Ignored,
    }
}

/// How one raw frame routes: decode, then classify; a frame outside the
/// grammar is malformed.
pub open spec fn route_spec(s: Seq<char>) -> RouteDecisionV {
    match parse_event(s) {
        None => RouteDecisionV::Malformed,
        Some(e) => classify_spec(e),
    }
}

/// Classifies one decoded event.
pub fn classify_event(e: WebsocketEvent) -> (d: RouteDecision)
    ensures
        d@ == classify_spec(e@),
{
    match e.action {
        ActionType::UserJoined => match e.payload {
            crate::events::EventPayload::UserJoined(data) => RouteDecision::Join {
                room_id: data.room_id,
                user_id: data.user_id,
            },
            _ => RouteDecision::Malformed,
        },
        ActionType::Message => match e.payload {
            crate::events::EventPayload::ChatMessage(data) => RouteDecision::Chat {
                room_id: data.room_id,
                user_id: data.user_id,
                text: data.message,
            },
            _ => RouteDecision::Malformed,
        },
        ActionType::Play | ActionType::Pause | ActionType::Skip => match e.payload {
            crate::events::EventPayload::VideoAction(sync) => match e.room_id {
                Some(room_id) => RouteDecision::Playback { room_id, sync },
                None => RouteDecision::Malformed,
            },
            _ => RouteDecision::Malformed,
        },
        ActionType::UserLeft | ActionType::Unknown => RouteDecision::Ignored,
    }
}

/// Routes one inbound frame: decodes it and classifies the event.  Pure — a
/// malformed frame asks for nothing and changes nothing.
pub fn handle_frame(text: &str) -> (d: RouteDecision)
    ensures
        d@ == route_spec(text@),
        d@ matches RouteDecisionV::Playback { sync, .. } ==> sync.wf(),
{
    match crate::codec::decode_event(text) {
        None => RouteDecision::Malformed,
        Some(e) => classify_event(e),
    }
}

/// The catch-up frame a member joining `room` receives, given the sync
/// store's current value: the room's snapshot, or `null` when none exists.
pub open spec fn catch_up_of(m: Map<Seq<char>, SyncInfoV>, room: Seq<char>) -> Seq<char> {
    catch_up_frame(
        if m.contains_key(room) {
            Some(m[room])
        } else {
            None
        },
    )
}

/// Completes a join, after the membership was persisted outside: registers
/// the connection for `(room_id, user_id)` and returns the catch-up frame to
/// unicast to it — the room's current snapshot, read, not changed.
pub fn handle_join(
    registry: &mut Registry,
    room_sync: &SyncStore,
    room_id: &String,
    user_id: &String,
    conn: ConnId,
) -> (frame: String)
    requires
        old(registry).wf(),
        room_sync.wf(),
    ensures
        final(registry).wf(),
        final(registry)@ == old(registry)@.insert(
            room_id@,
            room_members(old(registry)@, room_id@).insert(user_id@, conn),
        ),
        frame@ == catch_up_of(room_sync@, room_id@),
{
    let snapshot = get_sync_info(room_id.clone(), room_sync);
    let frame = encode_catch_up(&snapshot);
    registry.register(room_id, user_id, conn);
    frame
}

/// Completes a playback change: stores the snapshot — latest write wins —
/// and returns the delivery plan that announces it to every member currently
/// registered in the room.
pub fn handle_playback(
    registry: &Registry,
    room_sync: &mut SyncStore,
    room_id: &String,
    sync: SyncInfo,
) -> (b: Broadcast)
    requires
        registry.wf(),
        old(room_sync).wf(),
        sync@.wf(),
    ensures
        final(room_sync).wf(),
        final(room_sync)@ == old(room_sync)@.insert(room_id@, sync@),
        b.frame@ == video_frame(sync@),
        delivers_to(b.recipients@, room_members(registry@, room_id@)),
{
    let frame = encode_video_action(&sync);
    set_sync_info(room_id.clone(), sync, room_sync);
    registry.broadcast(room_id, frame)
}

/// The life of one physical connection.
#[derive(Debug, Clone, Copy, PartialEq, Eq, Structural)]
pub enum ConnPhase {
    /// Accepted, handshake not finished.
    Connecting,
    /// Handshake done; frames are read and routed.
    Open,
    /// Closed by a close frame, a transport error, or the end of the stream.
    Closed,
}

/// What the transport reports about one connection.
#[derive(Debug, Clone, Copy, PartialEq, Eq, Structural)]
pub enum TransportEvent {
    /// The handshake succeeded.
    HandshakeOk,
    /// The handshake failed — fatal for this connection only.
    HandshakeFailed,
    /// A frame arrived; it is routed, whatever it holds.
    Frame,
    /// The peer sent a close frame.
    CloseFrame,
    /// Reading failed.
    ReadError,
    /// The stream ended.
    StreamEnd,
}

/// The connection state machine: `Connecting` becomes `Open` only on a
/// successful handshake; while `Open`, frames keep it `Open` — malformed ones
/// included — and a close frame, a read error, or the end of the stream ends
/// it; `Closed` is final.
pub open spec fn phase_step(phase: ConnPhase, event: TransportEvent) -> ConnPhase {
    match phase {
        ConnPhase::Connecting => match event {
            TransportEvent::HandshakeOk => ConnPhase::Open,
            _ => ConnPhase::Closed,
        },
        ConnPhase::Open => match event {
            TransportEvent::Frame => ConnPhase::Open,
            TransportEvent::CloseFrame | TransportEvent::ReadError | TransportEvent::StreamEnd
                => ConnPhase::Closed,
            // handshake reports cannot recur; treat them as transport noise
            // that changes nothing
            _ => ConnPhase::Open,
        },
        ConnPhase::Closed => ConnPhase::Closed,
    }
}

/// Advances one connection's phase on a transport event.
pub fn transport_step(phase: ConnPhase, event: TransportEvent) -> (p: ConnPhase)
    ensures
        p == phase_step(phase, event),
{
    match phase {
        ConnPhase::Connecting => match event {
            TransportEvent::HandshakeOk => ConnPhase::Open,
            _ => ConnPhase::Closed,
        },
        ConnPhase::Open => match event {
            TransportEvent::Frame => ConnPhase::Open,
            TransportEvent::CloseFrame | TransportEvent::ReadError | TransportEvent::StreamEnd
                => ConnPhase::Closed,
            _ => ConnPhase::Open,
        },
        ConnPhase::Closed => ConnPhase::Closed,
    }
}

/// Malformed-frame resilience: a frame that does not decode routes to
/// `Malformed`; so does a frame whose payload variant does not match its
/// declared action (for the actions that carry payloads).  A malformed frame
/// asks for no registry or store change and no delivery, and the connection
/// stays open for the next frame.
pub proof fn lemma_malformed_frame_resilience(t: Seq<char>, e: WebsocketEventV)
    ensures
        parse_event(t) is None ==> route_spec(t) == RouteDecisionV::Malformed,
        (e.action is UserJoined || e.action is Message || e.action is Play || e.action is Pause
            || e.action is Skip) && !payload_matches_action(e) ==> classify_spec(e)
            == RouteDecisionV::Malformed,
        phase_step(ConnPhase::Open, TransportEvent::Frame) == ConnPhase::Open,
{
}

/// Join catch-up sees the latest snapshot: after the store took `s1` and then
/// `s2` for a room — two playback events, in that order — a member joining
/// that room is sent the frame carrying `s2`, never `s1`.
pub proof fn lemma_join_catch_up_latest(
    m: Map<Seq<char>, SyncInfoV>,
    room: Seq<char>,
    s1: SyncInfoV,
    s2: SyncInfoV,
)
    ensures
        catch_up_of(m.insert(room, s1).insert(room, s2), room) == catch_up_frame(Some(s2)),
{
}

} // verus!
