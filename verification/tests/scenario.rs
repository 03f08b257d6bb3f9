use lofi_party::db::{Message, Room, User};
use lofi_party::message::{add_message, broadcast_message};
use lofi_party::registry::{Broadcast, Registry};
use lofi_party::router::{
    ConnPhase, RouteDecision, TransportEvent, handle_frame, handle_join, handle_playback,
    transport_step,
};
use lofi_party::sync::{SyncStore, get_sync_info};

/// The durable store, simulated with the library's own documents.
struct FakeStore {
    rooms: Vec<Room>,
    users: Vec<User>,
    fail_writes: bool,
}

impl FakeStore {
    fn new() -> FakeStore {
        FakeStore { rooms: Vec::new(), users: Vec::new(), fail_writes: false }
    }

    fn with_room(mut self, room_id: &str) -> FakeStore {
        self.rooms.push(Room {
            id: format!("oid-{}", self.rooms.len()),
            room_id: room_id.to_string(),
            users: Vec::new(),
            messages: Vec::new(),
            platform: "Netflix".to_string(),
        });
        self
    }

    fn with_user(mut self, id: &str, username: &str, name: &str, avatar: &str) -> FakeStore {
        self.users.push(User {
            id: Some(id.to_string()),
            username: username.to_string(),
            name: name.to_string(),
            avatar: avatar.to_string(),
        });
        self
    }

    fn add_member(&mut self, room_id: &str, user_id: &str) -> bool {
        if self.fail_writes {
            return false;
        }
        for room in self.rooms.iter_mut() {
            if room.room_id == room_id {
                room.add_member(&user_id.to_string());
                return true;
            }
        }
        false
    }

    fn insert_message(&mut self, room_id: &str, m: Message) -> bool {
        if self.fail_writes {
            return false;
        }
        for room in self.rooms.iter_mut() {
            if room.room_id == room_id {
                room.append_message(m);
                return true;
            }
        }
        false
    }

    fn find_profile(&self, user_id: &str) -> Option<User> {
        self.users.iter().find(|u| u.id.as_deref() == Some(user_id)).map(|u| u.clone())
    }

    fn room_has_message(&self, room_id: &str, text: &str) -> bool {
        self.rooms
            .iter()
            .any(|r| r.room_id == room_id && r.messages.iter().any(|m| m.message == text))
    }
}

/// The transport, simulated: every connection has an inbox, and a closed
/// connection refuses writes.
struct FakeNet {
    inboxes: Vec<(u64, Vec<String>)>,
    closed: Vec<u64>,
}

impl FakeNet {
    fn new() -> FakeNet {
        FakeNet { inboxes: Vec::new(), closed: Vec::new() }
    }

    fn connect(&mut self, conn: u64) {
        self.inboxes.push((conn, Vec::new()));
    }

    fn send(&mut self, conn: u64, frame: &str) -> bool {
        if self.closed.contains(&conn) {
            return false;
        }
        for (c, inbox) in self.inboxes.iter_mut() {
            if *c == conn {
                inbox.push(frame.to_string());
                return true;
            }
        }
        false
    }

    fn inbox(&self, conn: u64) -> &[String] {
        for (c, inbox) in self.inboxes.iter() {
            if *c == conn {
                return inbox;
            }
        }
        &[]
    }
}

/// Carries one delivery plan out: each send failure is skipped, delivery to
/// the remaining recipients goes on, and nothing is raised to the caller.
fn deliver(net: &mut FakeNet, plan: &Broadcast) {
    for r in plan.recipients.iter() {
        let _ = net.send(r.conn, &plan.frame);
    }
}

/// One connection's frame arriving at the relay: route it, run the store
/// calls a decision asks for, and deliver what comes out.
fn step(
    store: &mut FakeStore,
    registry: &mut Registry,
    room_sync: &mut SyncStore,
    net: &mut FakeNet,
    conn: u64,
    frame: &str,
) {
    match handle_frame(frame) {
        RouteDecision::Malformed | RouteDecision::Ignored => {},
        RouteDecision::Join { room_id, user_id } => {
            if !store.add_member(&room_id, &user_id) {
                return;
            }
            let catch_up = handle_join(registry, room_sync, &room_id, &user_id, conn);
            let _ = net.send(conn, &catch_up);
        },
        RouteDecision::Chat { room_id, user_id, text } => {
            let message = Message { user_id, message: text };
            let persisted = store.insert_message(&room_id, message.clone());
            let profile = store.find_profile(&message.user_id);
            match add_message(persisted, &profile, &message) {
                Ok(enriched) => {
                    let plan = broadcast_message(registry, &room_id, &enriched);
                    deliver(net, &plan);
                },
                Err(_) => {},
            }
        },
        RouteDecision::Playback { room_id, sync } => {
            let plan = handle_playback(registry, room_sync, &room_id, sync);
            deliver(net, &plan);
        },
    }
}

fn join_frame(user_id: &str, room_id: &str) -> String {
    format!(
        "{{\"action\":\"user_joined\",\"room_id\":null,\"user_id\":null,\"payload\":{{\"type\":\"UserJoined\",\"data\":{{\"user_id\":\"{}\",\"room_id\":\"{}\"}}}}}}",
        user_id, room_id,
    )
}

fn play_frame(room_id: &str, user_id: &str, time: &str, updated_at: &str) -> String {
    format!(
        "{{\"action\":\"play\",\"room_id\":\"{}\",\"user_id\":\"{}\",\"payload\":{{\"type\":\"VideoAction\",\"data\":{{\"last_action\":\"Play\",\"time\":{},\"updated_at\":{},\"updated_by\":\"{}\"}}}}}}",
        room_id, user_id, time, updated_at, user_id,
    )
}

fn chat_frame(room_id: &str, user_id: &str, text: &str) -> String {
    format!(
        "{{\"action\":\"message\",\"room_id\":null,\"user_id\":null,\"payload\":{{\"type\":\"ChatMessage\",\"data\":{{\"user_id\":\"{}\",\"room_id\":\"{}\",\"message\":\"{}\"}}}}}}",
        user_id, room_id, text,
    )
}

#[test]
fn end_to_end_watch_party() {
    let mut store = FakeStore::new()
        .with_room("lofi-42")
        .with_user("A", "ann-1", "Ann", "a.png")
        .with_user("B", "bob-2", "Bob", "b.png")
        .with_user("C", "cas-3", "Cas", "c.png");
    let mut registry = Registry::new();
    let mut room_sync = SyncStore::new();
    let mut net = FakeNet::new();
    net.connect(1);
    net.connect(2);
    net.connect(3);

    // member A joins with no prior snapshot: catch-up carries null
    step(&mut store, &mut registry, &mut room_sync, &mut net, 1, &join_frame("A", "lofi-42"));
    assert_eq!(
        net.inbox(1).to_vec(),
        vec!["{\"response_type\":\"UserJoined\",\"data\":null}".to_string()],
    );

    // member B joins, then sends a playback change; A and B both receive it
    step(&mut store, &mut registry, &mut room_sync, &mut net, 2, &join_frame("B", "lofi-42"));
    step(
        &mut store,
        &mut registry,
        &mut room_sync,
        &mut net,
        2,
        &play_frame("lofi-42", "B", "12.5", "1700000000"),
    );
    let video = "{\"response_type\":\"VideoAction\",\"data\":{\"last_action\":\"Play\",\"time\":12.5,\"updated_at\":1700000000,\"updated_by\":\"B\"}}";
    assert_eq!(net.inbox(1).last().map(|s| s.as_str()), Some(video));
    assert_eq!(net.inbox(2).last().map(|s| s.as_str()), Some(video));

    // member C joins afterwards: the catch-up carries that same snapshot
    step(&mut store, &mut registry, &mut room_sync, &mut net, 3, &join_frame("C", "lofi-42"));
    assert_eq!(
        net.inbox(3).to_vec(),
        vec!["{\"response_type\":\"UserJoined\",\"data\":{\"last_action\":\"Play\",\"time\":12.5,\"updated_at\":1700000000,\"updated_by\":\"B\"}}".to_string()],
    );

    // B sends a chat message: everyone in the room receives it, enriched
    step(&mut store, &mut registry, &mut room_sync, &mut net, 2, &chat_frame("lofi-42", "B", "hi"));
    let chat = "{\"response_type\":\"Message\",\"data\":{\"user_id\":\"B\",\"username\":\"bob-2\",\"name\":\"Bob\",\"avatar\":\"b.png\",\"message\":\"hi\"}}";
    assert_eq!(net.inbox(1).last().map(|s| s.as_str()), Some(chat));
    assert_eq!(net.inbox(2).last().map(|s| s.as_str()), Some(chat));
    assert_eq!(net.inbox(3).last().map(|s| s.as_str()), Some(chat));

    // the persisted member set grew once per join
    assert_eq!(store.rooms[0].users, vec!["A".to_string(), "B".to_string(), "C".to_string()]);
}

#[test]
fn join_catch_up_sees_the_most_recent_snapshot() {
    let mut store = FakeStore::new().with_room("r").with_user("A", "a", "A", "x");
    let mut registry = Registry::new();
    let mut room_sync = SyncStore::new();
    let mut net = FakeNet::new();
    net.connect(1);
    net.connect(2);

    // two playback events before anyone joins; the second must win
    step(&mut store, &mut registry, &mut room_sync, &mut net, 1, &play_frame("r", "B", "1", "50"));
    step(&mut store, &mut registry, &mut room_sync, &mut net, 1, &play_frame("r", "B", "2", "60"));
    step(&mut store, &mut registry, &mut room_sync, &mut net, 2, &join_frame("A", "r"));
    assert_eq!(
        net.inbox(2).to_vec(),
        vec!["{\"response_type\":\"UserJoined\",\"data\":{\"last_action\":\"Play\",\"time\":2,\"updated_at\":60,\"updated_by\":\"B\"}}".to_string()],
    );
}

#[test]
fn malformed_frame_changes_nothing_and_the_connection_reads_on() {
    let mut store = FakeStore::new().with_room("r").with_user("A", "a", "A", "x").with_user(
        "B", "b", "B", "y",
    );
    let mut registry = Registry::new();
    let mut room_sync = SyncStore::new();
    let mut net = FakeNet::new();
    net.connect(1);
    net.connect(2);
    step(&mut store, &mut registry, &mut room_sync, &mut net, 1, &join_frame("A", "r"));
    step(&mut store, &mut registry, &mut room_sync, &mut net, 2, &join_frame("B", "r"));

    // action says chat, payload says join: a mismatched frame
    let mismatched = "{\"action\":\"message\",\"room_id\":null,\"user_id\":null,\"payload\":{\"type\":\"UserJoined\",\"data\":{\"user_id\":\"A\",\"room_id\":\"r\"}}}";
    assert!(matches!(handle_frame(mismatched), RouteDecision::Malformed));
    let mut phase = ConnPhase::Open;
    phase = transport_step(phase, TransportEvent::Frame);
    assert_eq!(phase, ConnPhase::Open);
    step(&mut store, &mut registry, &mut room_sync, &mut net, 1, mismatched);

    // nothing was stored, nothing was delivered
    assert!(get_sync_info("r".to_string(), &room_sync).is_none());
    assert!(store.rooms[0].messages.is_empty());
    assert_eq!(net.inbox(1).len(), 1);
    assert_eq!(net.inbox(2).len(), 1);

    // and the next valid frame still goes through to everyone
    step(&mut store, &mut registry, &mut room_sync, &mut net, 1, &chat_frame("r", "A", "still here"));
    assert_eq!(net.inbox(1).len(), 2);
    assert_eq!(net.inbox(2).len(), 2);
}

#[test]
fn partial_failure_reaches_the_remaining_members() {
    let mut store = FakeStore::new().with_room("r");
    for (id, name) in [("A", "a"), ("B", "b"), ("C", "c")] {
        store = store.with_user(id, name, name, "x");
    }
    let mut registry = Registry::new();
    let mut room_sync = SyncStore::new();
    let mut net = FakeNet::new();
    for conn in [1, 2, 3] {
        net.connect(conn);
    }
    step(&mut store, &mut registry, &mut room_sync, &mut net, 1, &join_frame("A", "r"));
    step(&mut store, &mut registry, &mut room_sync, &mut net, 2, &join_frame("B", "r"));
    step(&mut store, &mut registry, &mut room_sync, &mut net, 3, &join_frame("C", "r"));

    // one member's connection dies; a broadcast still reaches the other two
    net.closed.push(2);
    step(&mut store, &mut registry, &mut room_sync, &mut net, 1, &play_frame("r", "A", "5", "70"));
    assert_eq!(net.inbox(1).len(), 2);
    assert_eq!(net.inbox(2).len(), 1); // only its own catch-up
    assert_eq!(net.inbox(3).len(), 2);
}

#[test]
fn no_chat_is_delivered_that_is_not_in_the_store() {
    let mut store = FakeStore::new().with_room("r").with_user("A", "a", "A", "x").with_user(
        "B", "b", "B", "y",
    );
    let mut registry = Registry::new();
    let mut room_sync = SyncStore::new();
    let mut net = FakeNet::new();
    net.connect(1);
    net.connect(2);
    step(&mut store, &mut registry, &mut room_sync, &mut net, 1, &join_frame("A", "r"));
    step(&mut store, &mut registry, &mut room_sync, &mut net, 2, &join_frame("B", "r"));

    // with the store failing, a chat produces no delivery at all
    store.fail_writes = true;
    step(&mut store, &mut registry, &mut room_sync, &mut net, 1, &chat_frame("r", "A", "lost"));
    assert_eq!(net.inbox(1).len(), 1);
    assert_eq!(net.inbox(2).len(), 1);
    assert!(!store.room_has_message("r", "lost"));

    // with the store healthy, every delivered chat is already persisted: the
    // message is in the store at the moment each inbox receives it
    store.fail_writes = false;
    step(&mut store, &mut registry, &mut room_sync, &mut net, 1, &chat_frame("r", "A", "kept"));
    assert!(store.room_has_message("r", "kept"));
    assert_eq!(net.inbox(1).len(), 2);
    assert_eq!(net.inbox(2).len(), 2);
}
