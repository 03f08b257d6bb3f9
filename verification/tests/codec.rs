use lofi_party::codec::{decode_event, encode_catch_up, encode_video_action};
use lofi_party::events::{ActionType, EventPayload, SyncInfo, VideoAction};
use lofi_party::json::check_number_text;
use lofi_party::message::{AddMessageResponse, encode_chat_message};

fn sync(action: VideoAction, time: &str, updated_at: &str, updated_by: &str) -> SyncInfo {
    SyncInfo {
        last_action: action,
        time: time.to_string(),
        updated_at: updated_at.to_string(),
        updated_by: updated_by.to_string(),
    }
}

#[test]
fn decode_join_frame() {
    let frame = "{\"action\":\"user_joined\",\"room_id\":null,\"user_id\":null,\"payload\":{\"type\":\"UserJoined\",\"data\":{\"user_id\":\"A\",\"room_id\":\"lofi-42\"}}}";
    let e = decode_event(frame).expect("frame should decode");
    assert!(matches!(e.action, ActionType::UserJoined));
    assert!(e.room_id.is_none());
    assert!(e.user_id.is_none());
    match e.payload {
        EventPayload::UserJoined(d) => {
            assert_eq!(d.user_id, "A");
            assert_eq!(d.room_id, "lofi-42");
        },
        _ => panic!("wrong payload variant"),
    }
}

#[test]
fn decode_video_frame() {
    let frame = "{\"action\":\"play\",\"room_id\":\"r1\",\"user_id\":\"B\",\"payload\":{\"type\":\"VideoAction\",\"data\":{\"last_action\":\"Play\",\"time\":12.5,\"updated_at\":-1.5e+10,\"updated_by\":\"B\"}}}";
    let e = decode_event(frame).expect("frame should decode");
    assert!(matches!(e.action, ActionType::Play));
    assert_eq!(e.room_id.as_deref(), Some("r1"));
    assert_eq!(e.user_id.as_deref(), Some("B"));
    match e.payload {
        EventPayload::VideoAction(s) => {
            assert!(matches!(s.last_action, VideoAction::Play));
            assert_eq!(s.time, "12.5");
            assert_eq!(s.updated_at, "-1.5e+10");
            assert_eq!(s.updated_by, "B");
        },
        _ => panic!("wrong payload variant"),
    }
}

#[test]
fn decode_chat_frame_with_escapes() {
    let frame = "{\"action\":\"message\",\"room_id\":null,\"user_id\":null,\"payload\":{\"type\":\"ChatMessage\",\"data\":{\"user_id\":\"B\",\"room_id\":\"r1\",\"message\":\"say \\\"hi\\\"\\n\\t\\\\done\"}}}";
    let e = decode_event(frame).expect("frame should decode");
    assert!(matches!(e.action, ActionType::Message));
    match e.payload {
        EventPayload::ChatMessage(d) => {
            assert_eq!(d.user_id, "B");
            assert_eq!(d.room_id, "r1");
            assert_eq!(d.message, "say \"hi\"\n\t\\done");
        },
        _ => panic!("wrong payload variant"),
    }
}

#[test]
fn decode_user_left_frame() {
    let frame = "{\"action\":\"user_left\",\"room_id\":null,\"user_id\":null,\"payload\":{\"type\":\"UserLeft\"}}";
    let e = decode_event(frame).expect("frame should decode");
    assert!(matches!(e.action, ActionType::UserLeft));
    assert!(matches!(e.payload, EventPayload::UserLeft));
}

#[test]
fn decode_unknown_action_word() {
    let frame = "{\"action\":\"dance\",\"room_id\":null,\"user_id\":null,\"payload\":{\"type\":\"UserLeft\"}}";
    let e = decode_event(frame).expect("frame should decode");
    assert!(matches!(e.action, ActionType::Unknown));
}

#[test]
fn decode_rejects_malformed_text() {
    // not the canonical layout at all
    assert!(decode_event("").is_none());
    assert!(decode_event("hello").is_none());
    assert!(decode_event("{}").is_none());
    // whitespace is not canonical
    assert!(decode_event(
        "{ \"action\":\"play\",\"room_id\":null,\"user_id\":null,\"payload\":{\"type\":\"UserLeft\"}}",
    )
        .is_none());
    // unknown payload tag
    assert!(decode_event(
        "{\"action\":\"play\",\"room_id\":null,\"user_id\":null,\"payload\":{\"type\":\"Other\"}}",
    )
        .is_none());
    // trailing garbage
    assert!(decode_event(
        "{\"action\":\"user_left\",\"room_id\":null,\"user_id\":null,\"payload\":{\"type\":\"UserLeft\"}}x",
    )
        .is_none());
    // unterminated string
    assert!(decode_event(
        "{\"action\":\"user_left,\"room_id\":null,\"user_id\":null,\"payload\":{\"type\":\"UserLeft\"}}",
    )
        .is_none());
    // unknown escape
    assert!(decode_event(
        "{\"action\":\"user\\x\",\"room_id\":null,\"user_id\":null,\"payload\":{\"type\":\"UserLeft\"}}",
    )
        .is_none());
    // bare control character inside a string
    assert!(decode_event(
        "{\"action\":\"user\u{0001}\",\"room_id\":null,\"user_id\":null,\"payload\":{\"type\":\"UserLeft\"}}",
    )
        .is_none());
    // a bad number in the snapshot
    assert!(decode_event(
        "{\"action\":\"play\",\"room_id\":\"r\",\"user_id\":null,\"payload\":{\"type\":\"VideoAction\",\"data\":{\"last_action\":\"Play\",\"time\":12.,\"updated_at\":1,\"updated_by\":\"B\"}}}",
    )
        .is_none());
    // an unknown playback word
    assert!(decode_event(
        "{\"action\":\"play\",\"room_id\":\"r\",\"user_id\":null,\"payload\":{\"type\":\"VideoAction\",\"data\":{\"last_action\":\"Stop\",\"time\":1,\"updated_at\":1,\"updated_by\":\"B\"}}}",
    )
        .is_none());
}

#[test]
fn action_type_from_str_words() {
    assert!(matches!(ActionType::from_str("play"), Ok(ActionType::Play)));
    assert!(matches!(ActionType::from_str("pause"), Ok(ActionType::Pause)));
    assert!(matches!(ActionType::from_str("skip"), Ok(ActionType::Skip)));
    assert!(matches!(ActionType::from_str("user_joined"), Ok(ActionType::UserJoined)));
    assert!(matches!(ActionType::from_str("user_left"), Ok(ActionType::UserLeft)));
    assert!(matches!(ActionType::from_str("message"), Ok(ActionType::Message)));
    assert!(matches!(ActionType::from_str("Play"), Ok(ActionType::Unknown)));
    assert!(matches!(ActionType::from_str(""), Ok(ActionType::Unknown)));
}

#[test]
fn video_action_words() {
    assert_eq!(VideoAction::Play.word(), "Play");
    assert_eq!(VideoAction::Pause.word(), "Pause");
    assert_eq!(VideoAction::Skip.word(), "Skip");
    assert!(matches!(VideoAction::from_word("Play"), Some(VideoAction::Play)));
    assert!(matches!(VideoAction::from_word("Pause"), Some(VideoAction::Pause)));
    assert!(matches!(VideoAction::from_word("Skip"), Some(VideoAction::Skip)));
    assert!(VideoAction::from_word("play").is_none());
}

#[test]
fn encode_catch_up_frames() {
    assert_eq!(
        encode_catch_up(&None),
        "{\"response_type\":\"UserJoined\",\"data\":null}",
    );
    let s = sync(VideoAction::Pause, "3.25", "1700000000.5", "B");
    assert_eq!(
        encode_catch_up(&Some(s)),
        "{\"response_type\":\"UserJoined\",\"data\":{\"last_action\":\"Pause\",\"time\":3.25,\"updated_at\":1700000000.5,\"updated_by\":\"B\"}}",
    );
}

#[test]
fn encode_video_action_frame() {
    let s = sync(VideoAction::Skip, "0", "42", "ann");
    assert_eq!(
        encode_video_action(&s),
        "{\"response_type\":\"VideoAction\",\"data\":{\"last_action\":\"Skip\",\"time\":0,\"updated_at\":42,\"updated_by\":\"ann\"}}",
    );
}

#[test]
fn encode_chat_message_frame() {
    let m = AddMessageResponse {
        user_id: "u1".to_string(),
        username: "neat-zebra-7".to_string(),
        name: "Ann".to_string(),
        avatar: "a.png".to_string(),
        message: "say \"hi\"\n\t\\ and \u{0001}".to_string(),
    };
    assert_eq!(
        encode_chat_message(&m),
        "{\"response_type\":\"Message\",\"data\":{\"user_id\":\"u1\",\"username\":\"neat-zebra-7\",\"name\":\"Ann\",\"avatar\":\"a.png\",\"message\":\"say \\\"hi\\\"\\n\\t\\\\ and \\u0001\"}}",
    );
}

#[test]
fn encoded_snapshot_decodes_back() {
    // a frame the relay emits for a snapshot is itself canonical: wrapping it
    // as an inbound playback event decodes to the same snapshot
    let s = sync(VideoAction::Play, "12.5", "1e3", "B");
    let inbound = format!(
        "{{\"action\":\"play\",\"room_id\":\"r\",\"user_id\":null,\"payload\":{{\"type\":\"VideoAction\",\"data\":{{\"last_action\":\"Play\",\"time\":{},\"updated_at\":{},\"updated_by\":\"{}\"}}}}}}",
        s.time, s.updated_at, s.updated_by,
    );
    let e = decode_event(&inbound).expect("round trip should decode");
    match e.payload {
        EventPayload::VideoAction(got) => {
            assert!(matches!(got.last_action, VideoAction::Play));
            assert_eq!(got.time, s.time);
            assert_eq!(got.updated_at, s.updated_at);
            assert_eq!(got.updated_by, s.updated_by);
        },
        _ => panic!("wrong payload variant"),
    }
}

#[test]
fn number_text_checks() {
    for ok in ["0", "12.5", "-3", "1e5", "-2.5E+10", "007", "1e-2", "42"] {
        assert!(check_number_text(ok), "{} should be a number", ok);
    }
    for bad in ["", "-", ".5", "12.", "1e", "abc", "+1", "1.2.3", "12abc", " 1", "1 "] {
        assert!(!check_number_text(bad), "{} should not be a number", bad);
    }
}
