//! The wire codec: decoding inbound event frames, encoding outbound
//! response frames.
//!
//! The relay speaks a fixed canonical JSON layout.  An inbound frame is
//!
//! ```text
//! {"action":"<word>","room_id":<null|string>,"user_id":<null|string>,"payload":<payload>}
//! ```
//!
//! where the payload is one of
//!
//! ```text
//! {"type":"UserJoined","data":{"user_id":<string>,"room_id":<string>}}
//! {"type":"UserLeft"}
//! {"type":"VideoAction","data":{"last_action":"<word>","time":<number>,
//!                               "updated_at":<number>,"updated_by":<string>}}
//! {"type":"ChatMessage","data":{"user_id":<string>,"room_id":<string>,"message":<string>}}
//! ```
//!
//! The grammar is written once, as deterministic spec-level scanners; the
//! executable decoder is proved to return exactly what the grammar accepts,
//! and the encoders to produce exactly the spec-level frame text.

use vstd::prelude::*;

use crate::events::{
    ActionType, EventPayload, EventPayloadV, MessageData, SyncInfo, SyncInfoV, UserJoinData,
    VideoAction, WebsocketEvent, WebsocketEventV, action_of_word, video_action_of_word,
    video_action_word,
};
use crate::json::{
    after_lit, chars_to_string, lemma_number_text_sub, lit_at, match_lit, number_end,
    number_end_exec, parse_string, push_char, push_escaped, quoted, str_chars, string_end,
};

verus! {

/// A number field: its verbatim text and the index just past it.
pub open spec fn number_text_end(s: Seq<char>, i: int) -> Option<(Seq<char>, int)> {
    match number_end(s, i) {
        None => None,
        Some(m) => Some((s.subrange(i, m), m)),
    }
}

/// A field that is either `null` or a JSON string.
pub open spec fn opt_string_end(s: Seq<char>, i: int) -> Option<(Option<Seq<char>>, int)> {
    match after_lit(s, i, "null"@) {
        Some(j) => Some((None, j)),
        None => match string_end(s, i) {
            None => None,
            Some((t, j)) => Some((Some(t), j)),
        },
    }
}

/// A join payload body, after its type tag.
pub open spec fn join_payload_end(s: Seq<char>, i: int) -> Option<(EventPayloadV, int)> {
    match after_lit(s, i, ",\"data\":{\"user_id\":"@) {
        None => None,
        Some(a) => match string_end(s, a) {
            None => None,
            Some((uid, b)) => match after_lit(s, b, ",\"room_id\":"@) {
                None => None,
                Some(c) => match string_end(s, c) {
                    None => None,
                    Some((rid, d)) => match after_lit(s, d, "}}"@) {
                        None => None,
                        Some(e) => Some(
                            (EventPayloadV::UserJoined { user_id: uid, room_id: rid }, e),
                        ),
                    },
                },
            },
        },
    }
}

/// A playback payload body, after its type tag.
pub open spec fn sync_payload_end(s: Seq<char>, i: int) -> Option<(EventPayloadV, int)> {
    match after_lit(s, i, ",\"data\":{\"last_action\":"@) {
        None => None,
        Some(a) => match string_end(s, a) {
            None => None,
            Some((w, b)) => match video_action_of_word(w) {
                None => None,
                Some(act) => match after_lit(s, b, ",\"time\":"@) {
                    None => None,
                    Some(c) => match number_text_end(s, c) {
                        None => None,
                        Some((time, d)) => match after_lit(s, d, ",\"updated_at\":"@) {
                            None => None,
                            Some(e) => match number_text_end(s, e) {
                                None => None,
                                Some((upd, f)) => match after_lit(s, f, ",\"updated_by\":"@) {
                                    None => None,
                                    Some(g) => match string_end(s, g) {
                                        None => None,
                                        Some((by, h)) => match after_lit(s, h, "}}"@) {
                                            None => None,
                                            Some(e2) => Some(
                                                (
                                                    EventPayloadV::VideoAction {
                                                        sync: SyncInfoV {
                                                            last_action: act,
                                                            time: time,
                                                            updated_at: upd,
                                                            updated_by: by,
                                                        },
                                                    },
                                                    e2,
                                                ),
                                            ),
                                        },
                                    },
                                },
                            },
                        },
                    },
                },
            },
        },
    }
}

/// A chat payload body, after its type tag.
pub open spec fn chat_payload_end(s: Seq<char>, i: int) -> Option<(EventPayloadV, int)> {
    match after_lit(s, i, ",\"data\":{\"user_id\":"@) {
        None => None,
        Some(a) => match string_end(s, a) {
            None => None,
            Some((uid, b)) => match after_lit(s, b, ",\"room_id\":"@) {
                None => None,
                Some(c) => match string_end(s, c) {
                    None => None,
                    Some((rid, d)) => match after_lit(s, d, ",\"message\":"@) {
                        None => None,
                        Some(e) => match string_end(s, e) {
                            None => None,
                            Some((msg, f)) => match after_lit(s, f, "}}"@) {
                                None => None,
                                Some(g) => Some(
                                    (
                                        EventPayloadV::ChatMessage {
                                            user_id: uid,
                                            room_id: rid,
                                            message: msg,
                                        },
                                        g,
                                    ),
                                ),
                            },
                        },
                    },
                },
            },
        },
    }
}

/// A whole payload object: the type tag picks the body grammar; an unknown
/// tag is a decode failure.
pub open spec fn payload_end(s: Seq<char>, i: int) -> Option<(EventPayloadV, int)> {
    match after_lit(s, i, "{\"type\":"@) {
        None => None,
        Some(j) => match string_end(s, j) {
            None => None,
            Some((tag, k)) => if tag == "UserJoined"@ {
                join_payload_end(s, k)
            } else if tag == "UserLeft"@ {
                match after_lit(s, k, "}"@) {
                    None => None,
                    Some(l) => Some((EventPayloadV::UserLeft, l)),
                }
            } else if tag == "VideoAction"@ {
                sync_payload_end(s, k)
            } else if tag == "ChatMessage"@ {
                chat_payload_end(s, k)
            } else {
                None
            },
        },
    }
}

/// The whole inbound frame grammar.  `None` is a malformed frame.
pub open spec fn parse_event(s: Seq<char>) -> Option<WebsocketEventV> {
    match after_lit(s, 0, "{\"action\":"@) {
        None => None,
        Some(i) => match string_end(s, i) {
            None => None,
            Some((w, j)) => match after_lit(s, j, ",\"room_id\":"@) {
                None => None,
                Some(k) => match opt_string_end(s, k) {
                    None => None,
                    Some((rid, l)) => match after_lit(s, l, ",\"user_id\":"@) {
                        None => None,
                        Some(m) => match opt_string_end(s, m) {
                            None => None,
                            Some((uid, n)) => match after_lit(s, n, ",\"payload\":"@) {
                                None => None,
                                Some(p) => match payload_end(s, p) {
                                    None => None,
                                    Some((pl, q)) => match after_lit(s, q, "}"@) {
                                        None => None,
                                        Some(r) => if r == s.len() {
                                            Some(
                                                WebsocketEventV {
                                                    action: action_of_word(w),
                                                    room_id: rid,
                                                    user_id: uid,
                                                    payload: pl,
                                                },
                                            )
                                        } else {
                                            None
                                        },
                                    },
                                },
                            },
                        },
                    },
                },
            },
        },
    }
}

/// Scans a `null`-or-string field, as executable code.
fn parse_opt_string(v: &Vec<char>, i: usize) -> (r: Option<(Option<String>, usize)>)
    requires
        i <= v@.len(),
    ensures
        match r {
            Some(p) => {
                &&& opt_string_end(v@, i as int) matches Some(q)
                &&& q.0 == match p.0 {
                    Some(ref s) => Some::<Seq<char>>(s@),
                    None => None::<Seq<char>>,
                }
                &&& q.1 == p.1 as int
                &&& i < p.1 <= v@.len()
            },
            None => opt_string_end(v@, i as int) is None,
        },
{
    match match_lit(v, i, "null") {
        Some(j) => {
            proof {
                reveal_strlit("null");
            }
            Some((None, j))
        },
        None => match parse_string(v, i) {
            Some((t, j)) => Some((Some(t), j)),
            None => None,
        },
    }
}

/// Scans a number field, as executable code: its verbatim text.
fn parse_number_text(v: &Vec<char>, i: usize) -> (r: Option<(String, usize)>)
    requires
        i <= v@.len(),
    ensures
        match r {
            Some(p) => {
                &&& number_text_end(v@, i as int) matches Some(q)
                &&& q.0 == p.0@
                &&& q.1 == p.1 as int
                &&& i < p.1 <= v@.len()
                &&& crate::json::is_number_text(p.0@)
            },
            None => number_text_end(v@, i as int) is None,
        },
{
    match number_end_exec(v, i) {
        None => None,
        Some(m) => {
            proof {
                lemma_number_text_sub(v@, i as int, m as int);
            }
            let t = chars_to_string(v, i, m);
            Some((t, m))
        },
    }
}

/// Scans a whole payload object, as executable code.
fn parse_payload(v: &Vec<char>, i: usize) -> (r: Option<(EventPayload, usize)>)
    requires
        i <= v@.len(),
    ensures
        match r {
            Some(p) => {
                &&& payload_end(v@, i as int) matches Some(q)
                &&& q.0 == p.0@
                &&& q.1 == p.1 as int
                &&& p.1 <= v@.len()
                &&& (p.0@ matches EventPayloadV::VideoAction { sync } ==> sync.wf())
            },
            None => payload_end(v@, i as int) is None,
        },
{
    let j = match match_lit(v, i, "{\"type\":") {
        Some(j) => j,
        None => {
            return None;
        },
    };
    let (tag, k) = match parse_string(v, j) {
        Some(p) => p,
        None => {
            return None;
        },
    };
    if crate::json::str_eq(tag.as_str(), "UserJoined") {
        let a = match match_lit(v, k, ",\"data\":{\"user_id\":") {
            Some(a) => a,
            None => {
                return None;
            },
        };
        let (uid, b) = match parse_string(v, a) {
            Some(p) => p,
            None => {
                return None;
            },
        };
        let c = match match_lit(v, b, ",\"room_id\":") {
            Some(c) => c,
            None => {
                return None;
            },
        };
        let (rid, d) = match parse_string(v, c) {
            Some(p) => p,
            None => {
                return None;
            },
        };
        let e = match match_lit(v, d, "}}") {
            Some(e) => e,
            None => {
                return None;
            },
        };
        Some((EventPayload::UserJoined(UserJoinData { user_id: uid, room_id: rid }), e))
    } else if crate::json::str_eq(tag.as_str(), "UserLeft") {
        let l = match match_lit(v, k, "}") {
            Some(l) => l,
            None => {
                return None;
            },
        };
        Some((EventPayload::UserLeft, l))
    } else if crate::json::str_eq(tag.as_str(), "VideoAction") {
        let a = match match_lit(v, k, ",\"data\":{\"last_action\":") {
            Some(a) => a,
            None => {
                return None;
            },
        };
        let (w, b) = match parse_string(v, a) {
            Some(p) => p,
            None => {
                return None;
            },
        };
        let act = match VideoAction::from_word(w.as_str()) {
            Some(act) => act,
            None => {
                return None;
            },
        };
        let c = match match_lit(v, b, ",\"time\":") {
            Some(c) => c,
            None => {
                return None;
            },
        };
        let (time, d) = match parse_number_text(v, c) {
            Some(p) => p,
            None => {
                return None;
            },
        };
        let e = match match_lit(v, d, ",\"updated_at\":") {
            Some(e) => e,
            None => {
                return None;
            },
        };
        let (upd, f) = match parse_number_text(v, e) {
            Some(p) => p,
            None => {
                return None;
            },
        };
        let g = match match_lit(v, f, ",\"updated_by\":") {
            Some(g) => g,
            None => {
                return None;
            },
        };
        let (by, h) = match parse_string(v, g) {
            Some(p) => p,
            None => {
                return None;
            },
        };
        let e2 = match match_lit(v, h, "}}") {
            Some(e2) => e2,
            None => {
                return None;
            },
        };
        let sync = SyncInfo { last_action: act, time: time, updated_at: upd, updated_by: by };
        Some((EventPayload::VideoAction(sync), e2))
    } else if crate::json::str_eq(tag.as_str(), "ChatMessage") {
        let a = match match_lit(v, k, ",\"data\":{\"user_id\":") {
            Some(a) => a,
            None => {
                return None;
            },
        };
        let (uid, b) = match parse_string(v, a) {
            Some(p) => p,
            None => {
                return None;
            },
        };
        let c = match match_lit(v, b, ",\"room_id\":") {
            Some(c) => c,
            None => {
                return None;
            },
        };
        let (rid, d) = match parse_string(v, c) {
            Some(p) => p,
            None => {
                return None;
            },
        };
        let e = match match_lit(v, d, ",\"message\":") {
            Some(e) => e,
            None => {
                return None;
            },
        };
        let (msg, f) = match parse_string(v, e) {
            Some(p) => p,
            None => {
                return None;
            },
        };
        let g = match match_lit(v, f, "}}") {
            Some(g) => g,
            None => {
                return None;
            },
        };
        Some(
            (EventPayload::ChatMessage(MessageData { user_id: uid, room_id: rid, message: msg }), g),
        )
    } else {
        None
    }
}

/// Decodes one inbound frame.  Returns the typed event exactly when the text
/// is a frame of the canonical grammar; anything else is a malformed frame.
pub fn decode_event(text: &str) -> (r: Option<WebsocketEvent>)
    ensures
        match r {
            Some(e) => parse_event(text@) == Some(e@) && e@.wf(),
            None => parse_event(text@) is None,
        },
{
    let v = str_chars(text);
    let i = match match_lit(&v, 0, "{\"action\":") {
        Some(i) => i,
        None => {
            return None;
        },
    };
    let (w, j) = match parse_string(&v, i) {
        Some(p) => p,
        None => {
            return None;
        },
    };
    let k = match match_lit(&v, j, ",\"room_id\":") {
        Some(k) => k,
        None => {
            return None;
        },
    };
    let (rid, l) = match parse_opt_string(&v, k) {
        Some(p) => p,
        None => {
            return None;
        },
    };
    let m = match match_lit(&v, l, ",\"user_id\":") {
        Some(m) => m,
        None => {
            return None;
        },
    };
    let (uid, n) = match parse_opt_string(&v, m) {
        Some(p) => p,
        None => {
            return None;
        },
    };
    let p = match match_lit(&v, n, ",\"payload\":") {
        Some(p) => p,
        None => {
            return None;
        },
    };
    let (pl, q) = match parse_payload(&v, p) {
        Some(p) => p,
        None => {
            return None;
        },
    };
    let r = match match_lit(&v, q, "}") {
        Some(r) => r,
        None => {
            return None;
        },
    };
    if r != v.len() {
        return None;
    }
    let action = match ActionType::from_str(w.as_str()) {
        Ok(a) => a,
        Err(_) => {
            return None;
        },
    };
    let ev = WebsocketEvent { action: action, room_id: rid, user_id: uid, payload: pl };
    Some(ev)
}

/// Appends a quoted, escaped JSON string.
pub fn push_quoted(out: &mut String, s: &str)
    ensures
        final(out)@ == old(out)@ + quoted(s@),
{
    push_char(out, '"');
    push_escaped(out, s);
    push_char(out, '"');
    assert(out@ =~= old(out)@ + quoted(s@));
}

/// The JSON object of one snapshot, embedded in outbound frames.
pub open spec fn sync_json(s: SyncInfoV) -> Seq<char> {
    "{\"last_action\":\""@ + video_action_word(s.last_action) + "\",\"time\":"@ + s.time
        + ",\"updated_at\":"@ + s.updated_at + ",\"updated_by\":"@ + quoted(s.updated_by) + "}"@
}

/// Appends the JSON object of one snapshot.
fn push_sync_json(out: &mut String, s: &SyncInfo)
    ensures
        final(out)@ == old(out)@ + sync_json(s@),
{
    out.append("{\"last_action\":\"");
    out.append(s.last_action.word());
    out.append("\",\"time\":");
    out.append(s.time.as_str());
    out.append(",\"updated_at\":");
    out.append(s.updated_at.as_str());
    out.append(",\"updated_by\":");
    push_quoted(out, s.updated_by.as_str());
    out.append("}");
    assert(out@ =~= old(out)@ + sync_json(s@));
}

/// The catch-up frame sent to a member right after joining: the room's
/// current snapshot, or `null` when no playback event has happened yet.
pub open spec fn catch_up_frame(o: Option<SyncInfoV>) -> Seq<char> {
    "{\"response_type\":\"UserJoined\",\"data\":"@ + (match o {
        Some(s) => sync_json(s),
        None => "null"@,
    }) + "}"@
}

/// Encodes the catch-up frame for a joining member.
pub fn encode_catch_up(o: &Option<SyncInfo>) -> (r: String)
    ensures
        r@ == catch_up_frame(
            match o {
                Some(s) => Some(s@),
                None => None,
            },
        ),
{
    let mut out = String::new();
    out.append("{\"response_type\":\"UserJoined\",\"data\":");
    match o {
        Some(s) => push_sync_json(&mut out, s),
        None => out.append("null"),
    }
    out.append("}");
    assert(out@ =~= catch_up_frame(
        match o {
            Some(s) => Some(s@),
            None => None,
        },
    ));
    out
}

/// The broadcast frame announcing a playback change.
pub open spec fn video_frame(s: SyncInfoV) -> Seq<char> {
    "{\"response_type\":\"VideoAction\",\"data\":"@ + sync_json(s) + "}"@
}

/// Encodes the broadcast frame for a playback change.
pub fn encode_video_action(s: &SyncInfo) -> (r: String)
    ensures
        r@ == video_frame(s@),
{
    let mut out = String::new();
    out.append("{\"response_type\":\"VideoAction\",\"data\":");
    push_sync_json(&mut out, s);
    out.append("}");
    assert(out@ =~= video_frame(s@));
    out
}

} // verus!
