//! The typed shape of wire events.
//!
//! One inbound frame decodes to a [`WebsocketEvent`]: an action tag, optional
//! room and user identities, and a payload whose variant may or may not match
//! the tag — the router treats a mismatch as a malformed frame.  Outbound
//! frames are tagged by [`WebsocketResponseType`].
//!
//! Playback positions and timestamps travel as the JSON number text the peer
//! sent; the relay never interprets them, it only stores and replays them.

use vstd::prelude::*;

use crate::json::is_number_text;

verus! {

/// The action tag of an inbound frame.
#[derive(Debug, Clone, Copy, PartialEq, Eq, Structural)]
pub enum ActionType {
    Play,
    Pause,
    Skip,
    UserJoined,
    UserLeft,
    Unknown,
    Message,
}

/// A playback event: the tag alone, no extra data.
#[derive(Debug, Clone, Copy, PartialEq, Eq, Structural)]
pub enum VideoAction {
    Play,
    Pause,
    Skip,
}

/// The latest known playback state of one room: the last playback event, the
/// position and wall-clock timestamp as the number text the peer sent, and
/// who produced the update.
#[derive(Debug)]
pub struct SyncInfo {
    pub last_action: VideoAction,
    pub time: String,
    pub updated_at: String,
    pub updated_by: String,
}

/// The mathematical value of a [`SyncInfo`].
#[verifier::ext_equal]
pub ghost struct SyncInfoV {
    pub last_action: VideoAction,
    pub time: Seq<char>,
    pub updated_at: Seq<char>,
    pub updated_by: Seq<char>,
}

impl SyncInfoV {
    /// Valid snapshots carry number text in their numeric fields, so that a
    /// frame embedding them verbatim is well-formed JSON.
    pub open spec fn wf(self) -> bool {
        is_number_text(self.time) && is_number_text(self.updated_at)
    }
}

impl View for SyncInfo {
    type V = SyncInfoV;

    open spec fn view(&self) -> SyncInfoV {
        SyncInfoV {
            last_action: self.last_action,
            time: self.time@,
            updated_at: self.updated_at@,
            updated_by: self.updated_by@,
        }
    }
}

impl Clone for SyncInfo {
    fn clone(&self) -> (r: SyncInfo)
        ensures
            r@ == self@,
    {
        SyncInfo {
            last_action: self.last_action,
            time: self.time.clone(),
            updated_at: self.updated_at.clone(),
            updated_by: self.updated_by.clone(),
        }
    }
}

/// Data of a join payload.
#[derive(Debug)]
pub struct UserJoinData {
    pub user_id: String,
    pub room_id: String,
}

/// Data of a chat payload.
#[derive(Debug)]
pub struct MessageData {
    pub user_id: String,
    pub room_id: String,
    pub message: String,
}

/// The payload carried by an inbound frame.
#[derive(Debug)]
pub enum EventPayload {
    UserJoined(UserJoinData),
    UserLeft,
    VideoAction(SyncInfo),
    ChatMessage(MessageData),
}

/// The mathematical value of an [`EventPayload`].
#[verifier::ext_equal]
pub ghost enum EventPayloadV {
    UserJoined { user_id: Seq<char>, room_id: Seq<char> },
    UserLeft,
    VideoAction { sync: SyncInfoV },
    ChatMessage { user_id: Seq<char>, room_id: Seq<char>, message: Seq<char> },
}

impl View for EventPayload {
    type V = EventPayloadV;

    open spec fn view(&self) -> EventPayloadV {
        match self {
            EventPayload::UserJoined(d) => EventPayloadV::UserJoined {
                user_id: d.user_id@,
                room_id: d.room_id@,
            },
            EventPayload::UserLeft => EventPayloadV::UserLeft,
            EventPayload::VideoAction(s) => EventPayloadV::VideoAction { sync: s@ },
            EventPayload::ChatMessage(d) => EventPayloadV::ChatMessage {
                user_id: d.user_id@,
                room_id: d.room_id@,
                message: d.message@,
            },
        }
    }
}

/// One inbound frame, decoded: the declared action, the optional identities
/// of the envelope, and the payload.
#[derive(Debug)]
pub struct WebsocketEvent {
    pub action: ActionType,
    pub room_id: Option<String>,
    pub user_id: Option<String>,
    pub payload: EventPayload,
}

/// The mathematical value of a [`WebsocketEvent`].
#[verifier::ext_equal]
pub ghost struct WebsocketEventV {
    pub action: ActionType,
    pub room_id: Option<Seq<char>>,
    pub user_id: Option<Seq<char>>,
    pub payload: EventPayloadV,
}

impl WebsocketEventV {
    /// A well-formed event carries a well-formed snapshot when its payload is
    /// a playback change.
    pub open spec fn wf(self) -> bool {
        match self.payload {
            EventPayloadV::VideoAction { sync } => sync.wf(),
            _ => true,
        }
    }
}

impl View for WebsocketEvent {
    type V = WebsocketEventV;

    open spec fn view(&self) -> WebsocketEventV {
        WebsocketEventV {
            action: self.action,
            room_id: match self.room_id {
                Some(ref s) => Some(s@),
                None => None,
            },
            user_id: match self.user_id {
                Some(ref s) => Some(s@),
                None => None,
            },
            payload: self.payload@,
        }
    }
}

/// The tag of an outbound frame.
#[derive(Debug, Clone, Copy, PartialEq, Eq, Structural)]
pub enum WebsocketResponseType {
    VideoAction,
    Message,
    UserJoined,
}

/// An outbound frame before encoding: its tag and its data.
#[derive(Debug)]
pub struct WebsocketResponse<T> {
    pub response_type: WebsocketResponseType,
    pub data: T,
}

/// The action tag named by one wire word: the known lower-case words map to
/// their tag, anything else to `Unknown`.
pub open spec fn action_of_word(s: Seq<char>) -> ActionType {
    if s == "play"@ {
        ActionType::Play
    } else if s == "pause"@ {
        ActionType::Pause
    } else if s == "skip"@ {
        ActionType::Skip
    } else if s == "user_joined"@ {
        ActionType::UserJoined
    } else if s == "user_left"@ {
        ActionType::UserLeft
    } else if s == "message"@ {
        ActionType::Message
    } else {
        ActionType::Unknown
    }
}

impl ActionType {
    /// Reads an action tag from its wire word.  Unrecognised words are not an
    /// error: they name the `Unknown` action, which the router ignores.
    pub fn from_str(input: &str) -> (r: Result<ActionType, ()>)
        ensures
            r == Ok::<ActionType, ()>(action_of_word(input@)),
    {
        if crate::json::str_eq(input, "play") {
            Ok(ActionType::Play)
        } else if crate::json::str_eq(input, "pause") {
            Ok(ActionType::Pause)
        } else if crate::json::str_eq(input, "skip") {
            Ok(ActionType::Skip)
        } else if crate::json::str_eq(input, "user_joined") {
            Ok(ActionType::UserJoined)
        } else if crate::json::str_eq(input, "user_left") {
            Ok(ActionType::UserLeft)
        } else if crate::json::str_eq(input, "message") {
            Ok(ActionType::Message)
        } else {
            Ok(ActionType::Unknown)
        }
    }
}

/// The wire word of a playback event, as it appears in snapshot JSON.
pub open spec fn video_action_word(a: VideoAction) -> Seq<char> {
    match a {
        VideoAction::Play => "Play"@,
        VideoAction::Pause => "Pause"@,
        VideoAction::Skip => "Skip"@,
    }
}

/// The playback event named by one wire word, if any.
pub open spec fn video_action_of_word(s: Seq<char>) -> Option<VideoAction> {
    if s == "Play"@ {
        Some(VideoAction::Play)
    } else if s == "Pause"@ {
        Some(VideoAction::Pause)
    } else if s == "Skip"@ {
        Some(VideoAction::Skip)
    } else {
        None
    }
}

impl VideoAction {
    /// The wire word of this playback event.
    pub fn word(&self) -> (r: &'static str)
        ensures
            r@ == video_action_word(*self),
    {
        match self {
            VideoAction::Play => "Play",
            VideoAction::Pause => "Pause",
            VideoAction::Skip => "Skip",
        }
    }

    /// Reads a playback event from its wire word.
    pub fn from_word(s: &str) -> (r: Option<VideoAction>)
        ensures
            r == video_action_of_word(s@),
    {
        if crate::json::str_eq(s, "Play") {
            Some(VideoAction::Play)
        } else if crate::json::str_eq(s, "Pause") {
            Some(VideoAction::Pause)
        } else if crate::json::str_eq(s, "Skip") {
            Some(VideoAction::Skip)
        } else {
            None
        }
    }
}

} // verus!
