//! The message pipeline: persist, enrich, then hand to the broadcaster.
//!
//! A chat message is appended to the room's durable log first; only then is
//! the sender's profile resolved and the enriched record produced for the
//! caller to broadcast.  The store calls themselves happen outside; this
//! module takes their outcomes and decides, so the ordering invariant —
//! persist-then-notify — is a theorem here, not a convention.

use vstd::prelude::*;

use crate::db::{Message, User, UserV};
use crate::json::quoted;
use crate::registry::{Broadcast, Registry, delivers_to, room_members};

verus! {

/// A chat message enriched with the sender's profile, ready to broadcast.
#[derive(Debug)]
pub struct AddMessageResponse {
    pub user_id: String,
    pub username: String,
    pub name: String,
    pub avatar: String,
    pub message: String,
}

/// The mathematical value of an [`AddMessageResponse`].
#[verifier::ext_equal]
pub ghost struct AddMessageResponseV {
    pub user_id: Seq<char>,
    pub username: Seq<char>,
    pub name: Seq<char>,
    pub avatar: Seq<char>,
    pub message: Seq<char>,
}

impl View for AddMessageResponse {
    type V = AddMessageResponseV;

    open spec fn view(&self) -> AddMessageResponseV {
        AddMessageResponseV {
            user_id: self.user_id@,
            username: self.username@,
            name: self.name@,
            avatar: self.avatar@,
            message: self.message@,
        }
    }
}

impl Clone for AddMessageResponse {
    fn clone(&self) -> (r: AddMessageResponse)
        ensures
            r@ == self@,
    {
        AddMessageResponse {
            user_id: self.user_id.clone(),
            username: self.username.clone(),
            name: self.name.clone(),
            avatar: self.avatar.clone(),
            message: self.message.clone(),
        }
    }
}

/// Why a chat message produced nothing to broadcast.
#[derive(Debug, Clone, Copy, PartialEq, Eq, Structural)]
pub enum MessageError {
    /// The append to the room's durable message log failed; nothing was
    /// stored and nothing may be delivered.
    Persistence,
    /// The message is durably stored, but the sender's profile could not be
    /// resolved; it is not delivered in this round.
    ProfileLookup,
}

/// The enriched record for a persisted message from a known sender.
pub open spec fn enriched(u: UserV, user_id: Seq<char>, text: Seq<char>) -> AddMessageResponseV {
    AddMessageResponseV {
        user_id: user_id,
        username: u.username,
        name: u.name,
        avatar: u.avatar,
        message: text,
    }
}

/// What the pipeline decides, given the outcome of the log append and of the
/// profile lookup.
pub open spec fn add_message_decision(
    persisted: bool,
    profile: Option<UserV>,
    user_id: Seq<char>,
    text: Seq<char>,
) -> Result<AddMessageResponseV, MessageError> {
    if !persisted {
        Err(MessageError::Persistence)
    } else {
        match profile {
            None => Err(MessageError::ProfileLookup),
            Some(u) => Ok(enriched(u, user_id, text)),
        }
    }
}

/// The pipeline step after the store calls: `persisted` is the outcome of
/// appending `message` to the room's log, `profile` what the user store
/// returned for the sender.  Returns the enriched record to broadcast, or the
/// error that ends this round.
pub fn add_message(persisted: bool, profile: &Option<User>, message: &Message) -> (r: Result<
    AddMessageResponse,
    MessageError,
>)
    ensures
        match r {
            Ok(e) => add_message_decision(
                persisted,
                match profile {
                    Some(u) => Some(u@),
                    None => None,
                },
                message.user_id@,
                message.message@,
            ) == Ok::<AddMessageResponseV, MessageError>(e@),
            Err(err) => add_message_decision(
                persisted,
                match profile {
                    Some(u) => Some(u@),
                    None => None,
                },
                message.user_id@,
                message.message@,
            ) == Err::<AddMessageResponseV, MessageError>(err),
        },
{
    if !persisted {
        return Err(MessageError::Persistence);
    }
    match profile {
        None => Err(MessageError::ProfileLookup),
        Some(user) => Ok(
            AddMessageResponse {
                user_id: message.user_id.clone(),
                username: user.username.clone(),
                name: user.name.clone(),
                avatar: user.avatar.clone(),
                message: message.message.clone(),
            },
        ),
    }
}

/// Persist-then-notify: no enriched record — and so nothing for the
/// broadcaster — ever comes out of a message whose append to the durable log
/// failed; and every enriched record that does come out carries the persisted
/// message's sender and text, enriched with the looked-up profile.
pub proof fn lemma_persist_then_notify(
    persisted: bool,
    profile: Option<UserV>,
    user_id: Seq<char>,
    text: Seq<char>,
)
    ensures
        !persisted ==> add_message_decision(persisted, profile, user_id, text) == Err::<
            AddMessageResponseV,
            MessageError,
        >(MessageError::Persistence),
        add_message_decision(persisted, profile, user_id, text) matches Ok(e) ==> persisted
            && profile is Some && e == enriched(profile->0, user_id, text),
{
}

/// The broadcast frame carrying one enriched chat message.
pub open spec fn chat_frame(m: AddMessageResponseV) -> Seq<char> {
    "{\"response_type\":\"Message\",\"data\":{\"user_id\":"@ + quoted(m.user_id)
        + ",\"username\":"@ + quoted(m.username) + ",\"name\":"@ + quoted(m.name) + ",\"avatar\":"@
        + quoted(m.avatar) + ",\"message\":"@ + quoted(m.message) + "}}"@
}

/// Encodes the broadcast frame for one enriched chat message.
pub fn encode_chat_message(m: &AddMessageResponse) -> (r: String)
    ensures
        r@ == chat_frame(m@),
{
    let mut out = String::new();
    out.append("{\"response_type\":\"Message\",\"data\":{\"user_id\":");
    crate::codec::push_quoted(&mut out, m.user_id.as_str());
    out.append(",\"username\":");
    crate::codec::push_quoted(&mut out, m.username.as_str());
    out.append(",\"name\":");
    crate::codec::push_quoted(&mut out, m.name.as_str());
    out.append(",\"avatar\":");
    crate::codec::push_quoted(&mut out, m.avatar.as_str());
    out.append(",\"message\":");
    crate::codec::push_quoted(&mut out, m.message.as_str());
    out.append("}}");
    assert(out@ =~= chat_frame(m@));
    out
}

/// The delivery plan for one enriched chat message: its frame, to every
/// member currently registered in the room and to nobody else.
pub fn broadcast_message(
    room_users_collection: &Registry,
    room_id: &String,
    message: &AddMessageResponse,
) -> (b: Broadcast)
    requires
        room_users_collection.wf(),
    ensures
        b.frame@ == chat_frame(message@),
        delivers_to(b.recipients@, room_members(room_users_collection@, room_id@)),
{
    let frame = encode_chat_message(message);
    room_users_collection.broadcast(room_id, frame)
}

} // verus!
