//! Request shapes of the room/user/lobby API, and what the relay computes
//! from them.
//!
//! The API endpoints themselves — HTTP handling, identity generation, store
//! writes — live outside; here are the request values they carry and the one
//! piece of room creation that is the relay's own: the room document and the
//! room's initial playback snapshot built from the request.

use vstd::prelude::*;

use crate::db::Room;
use crate::events::{SyncInfo, SyncInfoV, VideoAction};
use crate::json::is_number_text;

verus! {

/// The platform a room watches on.
#[derive(Debug, Clone, Copy, PartialEq, Eq, Structural)]
pub enum Platform {
    Netflix,
}

/// The wire tag of a platform.
pub open spec fn platform_word(p: Platform) -> Seq<char> {
    match p {
        Platform::Netflix => "Netflix"@,
    }
}

impl Platform {
    /// The wire tag of this platform.
    pub fn word(&self) -> (r: &'static str)
        ensures
            r@ == platform_word(*self),
    {
        match self {
            Platform::Netflix => "Netflix",
        }
    }
}

/// A request to create a lobby.
#[derive(Debug)]
pub struct LobbyRequest {
    pub id: String,
    pub users: Vec<String>,
    pub platform: String,
}

/// A request to create a user with a profile.
#[derive(Debug)]
pub struct CreateUserRequest {
    pub name: String,
    pub avatar: String,
}

/// A request to add an existing user to a room.
#[derive(Debug)]
pub struct AddNewUserRequest {
    pub room_id: String,
    pub user_id: String,
}

/// A request to create a room, with the playback state it starts from.  The
/// position and timestamp are carried as number text, like everywhere in the
/// relay.
#[derive(Debug)]
pub struct RoomRequest {
    pub room_id: String,
    pub users: Vec<String>,
    pub platform: Platform,
    pub time: String,
    pub updated_at: String,
    pub action: VideoAction,
    pub updated_by: String,
}

impl RoomRequest {
    /// A valid request carries number text in its numeric fields.
    pub open spec fn wf(&self) -> bool {
        is_number_text(self.time@) && is_number_text(self.updated_at@)
    }

    /// The snapshot a newly created room starts with, taken from the request.
    pub fn initial_sync(&self) -> (s: SyncInfo)
        requires
            self.wf(),
        ensures
            s@ == (SyncInfoV {
                last_action: self.action,
                time: self.time@,
                updated_at: self.updated_at@,
                updated_by: self.updated_by@,
            }),
            s@.wf(),
    {
        SyncInfo {
            last_action: self.action,
            time: self.time.clone(),
            updated_at: self.updated_at.clone(),
            updated_by: self.updated_by.clone(),
        }
    }

    /// The room document to persist for this request, under the store
    /// identity `id`: the requested room identity and members, an empty
    /// message log, and the platform tag.
    pub fn to_room(&self, id: String) -> (r: Room)
        ensures
            r.id == id,
            r.room_id@ == self.room_id@,
            r.users_view() == self.users.deep_view(),
            r.messages_view() == Seq::<crate::db::MessageV>::empty(),
            r.platform@ == platform_word(self.platform),
    {
        let mut users: Vec<String> = Vec::new();
        let n = self.users.len();
        let mut i: usize = 0;
        while i < n
            invariant
                n == self.users@.len(),
                i <= n,
                users@.len() == i,
                forall|j: int| 0 <= j < i ==> (#[trigger] users@[j])@ == self.users@[j]@,
            decreases n - i,
        {
            users.push(self.users[i].clone());
            i = i + 1;
        }
        proof {
            assert(users.deep_view() =~= self.users.deep_view());
        }
        let mut platform = String::new();
        platform.append(self.platform.word());
        let room = Room {
            id,
            room_id: self.room_id.clone(),
            users,
            messages: Vec::new(),
            platform,
        };
        proof {
            assert(room.messages_view() =~= Seq::<crate::db::MessageV>::empty());
        }
        room
    }
}

} // verus!
