//! The documents of the durable store, modelled with plain values.
//!
//! The store itself is an external collaborator; identities that it keeps as
//! native object ids are carried here as strings.  The two room mutations the
//! relay performs — adding a member, appending a chat message — are modelled
//! on [`Room`] so their effect on the stored document is stated exactly.

use vstd::prelude::*;

verus! {

/// A user document: identity and profile.
#[derive(Debug)]
pub struct User {
    pub id: Option<String>,
    pub username: String,
    pub name: String,
    pub avatar: String,
}

/// The mathematical value of a [`User`].
#[verifier::ext_equal]
pub ghost struct UserV {
    pub id: Option<Seq<char>>,
    pub username: Seq<char>,
    pub name: Seq<char>,
    pub avatar: Seq<char>,
}

impl View for User {
    type V = UserV;

    open spec fn view(&self) -> UserV {
        UserV {
            id: match self.id {
                Some(ref s) => Some(s@),
                None => None,
            },
            username: self.username@,
            name: self.name@,
            avatar: self.avatar@,
        }
    }
}

impl Clone for User {
    fn clone(&self) -> (r: User)
        ensures
            r@ == self@,
    {
        User {
            id: match &self.id {
                Some(s) => Some(s.clone()),
                None => None,
            },
            username: self.username.clone(),
            name: self.name.clone(),
            avatar: self.avatar.clone(),
        }
    }
}

/// One chat message as persisted in a room's log.
#[derive(Debug)]
pub struct Message {
    pub user_id: String,
    pub message: String,
}

/// The mathematical value of a [`Message`].
#[verifier::ext_equal]
pub ghost struct MessageV {
    pub user_id: Seq<char>,
    pub message: Seq<char>,
}

impl View for Message {
    type V = MessageV;

    open spec fn view(&self) -> MessageV {
        MessageV { user_id: self.user_id@, message: self.message@ }
    }
}

impl DeepView for Message {
    type V = MessageV;

    open spec fn deep_view(&self) -> MessageV {
        self@
    }
}

impl Clone for Message {
    fn clone(&self) -> (r: Message)
        ensures
            r@ == self@,
    {
        Message { user_id: self.user_id.clone(), message: self.message.clone() }
    }
}

/// A room document: identity, member set, append-only message log, platform
/// tag.
#[derive(Debug)]
pub struct Room {
    pub id: String,
    pub room_id: String,
    pub users: Vec<String>,
    pub messages: Vec<Message>,
    pub platform: String,
}

impl Room {
    /// The member identities, as values.
    pub open spec fn users_view(&self) -> Seq<Seq<char>> {
        self.users.deep_view()
    }

    /// The message log, as values.
    pub open spec fn messages_view(&self) -> Seq<MessageV> {
        self.messages.deep_view()
    }

    /// Adds a member to the room's member set: a member already present is
    /// not added twice.  Nothing else about the room changes.
    pub fn add_member(&mut self, user_id: &String)
        ensures
            old(self).users_view().contains(user_id@) ==> final(self).users_view() == old(
                self,
            ).users_view(),
            !old(self).users_view().contains(user_id@) ==> final(self).users_view() == old(
                self,
            ).users_view().push(user_id@),
            final(self).id == old(self).id,
            final(self).room_id == old(self).room_id,
            final(self).messages == old(self).messages,
            final(self).platform == old(self).platform,
    {
        let n = self.users.len();
        let mut i: usize = 0;
        while i < n
            invariant
                n == self.users@.len(),
                i <= n,
                forall|j: int| 0 <= j < i ==> (#[trigger] self.users@[j])@ != user_id@,
                self == old(self),
            decreases n - i,
        {
            if self.users[i] == *user_id {
                proof {
                    assert(self.users_view()[i as int] == user_id@);
                    assert(self.users_view().contains(user_id@));
                }
                return ;
            }
            i = i + 1;
        }
        proof {
            assert(forall|j: int|
                0 <= j < self.users_view().len() ==> self.users_view()[j] != user_id@);
            assert(!self.users_view().contains(user_id@));
        }
        self.users.push(user_id.clone());
        proof {
            assert(final(self).users_view() =~= old(self).users_view().push(user_id@));
        }
    }

    /// Appends one message to the room's log; the log is append-only, so
    /// everything already in it stays, in order.  Nothing else changes.
    pub fn append_message(&mut self, m: Message)
        ensures
            final(self).messages_view() == old(self).messages_view().push(m@),
            final(self).id == old(self).id,
            final(self).room_id == old(self).room_id,
            final(self).users == old(self).users,
            final(self).platform == old(self).platform,
    {
        let ghost mv = m@;
        self.messages.push(m);
        proof {
            assert(self.messages_view() =~= old(self).messages_view().push(mv));
        }
    }
}

} // verus!
