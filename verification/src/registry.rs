//! The connection registry: room → member → connection handle.
//!
//! The registry is the single shared index the broadcaster reads.  Its
//! mathematical value is a map from room identity to a map from member
//! identity to the member's connection handle.  `broadcast` does not touch
//! the transport: it returns a delivery plan — the frame and exactly the
//! currently registered members of the room — and the connection loop outside
//! performs the sends, skipping failed recipients one by one.

use vstd::prelude::*;

use crate::ConnId;

verus! {

/// One registered member of a room.
#[derive(Debug)]
pub struct MemberEntry {
    pub user_id: String,
    pub conn: ConnId,
}

/// One room and its registered members.
#[derive(Debug)]
pub struct RoomEntry {
    pub room_id: String,
    pub members: Vec<MemberEntry>,
}

/// The registry of all live connections, by room and member.
#[derive(Debug)]
pub struct Registry {
    rooms: Vec<RoomEntry>,
}

/// One planned delivery: a member and the connection to write to.
#[derive(Debug)]
pub struct Recipient {
    pub user_id: String,
    pub conn: ConnId,
}

/// A delivery plan: one frame, to be written to each recipient's connection
/// independently.
#[derive(Debug)]
pub struct Broadcast {
    pub frame: String,
    pub recipients: Vec<Recipient>,
}

/// The member map described by a list of member entries; later entries win.
pub open spec fn members_map_of(s: Seq<MemberEntry>) -> Map<Seq<char>, ConnId>
    decreases s.len(),
{
    if s.len() == 0 {
        Map::<Seq<char>, ConnId>::empty()
    } else {
        members_map_of(s.drop_last()).insert(s.last().user_id@, s.last().conn)
    }
}

/// The room map described by a list of room entries; later entries win.
pub open spec fn rooms_map_of(s: Seq<RoomEntry>) -> Map<Seq<char>, Map<Seq<char>, ConnId>>
    decreases s.len(),
{
    if s.len() == 0 {
        Map::<Seq<char>, Map<Seq<char>, ConnId>>::empty()
    } else {
        rooms_map_of(s.drop_last()).insert(s.last().room_id@, members_map_of(s.last().members@))
    }
}

/// No two entries name the same member.
pub open spec fn members_distinct(s: Seq<MemberEntry>) -> bool {
    forall|i: int, j: int| 0 <= i < j < s.len() ==> s[i].user_id@ != s[j].user_id@
}

/// No two entries name the same room.
pub open spec fn rooms_distinct(s: Seq<RoomEntry>) -> bool {
    forall|i: int, j: int| 0 <= i < j < s.len() ==> s[i].room_id@ != s[j].room_id@
}

/// The members of `room` in `m`: its member map, or empty for a room nobody
/// has joined — broadcasting there is a no-op, not an error.
pub open spec fn room_members(
    m: Map<Seq<char>, Map<Seq<char>, ConnId>>,
    room: Seq<char>,
) -> Map<Seq<char>, ConnId> {
    if m.contains_key(room) {
        m[room]
    } else {
        Map::<Seq<char>, ConnId>::empty()
    }
}

/// The recipients list delivers to exactly the members of `m`: every
/// recipient is a registered member with their registered connection, every
/// member occurs, and no member occurs twice.
pub open spec fn delivers_to(recipients: Seq<Recipient>, m: Map<Seq<char>, ConnId>) -> bool {
    &&& forall|i: int|
        0 <= i < recipients.len() ==> m.contains_pair(
            (#[trigger] recipients[i]).user_id@,
            recipients[i].conn,
        )
    &&& forall|u: Seq<char>|
        #[trigger] m.contains_key(u) ==> exists|i: int|
            0 <= i < recipients.len() && (#[trigger] recipients[i]).user_id@ == u
    &&& forall|i: int, j: int|
        0 <= i < j < recipients.len() ==> recipients[i].user_id@ != recipients[j].user_id@
}

proof fn lemma_members_contains(s: Seq<MemberEntry>, u: Seq<char>)
    ensures
        members_map_of(s).contains_key(u) <==> exists|i: int|
            0 <= i < s.len() && (#[trigger] s[i]).user_id@ == u,
    decreases s.len(),
{
    if s.len() > 0 {
        lemma_members_contains(s.drop_last(), u);
        if members_map_of(s).contains_key(u) {
            if s.last().user_id@ == u {
                assert(s[s.len() - 1].user_id@ == u);
            } else {
                let i = choose|i: int| 0 <= i < s.drop_last().len() && (#[trigger] s.drop_last()[i]).user_id@ == u;
                assert(s[i].user_id@ == u);
            }
        }
        if exists|i: int| 0 <= i < s.len() && (#[trigger] s[i]).user_id@ == u {
            let i = choose|i: int| 0 <= i < s.len() && (#[trigger] s[i]).user_id@ == u;
            if i < s.len() - 1 {
                assert(s.drop_last()[i].user_id@ == u);
            }
        }
    }
}

proof fn lemma_members_at(s: Seq<MemberEntry>, i: int)
    requires
        members_distinct(s),
        0 <= i < s.len(),
    ensures
        members_map_of(s).contains_pair(s[i].user_id@, s[i].conn),
    decreases s.len(),
{
    if i == s.len() - 1 {
    } else {
        lemma_members_at(s.drop_last(), i);
        assert(s.drop_last()[i] == s[i]);
        assert(s[i].user_id@ != s.last().user_id@);
    }
}

proof fn lemma_members_update(s: Seq<MemberEntry>, i: int, e: MemberEntry)
    requires
        members_distinct(s),
        0 <= i < s.len(),
        e.user_id@ == s[i].user_id@,
    ensures
        members_map_of(s.update(i, e)) =~= members_map_of(s).insert(e.user_id@, e.conn),
    decreases s.len(),
{
    let t = s.update(i, e);
    if i == s.len() - 1 {
        assert(t.drop_last() =~= s.drop_last());
        assert(t.last() == e);
    } else {
        assert(t.drop_last() =~= s.drop_last().update(i, e));
        assert(t.last() == s.last());
        assert(s.drop_last()[i] == s[i]);
        lemma_members_update(s.drop_last(), i, e);
        assert(s[i].user_id@ != s.last().user_id@);
    }
}

proof fn lemma_members_push(s: Seq<MemberEntry>, e: MemberEntry)
    ensures
        members_map_of(s.push(e)) =~= members_map_of(s).insert(e.user_id@, e.conn),
{
    assert(s.push(e).drop_last() =~= s);
    assert(s.push(e).last() == e);
}

proof fn lemma_members_remove(s: Seq<MemberEntry>, i: int)
    requires
        members_distinct(s),
        0 <= i < s.len(),
    ensures
        members_map_of(s.remove(i)) =~= members_map_of(s).remove(s[i].user_id@),
    decreases s.len(),
{
    if i == s.len() - 1 {
        assert(s.remove(i) =~= s.drop_last());
        lemma_members_contains(s.drop_last(), s[i].user_id@);
        assert(forall|j: int|
            0 <= j < s.drop_last().len() ==> (#[trigger] s.drop_last()[j]).user_id@ != s[i].user_id@);
        assert(!members_map_of(s.drop_last()).contains_key(s[i].user_id@));
        assert(members_map_of(s.remove(i)) =~= members_map_of(s).remove(s[i].user_id@));
    } else {
        assert(s.remove(i).drop_last() =~= s.drop_last().remove(i));
        assert(s.remove(i).last() == s.last());
        assert(s.drop_last()[i] == s[i]);
        lemma_members_remove(s.drop_last(), i);
        assert(s[i].user_id@ != s.last().user_id@);
    }
}

proof fn lemma_rooms_contains(s: Seq<RoomEntry>, r: Seq<char>)
    ensures
        rooms_map_of(s).contains_key(r) <==> exists|i: int|
            0 <= i < s.len() && (#[trigger] s[i]).room_id@ == r,
    decreases s.len(),
{
    if s.len() > 0 {
        lemma_rooms_contains(s.drop_last(), r);
        if rooms_map_of(s).contains_key(r) {
            if s.last().room_id@ == r {
                assert(s[s.len() - 1].room_id@ == r);
            } else {
                let i = choose|i: int| 0 <= i < s.drop_last().len() && (#[trigger] s.drop_last()[i]).room_id@ == r;
                assert(s[i].room_id@ == r);
            }
        }
        if exists|i: int| 0 <= i < s.len() && (#[trigger] s[i]).room_id@ == r {
            let i = choose|i: int| 0 <= i < s.len() && (#[trigger] s[i]).room_id@ == r;
            if i < s.len() - 1 {
                assert(s.drop_last()[i].room_id@ == r);
            }
        }
    }
}

proof fn lemma_rooms_at(s: Seq<RoomEntry>, i: int)
    requires
        rooms_distinct(s),
        0 <= i < s.len(),
    ensures
        rooms_map_of(s).contains_pair(s[i].room_id@, members_map_of(s[i].members@)),
    decreases s.len(),
{
    if i == s.len() - 1 {
    } else {
        lemma_rooms_at(s.drop_last(), i);
        assert(s.drop_last()[i] == s[i]);
        assert(s[i].room_id@ != s.last().room_id@);
    }
}

proof fn lemma_rooms_update(s: Seq<RoomEntry>, i: int, e: RoomEntry)
    requires
        rooms_distinct(s),
        0 <= i < s.len(),
        e.room_id@ == s[i].room_id@,
    ensures
        rooms_map_of(s.update(i, e)) =~= rooms_map_of(s).insert(
            e.room_id@,
            members_map_of(e.members@),
        ),
    decreases s.len(),
{
    let t = s.update(i, e);
    if i == s.len() - 1 {
        assert(t.drop_last() =~= s.drop_last());
        assert(t.last() == e);
    } else {
        assert(t.drop_last() =~= s.drop_last().update(i, e));
        assert(t.last() == s.last());
        assert(s.drop_last()[i] == s[i]);
        lemma_rooms_update(s.drop_last(), i, e);
        assert(s[i].room_id@ != s.last().room_id@);
    }
}

proof fn lemma_rooms_push(s: Seq<RoomEntry>, e: RoomEntry)
    ensures
        rooms_map_of(s.push(e)) =~= rooms_map_of(s).insert(
            e.room_id@,
            members_map_of(e.members@),
        ),
{
    assert(s.push(e).drop_last() =~= s);
    assert(s.push(e).last() == e);
}

impl Registry {
    /// The registry's mathematical value.
    pub closed spec fn view(&self) -> Map<Seq<char>, Map<Seq<char>, ConnId>> {
        rooms_map_of(self.rooms@)
    }

    /// Every room and every member within a room is listed once.
    pub closed spec fn wf(&self) -> bool {
        rooms_distinct(self.rooms@) && forall|i: int|
            0 <= i < self.rooms@.len() ==> members_distinct((#[trigger] self.rooms@[i]).members@)
    }

    /// An empty registry: no rooms, no members.
    pub fn new() -> (r: Registry)
        ensures
            r.wf(),
            r@ == Map::<Seq<char>, Map<Seq<char>, ConnId>>::empty(),
    {
        Registry { rooms: Vec::new() }
    }

    /// The position of `room_id` among the rooms, if present.
    fn find_room(&self, room_id: &String) -> (r: Option<usize>)
        ensures
            match r {
                Some(i) => i < self.rooms@.len() && self.rooms@[i as int].room_id@ == room_id@,
                None => forall|i: int|
                    0 <= i < self.rooms@.len() ==> (#[trigger] self.rooms@[i]).room_id@
                        != room_id@,
            },
    {
        let n = self.rooms.len();
        let mut i: usize = 0;
        while i < n
            invariant
                n == self.rooms@.len(),
                i <= n,
                forall|j: int| 0 <= j < i ==> (#[trigger] self.rooms@[j]).room_id@ != room_id@,
            decreases n - i,
        {
            if self.rooms[i].room_id == *room_id {
                return Some(i);
            }
            i = i + 1;
        }
        None
    }

    /// The position of `user_id` among the members, if present.
    fn find_member(members: &Vec<MemberEntry>, user_id: &String) -> (r: Option<usize>)
        ensures
            match r {
                Some(i) => i < members@.len() && members@[i as int].user_id@ == user_id@,
                None => forall|i: int|
                    0 <= i < members@.len() ==> (#[trigger] members@[i]).user_id@ != user_id@,
            },
    {
        let n = members.len();
        let mut i: usize = 0;
        while i < n
            invariant
                n == members@.len(),
                i <= n,
                forall|j: int| 0 <= j < i ==> (#[trigger] members@[j]).user_id@ != user_id@,
            decreases n - i,
        {
            if members[i].user_id == *user_id {
                return Some(i);
            }
            i = i + 1;
        }
        None
    }

    /// Inserts or replaces the handle registered for `(room_id, user_id)`.
    /// Everything else — other members, other rooms — is untouched.
    pub fn register(&mut self, room_id: &String, user_id: &String, conn: ConnId)
        requires
            old(self).wf(),
        ensures
            final(self).wf(),
            final(self)@ == old(self)@.insert(
                room_id@,
                room_members(old(self)@, room_id@).insert(user_id@, conn),
            ),
    {
        let ghost old_rooms = self.rooms@;
        match self.find_room(room_id) {
            Some(ri) => {
                proof {
                    lemma_rooms_at(old_rooms, ri as int);
                    lemma_rooms_contains(old_rooms, room_id@);
                }
                let mut room = self.rooms.remove(ri);
                let ghost old_members = room.members@;
                match Self::find_member(&room.members, user_id) {
                    Some(mi) => {
                        let e = MemberEntry { user_id: user_id.clone(), conn };
                        let _ = room.members.remove(mi);
                        room.members.insert(mi, e);
                        proof {
                            assert(room.members@ =~= old_members.update(
                                mi as int,
                                MemberEntry { user_id: *user_id, conn },
                            ));
                            lemma_members_update(
                                old_members,
                                mi as int,
                                MemberEntry { user_id: *user_id, conn },
                            );
                            assert(members_distinct(room.members@));
                        }
                    },
                    None => {
                        let e = MemberEntry { user_id: user_id.clone(), conn };
                        room.members.push(e);
                        proof {
                            lemma_members_contains(old_members, user_id@);
                            lemma_members_push(
                                old_members,
                                MemberEntry { user_id: *user_id, conn },
                            );
                            assert(members_distinct(room.members@));
                        }
                    },
                }
                self.rooms.insert(ri, room);
                proof {
                    assert(self.rooms@ =~= old_rooms.update(
                        ri as int,
                        RoomEntry { room_id: old_rooms[ri as int].room_id, members: room.members },
                    )) by {
                        assert(self.rooms@.len() == old_rooms.len());
                        assert(forall|j: int|
                            0 <= j < self.rooms@.len() && j != ri ==> self.rooms@[j]
                                == old_rooms[j]);
                    }
                    lemma_rooms_update(
                        old_rooms,
                        ri as int,
                        RoomEntry { room_id: old_rooms[ri as int].room_id, members: room.members },
                    );
                    assert(final(self)@ =~= old(self)@.insert(
                        room_id@,
                        room_members(old(self)@, room_id@).insert(user_id@, conn),
                    ));
                }
            },
            None => {
                proof {
                    lemma_rooms_contains(old_rooms, room_id@);
                }
                let mut members: Vec<MemberEntry> = Vec::new();
                members.push(MemberEntry { user_id: user_id.clone(), conn });
                let room = RoomEntry { room_id: room_id.clone(), members };
                self.rooms.push(room);
                proof {
                    assert(members_map_of(Seq::<MemberEntry>::empty()) =~= Map::<
                        Seq<char>,
                        ConnId,
                    >::empty());
                    lemma_members_push(
                        Seq::<MemberEntry>::empty(),
                        MemberEntry { user_id: *user_id, conn },
                    );
                    lemma_rooms_push(old_rooms, self.rooms@.last());
                    assert(final(self)@ =~= old(self)@.insert(
                        room_id@,
                        room_members(old(self)@, room_id@).insert(user_id@, conn),
                    ));
                }
            },
        }
    }

    /// Removes the entry for `(room_id, user_id)`, if any.  Removing an
    /// unknown member or room changes nothing.
    pub fn unregister(&mut self, room_id: &String, user_id: &String)
        requires
            old(self).wf(),
        ensures
            final(self).wf(),
            final(self)@ == if old(self)@.contains_key(room_id@) {
                old(self)@.insert(room_id@, old(self)@[room_id@].remove(user_id@))
            } else {
                old(self)@
            },
    {
        let ghost old_rooms = self.rooms@;
        match self.find_room(room_id) {
            Some(ri) => {
                proof {
                    lemma_rooms_at(old_rooms, ri as int);
                    lemma_rooms_contains(old_rooms, room_id@);
                }
                let mut room = self.rooms.remove(ri);
                let ghost old_members = room.members@;
                match Self::find_member(&room.members, user_id) {
                    Some(mi) => {
                        let _ = room.members.remove(mi);
                        proof {
                            lemma_members_remove(old_members, mi as int);
                            assert(members_distinct(room.members@)) by {
                                assert(forall|a: int, b: int|
                                    0 <= a < b < room.members@.len()
                                        ==> (#[trigger] room.members@[a]).user_id@
                                        != (#[trigger] room.members@[b]).user_id@);
                            }
                        }
                    },
                    None => {
                        proof {
                            lemma_members_contains(old_members, user_id@);
                            assert(!members_map_of(old_members).contains_key(user_id@));
                            assert(members_map_of(old_members).remove(user_id@)
                                =~= members_map_of(old_members));
                        }
                    },
                }
                self.rooms.insert(ri, room);
                proof {
                    assert(self.rooms@ =~= old_rooms.update(
                        ri as int,
                        RoomEntry { room_id: old_rooms[ri as int].room_id, members: room.members },
                    )) by {
                        assert(self.rooms@.len() == old_rooms.len());
                        assert(forall|j: int|
                            0 <= j < self.rooms@.len() && j != ri ==> self.rooms@[j]
                                == old_rooms[j]);
                    }
                    lemma_rooms_update(
                        old_rooms,
                        ri as int,
                        RoomEntry { room_id: old_rooms[ri as int].room_id, members: room.members },
                    );
                    assert(final(self)@ =~= old(self)@.insert(
                        room_id@,
                        old(self)@[room_id@].remove(user_id@),
                    ));
                }
            },
            None => {
                proof {
                    lemma_rooms_contains(old_rooms, room_id@);
                }
            },
        }
    }

    /// The delivery plan for sending `frame` to every member currently
    /// registered in `room_id` — and to nobody else.  A room with no members,
    /// or never joined, yields an empty plan.
    pub fn broadcast(&self, room_id: &String, frame: String) -> (b: Broadcast)
        requires
            self.wf(),
        ensures
            b.frame == frame,
            delivers_to(b.recipients@, room_members(self@, room_id@)),
    {
        let mut recipients: Vec<Recipient> = Vec::new();
        match self.find_room(room_id) {
            Some(ri) => {
                proof {
                    lemma_rooms_at(self.rooms@, ri as int);
                    lemma_rooms_contains(self.rooms@, room_id@);
                }
                let room = &self.rooms[ri];
                let n = room.members.len();
                let mut i: usize = 0;
                while i < n
                    invariant
                        n == room.members@.len(),
                        i <= n,
                        recipients@.len() == i,
                        forall|j: int|
                            0 <= j < i ==> (#[trigger] recipients@[j]).user_id@
                                == room.members@[j].user_id@ && recipients@[j].conn
                                == room.members@[j].conn,
                    decreases n - i,
                {
                    let m = &room.members[i];
                    recipients.push(Recipient { user_id: m.user_id.clone(), conn: m.conn });
                    i = i + 1;
                }
                proof {
                    let ms = room.members@;
                    let mm = room_members(self@, room_id@);
                    assert(mm == members_map_of(ms));
                    assert forall|j: int| 0 <= j < recipients@.len() implies mm.contains_pair(
                        (#[trigger] recipients@[j]).user_id@,
                        recipients@[j].conn,
                    ) by {
                        lemma_members_at(ms, j);
                    }
                    assert forall|u: Seq<char>| #[trigger] mm.contains_key(u) implies exists|j: int|
                        0 <= j < recipients@.len() && (#[trigger] recipients@[j]).user_id@
                            == u by {
                        lemma_members_contains(ms, u);
                        let j = choose|j: int| 0 <= j < ms.len() && (#[trigger] ms[j]).user_id@ == u;
                        assert(recipients@[j].user_id@ == u);
                    }
                }
            },
            None => {
                proof {
                    lemma_rooms_contains(self.rooms@, room_id@);
                    assert(!self@.contains_key(room_id@));
                }
            },
        }
        Broadcast { frame, recipients }
    }
}

} // verus!
