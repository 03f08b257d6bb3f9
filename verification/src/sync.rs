//! The playback sync store: the latest known playback state per room.
//!
//! One snapshot exists per room at a time.  `set_sync_info` replaces it —
//! latest write wins, with no causal ordering: a network-reordered older
//! update may overwrite a newer one, an accepted limitation of the design.
//! `get_sync_info` reads it without changing anything; a room with no
//! playback event yet has no snapshot.

use vstd::prelude::*;

use crate::events::{SyncInfo, SyncInfoV};

verus! {

/// One room's stored snapshot.
#[derive(Debug)]
pub struct SyncEntry {
    pub room_id: String,
    pub info: SyncInfo,
}

/// The store of all rooms' snapshots.
#[derive(Debug)]
pub struct SyncStore {
    entries: Vec<SyncEntry>,
}

/// The snapshot map described by a list of entries; later entries win.
pub open spec fn sync_map_of(s: Seq<SyncEntry>) -> Map<Seq<char>, SyncInfoV>
    decreases s.len(),
{
    if s.len() == 0 {
        Map::<Seq<char>, SyncInfoV>::empty()
    } else {
        sync_map_of(s.drop_last()).insert(s.last().room_id@, s.last().info@)
    }
}

/// No two entries name the same room.
pub open spec fn sync_rooms_distinct(s: Seq<SyncEntry>) -> bool {
    forall|i: int, j: int| 0 <= i < j < s.len() ==> s[i].room_id@ != s[j].room_id@
}

proof fn lemma_sync_contains(s: Seq<SyncEntry>, r: Seq<char>)
    ensures
        sync_map_of(s).contains_key(r) <==> exists|i: int|
            0 <= i < s.len() && (#[trigger] s[i]).room_id@ == r,
    decreases s.len(),
{
    if s.len() > 0 {
        lemma_sync_contains(s.drop_last(), r);
        if sync_map_of(s).contains_key(r) {
            if s.last().room_id@ == r {
                assert(s[s.len() - 1].room_id@ == r);
            } else {
                let i = choose|i: int|
                    0 <= i < s.drop_last().len() && (#[trigger] s.drop_last()[i]).room_id@ == r;
                assert(s[i].room_id@ == r);
            }
        }
        if exists|i: int| 0 <= i < s.len() && (#[trigger] s[i]).room_id@ == r {
            let i = choose|i: int| 0 <= i < s.len() && (#[trigger] s[i]).room_id@ == r;
            if i < s.len() - 1 {
                assert(s.drop_last()[i].room_id@ == r);
            }
        }
    }
}

proof fn lemma_sync_at(s: Seq<SyncEntry>, i: int)
    requires
        sync_rooms_distinct(s),
        0 <= i < s.len(),
    ensures
        sync_map_of(s).contains_pair(s[i].room_id@, s[i].info@),
    decreases s.len(),
{
    if i == s.len() - 1 {
    } else {
        lemma_sync_at(s.drop_last(), i);
        assert(s.drop_last()[i] == s[i]);
        assert(s[i].room_id@ != s.last().room_id@);
    }
}

proof fn lemma_sync_update(s: Seq<SyncEntry>, i: int, e: SyncEntry)
    requires
        sync_rooms_distinct(s),
        0 <= i < s.len(),
        e.room_id@ == s[i].room_id@,
    ensures
        sync_map_of(s.update(i, e)) =~= sync_map_of(s).insert(e.room_id@, e.info@),
    decreases s.len(),
{
    let t = s.update(i, e);
    if i == s.len() - 1 {
        assert(t.drop_last() =~= s.drop_last());
        assert(t.last() == e);
    } else {
        assert(t.drop_last() =~= s.drop_last().update(i, e));
        assert(t.last() == s.last());
        assert(s.drop_last()[i] == s[i]);
        lemma_sync_update(s.drop_last(), i, e);
        assert(s[i].room_id@ != s.last().room_id@);
    }
}

proof fn lemma_sync_push(s: Seq<SyncEntry>, e: SyncEntry)
    ensures
        sync_map_of(s.push(e)) =~= sync_map_of(s).insert(e.room_id@, e.info@),
{
    assert(s.push(e).drop_last() =~= s);
    assert(s.push(e).last() == e);
}

impl SyncStore {
    /// The store's mathematical value: room identity to current snapshot.
    pub closed spec fn view(&self) -> Map<Seq<char>, SyncInfoV> {
        sync_map_of(self.entries@)
    }

    /// Every room is listed once, and every stored snapshot is well formed.
    pub closed spec fn wf(&self) -> bool {
        sync_rooms_distinct(self.entries@) && forall|i: int|
            0 <= i < self.entries@.len() ==> (#[trigger] self.entries@[i]).info@.wf()
    }

    /// An empty store: no room has a snapshot yet.
    pub fn new() -> (r: SyncStore)
        ensures
            r.wf(),
            r@ == Map::<Seq<char>, SyncInfoV>::empty(),
    {
        SyncStore { entries: Vec::new() }
    }

    /// The position of `room_id` among the entries, if present.
    fn find(&self, room_id: &String) -> (r: Option<usize>)
        ensures
            match r {
                Some(i) => i < self.entries@.len() && self.entries@[i as int].room_id@
                    == room_id@,
                None => forall|i: int|
                    0 <= i < self.entries@.len() ==> (#[trigger] self.entries@[i]).room_id@
                        != room_id@,
            },
    {
        let n = self.entries.len();
        let mut i: usize = 0;
        while i < n
            invariant
                n == self.entries@.len(),
                i <= n,
                forall|j: int| 0 <= j < i ==> (#[trigger] self.entries@[j]).room_id@ != room_id@,
            decreases n - i,
        {
            if self.entries[i].room_id == *room_id {
                return Some(i);
            }
            i = i + 1;
        }
        None
    }
}

/// Replaces the room's snapshot — latest write wins, whatever the timestamps
/// inside the old and new snapshots say.  Other rooms are untouched.
pub fn set_sync_info(room_id: String, sync_info: SyncInfo, room_sync: &mut SyncStore)
    requires
        old(room_sync).wf(),
        sync_info@.wf(),
    ensures
        final(room_sync).wf(),
        final(room_sync)@ == old(room_sync)@.insert(room_id@, sync_info@),
{
    let ghost old_entries = room_sync.entries@;
    match room_sync.find(&room_id) {
        Some(i) => {
            let e = SyncEntry { room_id, info: sync_info };
            let _ = room_sync.entries.remove(i);
            room_sync.entries.insert(i, e);
            proof {
                assert(room_sync.entries@ =~= old_entries.update(i as int, e));
                lemma_sync_update(old_entries, i as int, e);
            }
        },
        None => {
            let e = SyncEntry { room_id, info: sync_info };
            room_sync.entries.push(e);
            proof {
                lemma_sync_push(old_entries, e);
            }
        },
    }
}

/// Reads the room's current snapshot: the latest one stored, or `None` when
/// no playback event has happened in that room yet.  The store is unchanged.
pub fn get_sync_info(room_id: String, room_sync: &SyncStore) -> (r: Option<SyncInfo>)
    requires
        room_sync.wf(),
    ensures
        match r {
            Some(s) => room_sync@.contains_key(room_id@) && s@ == room_sync@[room_id@]
                && s@.wf(),
            None => !room_sync@.contains_key(room_id@),
        },
{
    match room_sync.find(&room_id) {
        Some(i) => {
            proof {
                lemma_sync_at(room_sync.entries@, i as int);
                lemma_sync_contains(room_sync.entries@, room_id@);
            }
            Some(room_sync.entries[i].info.clone())
        },
        None => {
            proof {
                lemma_sync_contains(room_sync.entries@, room_id@);
            }
            None
        },
    }
}

/// Latest write wins: storing `s1` and then `s2` for one room leaves `s2` as
/// the room's snapshot — regardless of the timestamps carried inside `s1` and
/// `s2` — and leaves every other room's snapshot unchanged.
pub proof fn lemma_latest_write_wins(
    m: Map<Seq<char>, SyncInfoV>,
    room: Seq<char>,
    s1: SyncInfoV,
    s2: SyncInfoV,
)
    ensures
        m.insert(room, s1).insert(room, s2)[room] == s2,
        forall|other: Seq<char>|
            other != room && m.contains_key(other) ==> m.insert(room, s1).insert(room, s2)[other]
                == m[other],
{
}

} // verus!
