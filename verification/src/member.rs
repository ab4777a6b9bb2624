//! Voice-channel members and the table mapping each user id to what the host
//! last reported about that user.

use vstd::prelude::*;

verus! {

/// What the host reports about one user in a voice channel.
#[derive(Debug)]
pub struct Member {
    pub id: String,
    pub username: String,
    pub avatar: String,
    pub nick: String,
    pub mute: bool,
    pub self_mute: bool,
    pub deaf: bool,
    pub self_deaf: bool,
    pub speaking: bool,
}

/// The mathematical value of a [`Member`].
pub struct MemberView {
    pub id: Seq<char>,
    pub username: Seq<char>,
    pub avatar: Seq<char>,
    pub nick: Seq<char>,
    pub mute: bool,
    pub self_mute: bool,
    pub deaf: bool,
    pub self_deaf: bool,
    pub speaking: bool,
}

impl View for Member {
    type V = MemberView;

    open spec fn view(&self) -> MemberView {
        MemberView {
            id: self.id@,
            username: self.username@,
            avatar: self.avatar@,
            nick: self.nick@,
            mute: self.mute,
            self_mute: self.self_mute,
            deaf: self.deaf,
            self_deaf: self.self_deaf,
            speaking: self.speaking,
        }
    }
}

impl DeepView for Member {
    type V = MemberView;

    open spec fn deep_view(&self) -> MemberView {
        self.view()
    }
}

impl Member {
    /// An explicit copy, with the relation to the original stated.
    pub fn duplicate(&self) -> (r: Member)
        ensures
            r == *self,
    {
        Member {
            id: self.id.clone(),
            username: self.username.clone(),
            avatar: self.avatar.clone(),
            nick: self.nick.clone(),
            mute: self.mute,
            self_mute: self.self_mute,
            deaf: self.deaf,
            self_deaf: self.self_deaf,
            speaking: self.speaking,
        }
    }

    /// The same member with the speaking flag set to `speaking`.
    pub fn with_speaking(&self, speaking: bool) -> (r: Member)
        ensures
            r@ == (MemberView { speaking, ..self@ }),
    {
        Member {
            id: self.id.clone(),
            username: self.username.clone(),
            avatar: self.avatar.clone(),
            nick: self.nick.clone(),
            mute: self.mute,
            self_mute: self.self_mute,
            deaf: self.deaf,
            self_deaf: self.self_deaf,
            speaking,
        }
    }
}

/// No two entries describe the same user.
pub open spec fn unique_ids(s: Seq<MemberView>) -> bool {
    forall|i: int, j: int| 0 <= i < j < s.len() ==> s[i].id != s[j].id
}

/// The map that a sequence of entries denotes; a later entry for the same
/// user id supersedes an earlier one.
pub open spec fn map_of(s: Seq<MemberView>) -> Map<Seq<char>, MemberView>
    decreases s.len(),
{
    if s.len() == 0 {
        Map::empty()
    } else {
        map_of(s.drop_last()).insert(s.last().id, s.last())
    }
}

pub proof fn lemma_map_of_contains(s: Seq<MemberView>, k: Seq<char>)
    ensures
        map_of(s).contains_key(k) <==> exists|i: int| 0 <= i < s.len() && s[i].id == k,
    decreases s.len(),
{
    if s.len() > 0 {
        lemma_map_of_contains(s.drop_last(), k);
        if s.last().id == k {
            assert(s[s.len() - 1].id == k);
        } else if map_of(s.drop_last()).contains_key(k) {
            let i = choose|i: int| 0 <= i < s.drop_last().len() && s.drop_last()[i].id == k;
            assert(s[i].id == k);
        } else if exists|i: int| 0 <= i < s.len() && s[i].id == k {
            let i = choose|i: int| 0 <= i < s.len() && s[i].id == k;
            assert(0 <= i < s.len() - 1);
            assert(s.drop_last()[i].id == k);
        }
    }
}

pub proof fn lemma_map_of_get(s: Seq<MemberView>, i: int)
    requires
        unique_ids(s),
        0 <= i < s.len(),
    ensures
        map_of(s).contains_key(s[i].id),
        map_of(s)[s[i].id] == s[i],
    decreases s.len(),
{
    if i == s.len() - 1 {
    } else {
        assert(s.drop_last()[i] == s[i]);
        lemma_map_of_get(s.drop_last(), i);
        assert(s[i].id != s.last().id);
    }
}

pub proof fn lemma_map_of_update(s: Seq<MemberView>, i: int, m: MemberView)
    requires
        unique_ids(s),
        0 <= i < s.len(),
        m.id == s[i].id,
    ensures
        unique_ids(s.update(i, m)),
        map_of(s.update(i, m)) == map_of(s).insert(m.id, m),
    decreases s.len(),
{
    let t = s.update(i, m);
    if i == s.len() - 1 {
        assert(t.drop_last() =~= s.drop_last());
        assert(map_of(t) =~= map_of(s).insert(m.id, m));
    } else {
        assert(t.drop_last() =~= s.drop_last().update(i, m));
        assert(s.drop_last()[i] == s[i]);
        lemma_map_of_update(s.drop_last(), i, m);
        assert(s[i].id != s.last().id);
        assert(map_of(t) =~= map_of(s).insert(m.id, m));
    }
}

pub proof fn lemma_map_of_push(s: Seq<MemberView>, m: MemberView)
    requires
        unique_ids(s),
        forall|i: int| 0 <= i < s.len() ==> s[i].id != m.id,
    ensures
        unique_ids(s.push(m)),
        map_of(s.push(m)) == map_of(s).insert(m.id, m),
{
    assert(s.push(m).drop_last() =~= s);
    assert(s.push(m).last() == m);
    assert(map_of(s.push(m)) =~= map_of(s).insert(m.id, m));
}

pub proof fn lemma_map_of_remove(s: Seq<MemberView>, i: int)
    requires
        unique_ids(s),
        0 <= i < s.len(),
    ensures
        unique_ids(s.remove(i)),
        map_of(s.remove(i)) == map_of(s).remove(s[i].id),
    decreases s.len(),
{
    let t = s.remove(i);
    let k = s[i].id;
    if i == s.len() - 1 {
        assert(t =~= s.drop_last());
        lemma_map_of_contains(s.drop_last(), k);
        assert forall|j: int| 0 <= j < s.drop_last().len() implies s.drop_last()[j].id != k by {
            assert(s[j].id != s[s.len() - 1].id);
        }
        assert(!map_of(s.drop_last()).contains_key(k));
        assert(map_of(t) =~= map_of(s).remove(k));
    } else {
        assert(t.drop_last() =~= s.drop_last().remove(i));
        assert(t.last() == s.last());
        assert(s.drop_last()[i] == s[i]);
        lemma_map_of_remove(s.drop_last(), i);
        assert(s[i].id != s.last().id);
        assert(map_of(t) =~= map_of(s).remove(k));
    }
}

/// The map after a speaking change for `id`: the flag is recorded when
/// the user is known; an unknown user stays unknown.
pub open spec fn set_speaking_map(
    m: Map<Seq<char>, MemberView>,
    id: Seq<char>,
    speaking: bool,
) -> Map<Seq<char>, MemberView> {
    if m.contains_key(id) {
        m.insert(id, MemberView { speaking, ..m[id] })
    } else {
        m
    }
}

/// The derived "who is in my channel" table: user id to last reported info.
pub struct MemberTable {
    entries: Vec<Member>,
}

impl MemberTable {
    /// The entries, pairwise distinct by user id.
    pub closed spec fn wf(&self) -> bool {
        unique_ids(self.entries.deep_view())
    }

    /// The map this table denotes.
    pub closed spec fn as_map(&self) -> Map<Seq<char>, MemberView> {
        map_of(self.entries.deep_view())
    }

    pub fn new() -> (r: MemberTable)
        ensures
            r.wf(),
            r.as_map() == Map::<Seq<char>, MemberView>::empty(),
    {
        let r = MemberTable { entries: Vec::new() };
        proof {
            assert(r.entries.deep_view() =~= Seq::<MemberView>::empty());
        }
        r
    }

    /// Forget every member.
    pub fn clear(&mut self)
        ensures
            final(self).wf(),
            final(self).as_map() == Map::<Seq<char>, MemberView>::empty(),
    {
        self.entries.clear();
        proof {
            assert(self.entries.deep_view() =~= Seq::<MemberView>::empty());
        }
    }

    fn index_of(&self, id: &String) -> (r: Option<usize>)
        ensures
            match r {
                Some(i) => i < self.entries@.len() && self.entries@[i as int]@.id == id@,
                None => forall|j: int|
                    0 <= j < self.entries@.len() ==> self.entries@[j]@.id != id@,
            },
    {
        let n = self.entries.len();
        for i in 0..n
            invariant
                n == self.entries@.len(),
                forall|j: int| 0 <= j < i ==> self.entries@[j]@.id != id@,
        {
            if self.entries[i].id == *id {
                return Some(i);
            }
        }
        None
    }

    /// Record `m` as the current info for its user id, superseding any
    /// earlier entry for that user.
    pub fn upsert(&mut self, m: Member)
        requires
            old(self).wf(),
        ensures
            final(self).wf(),
            final(self).as_map() == old(self).as_map().insert(m@.id, m@),
    {
        let ghost s = self.entries.deep_view();
        match self.index_of(&m.id) {
            Some(i) => {
                proof {
                    lemma_map_of_update(s, i as int, m@);
                }
                self.entries.set(i, m);
                proof {
                    assert(self.entries.deep_view() =~= s.update(i as int, m@));
                }
            },
            None => {
                proof {
                    lemma_map_of_push(s, m@);
                }
                self.entries.push(m);
                proof {
                    assert(self.entries.deep_view() =~= s.push(m@));
                }
            },
        }
    }

    /// Forget the entry for `id`, if there is one.
    pub fn remove(&mut self, id: &String)
        requires
            old(self).wf(),
        ensures
            final(self).wf(),
            final(self).as_map() == old(self).as_map().remove(id@),
    {
        let ghost s = self.entries.deep_view();
        match self.index_of(id) {
            Some(i) => {
                proof {
                    lemma_map_of_remove(s, i as int);
                }
                self.entries.remove(i);
                proof {
                    assert(self.entries.deep_view() =~= s.remove(i as int));
                }
            },
            None => {
                proof {
                    lemma_map_of_contains(s, id@);
                    assert(map_of(s).remove(id@) =~= map_of(s));
                }
            },
        }
    }

    /// Set the speaking flag for `id`; a user the table does not know stays
    /// unknown.
    pub fn set_speaking(&mut self, id: &String, speaking: bool)
        requires
            old(self).wf(),
        ensures
            final(self).wf(),
            final(self).as_map() == set_speaking_map(old(self).as_map(), id@, speaking),
    {
        let ghost s = self.entries.deep_view();
        match self.index_of(id) {
            Some(i) => {
                proof {
                    lemma_map_of_get(s, i as int);
                    lemma_map_of_contains(s, id@);
                }
                let m = self.entries[i].with_speaking(speaking);
                proof {
                    lemma_map_of_update(s, i as int, m@);
                }
                self.entries.set(i, m);
                proof {
                    assert(self.entries.deep_view() =~= s.update(i as int, m@));
                }
            },
            None => {
                proof {
                    lemma_map_of_contains(s, id@);
                }
            },
        }
    }

    /// The recorded info for `id`, if any.
    pub fn get(&self, id: &String) -> (r: Option<&Member>)
        requires
            self.wf(),
        ensures
            match r {
                Some(m) => self.as_map().contains_key(id@) && m@ == self.as_map()[id@],
                None => !self.as_map().contains_key(id@),
            },
    {
        let ghost s = self.entries.deep_view();
        match self.index_of(id) {
            Some(i) => {
                proof {
                    lemma_map_of_get(s, i as int);
                }
                Some(&self.entries[i])
            },
            None => {
                proof {
                    lemma_map_of_contains(s, id@);
                }
                None
            },
        }
    }

    /// Whether the table knows `id`.
    pub fn contains(&self, id: &String) -> (r: bool)
        requires
            self.wf(),
        ensures
            r == self.as_map().contains_key(id@),
    {
        self.get(id).is_some()
    }
}

} // verus!
