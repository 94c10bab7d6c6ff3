//! The session registry: which chat contexts translate, and between which
//! languages.

use vstd::prelude::*;

verus! {

/// The identity of a chat context: a network and a channel, compared exactly.
pub struct ChannelKey {
    pub network: String,
    pub channel: String,
}

impl ChannelKey {
    pub open spec fn view(&self) -> (Seq<char>, Seq<char>) {
        (self.network@, self.channel@)
    }

    /// A copy of the key.
    pub fn duplicate(&self) -> (r: ChannelKey)
        ensures
            r@ == self@,
    {
        ChannelKey { network: self.network.clone(), channel: self.channel.clone() }
    }
}

/// The languages of a translating context, as codes: the user's own language
/// (`source`) and the language the context is spoken in (`target`).
pub struct LanguagePair {
    pub source: String,
    pub target: String,
}

impl LanguagePair {
    pub open spec fn view(&self) -> (Seq<char>, Seq<char>) {
        (self.source@, self.target@)
    }

    /// A copy of the pair.
    pub fn duplicate(&self) -> (r: LanguagePair)
        ensures
            r@ == self@,
    {
        LanguagePair { source: self.source.clone(), target: self.target.clone() }
    }
}

/// The contexts that translate, each with its language pair. A key is
/// present exactly while translation is on for that context.
pub struct Registry {
    entries: Vec<(ChannelKey, LanguagePair)>,
    contents: Ghost<Map<(Seq<char>, Seq<char>), (Seq<char>, Seq<char>)>>,
}

impl Registry {
    /// The sessions, as a map from context to language pair.
    pub closed spec fn view(&self) -> Map<(Seq<char>, Seq<char>), (Seq<char>, Seq<char>)> {
        self.contents@
    }

    /// Each key is stored once, and the stored entries are the map.
    pub closed spec fn wf(&self) -> bool {
        &&& forall|i: int, j: int|
            0 <= i < j < self.entries@.len() ==> self.entries@[i].0@ != self.entries@[j].0@
        &&& forall|i: int|
            0 <= i < self.entries@.len() ==> #[trigger] self.contents@.contains_key(self.entries@[i].0@)
                && self.contents@[self.entries@[i].0@] == self.entries@[i].1@
        &&& forall|k: (Seq<char>, Seq<char>)|
            #[trigger] self.contents@.contains_key(k) ==> exists|i: int|
                0 <= i < self.entries@.len() && self.entries@[i].0@ == k
    }

    /// An empty registry: no context translates.
    pub fn new() -> (r: Registry)
        ensures
            r.wf(),
            r@ == Map::<(Seq<char>, Seq<char>), (Seq<char>, Seq<char>)>::empty(),
    {
        Registry { entries: Vec::new(), contents: Ghost(Map::empty()) }
    }

    /// The position of `key` among the stored entries.
    fn position(&self, key: &ChannelKey) -> (r: Option<usize>)
        requires
            self.wf(),
        ensures
            match r {
                Some(i) => i < self.entries@.len() && self.entries@[i as int].0@ == key@,
                None => !self@.contains_key(key@),
            },
    {
        let mut i: usize = 0;
        while i < self.entries.len()
            invariant
                self.wf(),
                i <= self.entries@.len(),
                forall|j: int| 0 <= j < i ==> self.entries@[j].0@ != key@,
            decreases self.entries@.len() - i,
        {
            let e = &self.entries[i];
            if e.0.network == key.network && e.0.channel == key.channel {
                return Some(i);
            }
            i = i + 1;
        }
        None
    }

    /// The language pair of a context, if translation is on there.
    pub fn lookup(&self, key: &ChannelKey) -> (r: Option<LanguagePair>)
        requires
            self.wf(),
        ensures
            match r {
                Some(p) => self@.contains_key(key@) && self@[key@] == p@,
                None => !self@.contains_key(key@),
            },
    {
        match self.position(key) {
            Some(i) => {
                proof {
                    assert(self.contents@.contains_key(self.entries@[i as int].0@));
                }
                Some(self.entries[i].1.duplicate())
            },
            None => None,
        }
    }

    /// Turns translation on for a context, replacing any earlier pair.
    pub fn activate(&mut self, key: ChannelKey, pair: LanguagePair)
        requires
            old(self).wf(),
        ensures
            final(self).wf(),
            final(self)@ == old(self)@.insert(key@, pair@),
    {
        let ghost k = key@;
        let ghost p = pair@;
        let ghost before = self.entries@;
        let ghost old_map = self.contents@;
        match self.position(&key) {
            Some(i) => {
                self.entries.remove(i);
                proof {
                    assert forall|m: int| 0 <= m < self.entries@.len() implies {
                        &&& self.entries@[m].0@ != k
                        &&& old_map.contains_key(self.entries@[m].0@)
                        &&& old_map[self.entries@[m].0@] == self.entries@[m].1@
                    } by {
                        if m < i {
                            assert(before[m].0@ != before[i as int].0@);
                            assert(old_map.contains_key(before[m].0@));
                        } else {
                            assert(before[i as int].0@ != before[m + 1].0@);
                            assert(old_map.contains_key(before[m + 1].0@));
                        }
                    }
                    assert forall|a: int, b: int| 0 <= a < b < self.entries@.len() implies
                        self.entries@[a].0@ != self.entries@[b].0@ by {
                        let ja = if a < i { a } else { a + 1 };
                        let jb = if b < i { b } else { b + 1 };
                        assert(before[ja].0@ != before[jb].0@);
                    }
                }
            },
            None => {
                proof {
                    assert forall|m: int| 0 <= m < self.entries@.len() implies {
                        &&& self.entries@[m].0@ != k
                        &&& old_map.contains_key(self.entries@[m].0@)
                        &&& old_map[self.entries@[m].0@] == self.entries@[m].1@
                    } by {
                        assert(old_map.contains_key(before[m].0@));
                    }
                }
            },
        }
        let ghost mid = self.entries@;
        self.entries.push((key, pair));
        self.contents = Ghost(self.contents@.insert(k, p));
        assert forall|k2: (Seq<char>, Seq<char>)| #[trigger] self.contents@.contains_key(k2) implies exists|i: int|
            0 <= i < self.entries@.len() && self.entries@[i].0@ == k2 by {
            if k2 != k {
                let j = choose|j: int| 0 <= j < old(self).entries@.len() && old(self).entries@[j].0@ == k2;
                if j < self.entries@.len() - 1 && self.entries@[j].0@ == k2 {
                } else {
                    assert(self.entries@[j - 1].0@ == k2);
                }
            } else {
                assert(self.entries@[self.entries@.len() - 1].0@ == k2);
            }
        }
    }

    /// Turns translation off for a context; nothing changes where it was off.
    pub fn deactivate(&mut self, key: &ChannelKey)
        requires
            old(self).wf(),
        ensures
            final(self).wf(),
            final(self)@ == old(self)@.remove(key@),
    {
        match self.position(key) {
            Some(i) => {
                self.entries.remove(i);
            },
            None => {},
        }
        self.contents = Ghost(self.contents@.remove(key@));
        assert forall|k2: (Seq<char>, Seq<char>)| #[trigger] self.contents@.contains_key(k2) implies exists|i: int|
            0 <= i < self.entries@.len() && self.entries@[i].0@ == k2 by {
            let j = choose|j: int| 0 <= j < old(self).entries@.len() && old(self).entries@[j].0@ == k2;
            if j < self.entries@.len() && self.entries@[j].0@ == k2 {
            } else {
                assert(self.entries@[j - 1].0@ == k2);
            }
        }
        assert(self@ =~= old(self)@.remove(key@));
    }
}

/// Turning translation on makes a lookup give the pair; turning it off again
/// makes the lookup give nothing.
pub proof fn lemma_activate_deactivate_round_trip(
    s: Map<(Seq<char>, Seq<char>), (Seq<char>, Seq<char>)>,
    key: (Seq<char>, Seq<char>),
    pair: (Seq<char>, Seq<char>),
)
    ensures
        s.insert(key, pair).contains_key(key),
        s.insert(key, pair)[key] == pair,
        !s.insert(key, pair).remove(key).contains_key(key),
{
}

/// Turning translation on twice keeps the second pair only.
pub proof fn lemma_reactivation_overwrites(
    s: Map<(Seq<char>, Seq<char>), (Seq<char>, Seq<char>)>,
    key: (Seq<char>, Seq<char>),
    first: (Seq<char>, Seq<char>),
    second: (Seq<char>, Seq<char>),
)
    ensures
        s.insert(key, first).insert(key, second)[key] == second,
        s.insert(key, first).insert(key, second) == s.insert(key, second),
{
    assert(s.insert(key, first).insert(key, second) =~= s.insert(key, second));
}

/// Turning translation off where it is off changes nothing.
pub proof fn lemma_deactivate_absent(
    s: Map<(Seq<char>, Seq<char>), (Seq<char>, Seq<char>)>,
    key: (Seq<char>, Seq<char>),
)
    requires
        !s.contains_key(key),
    ensures
        s.remove(key) == s,
{
    assert(s.remove(key) =~= s);
}

} // verus!
