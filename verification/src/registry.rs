//! Per-guild registries. Guild identifiers are strings, so the shared maps
//! are kept as association lists with first-match lookup; the generic spec
//! functions and lemmas here serve both the voice-state aggregator and the
//! handle registries.

use vstd::prelude::*;
use crate::strings::str_eq;

verus! {

/// First-match lookup of a key in an association list.
pub open spec fn spec_assoc_get<V>(s: Seq<(String, V)>, g: Seq<char>) -> Option<V>
    decreases s.len(),
{
    if s.len() == 0 {
        Option::None
    } else if s[0].0@ == g {
        Option::Some(s[0].1)
    } else {
        spec_assoc_get(s.drop_first(), g)
    }
}

/// The association list with every entry under key `g` removed.
pub open spec fn spec_assoc_remove<V>(s: Seq<(String, V)>, g: Seq<char>) -> Seq<(String, V)>
    decreases s.len(),
{
    if s.len() == 0 {
        s
    } else if s[0].0@ == g {
        spec_assoc_remove(s.drop_first(), g)
    } else {
        seq![s[0]] + spec_assoc_remove(s.drop_first(), g)
    }
}

/// Appending an entry removes nothing: the filtered list grows by the entry
/// exactly when its key differs from the removed one.
pub proof fn lemma_assoc_remove_snoc<V>(s: Seq<(String, V)>, e: (String, V), g: Seq<char>)
    ensures
        spec_assoc_remove(s.push(e), g) == if e.0@ == g {
            spec_assoc_remove(s, g)
        } else {
            spec_assoc_remove(s, g).push(e)
        },
    decreases s.len(),
{
    let t = s.push(e);
    assert(t.len() > 0);
    if s.len() == 0 {
        assert(t[0] == e);
        assert(t.drop_first() =~= Seq::<(String, V)>::empty());
        assert(spec_assoc_remove(Seq::<(String, V)>::empty(), g) =~= Seq::<(String, V)>::empty());
        if e.0@ == g {
            assert(spec_assoc_remove(t, g) =~= spec_assoc_remove(s, g));
        } else {
            assert(spec_assoc_remove(t, g) =~= spec_assoc_remove(s, g).push(e));
        }
    } else {
        assert(t[0] == s[0]);
        assert(t.drop_first() =~= s.drop_first().push(e));
        lemma_assoc_remove_snoc(s.drop_first(), e, g);
        if e.0@ == g {
            assert(spec_assoc_remove(t, g) =~= spec_assoc_remove(s, g));
        } else {
            if s[0].0@ == g {
                assert(spec_assoc_remove(t, g) =~= spec_assoc_remove(s, g).push(e));
            } else {
                assert(seq![s[0]] + spec_assoc_remove(s.drop_first(), g).push(e) =~= (seq![s[0]]
                    + spec_assoc_remove(s.drop_first(), g)).push(e));
                assert(spec_assoc_remove(t, g) =~= spec_assoc_remove(s, g).push(e));
            }
        }
    }
}

/// Looking a key up after a removal: the removed key is gone, every other
/// key answers as before.
pub proof fn lemma_assoc_get_remove<V>(s: Seq<(String, V)>, g: Seq<char>, h: Seq<char>)
    ensures
        spec_assoc_get(spec_assoc_remove(s, g), h) == if h == g {
            Option::None
        } else {
            spec_assoc_get(s, h)
        },
    decreases s.len(),
{
    if s.len() > 0 {
        lemma_assoc_get_remove(s.drop_first(), g, h);
        if s[0].0@ != g {
            let rest = spec_assoc_remove(s.drop_first(), g);
            let whole = seq![s[0]] + rest;
            assert(whole.len() > 0);
            assert(whole[0] == s[0]);
            assert(whole.drop_first() =~= rest);
        }
    }
}

/// Looking a key up after an append: an existing first match still answers;
/// otherwise the appended entry answers exactly for its own key.
pub proof fn lemma_assoc_get_push<V>(s: Seq<(String, V)>, e: (String, V), h: Seq<char>)
    ensures
        spec_assoc_get(s.push(e), h) == if spec_assoc_get(s, h) is Some {
            spec_assoc_get(s, h)
        } else if e.0@ == h {
            Option::Some(e.1)
        } else {
            Option::None
        },
    decreases s.len(),
{
    let t = s.push(e);
    if s.len() == 0 {
        assert(t[0] == e);
        assert(t.drop_first() =~= Seq::<(String, V)>::empty());
    } else {
        assert(t[0] == s[0]);
        assert(t.drop_first() =~= s.drop_first().push(e));
        lemma_assoc_get_push(s.drop_first(), e, h);
    }
}

proof fn lemma_assoc_get_skip<V>(s: Seq<(String, V)>, i: int, g: Seq<char>)
    requires
        0 <= i < s.len(),
        s[i].0@ != g,
    ensures
        spec_assoc_get(s.skip(i), g) == spec_assoc_get(s.skip(i + 1), g),
{
    assert(s.skip(i).len() > 0);
    assert(s.skip(i)[0] == s[i]);
    assert(s.skip(i).drop_first() =~= s.skip(i + 1));
}

/// A registry of one plain handle per guild. The handles themselves live
/// with the caller; the registry only records which guild owns which.
pub struct HandleMap {
    entries: Vec<(String, u64)>,
}

impl HandleMap {
    /// The handle registered for a guild, if any.
    pub closed spec fn spec_get(self, g: Seq<char>) -> Option<u64> {
        spec_assoc_get(self.entries@, g)
    }

    /// An empty registry.
    pub fn new() -> (m: HandleMap)
        ensures
            forall|g: Seq<char>| m.spec_get(g) is None,
    {
        HandleMap { entries: Vec::new() }
    }

    /// The handle registered for `guild_id`, if any.
    pub fn get(&self, guild_id: &str) -> (r: Option<u64>)
        ensures
            r == self.spec_get(guild_id@),
    {
        let mut i: usize = 0;
        proof {
            assert(self.entries@.skip(0) =~= self.entries@);
        }
        while i < self.entries.len()
            invariant
                i <= self.entries@.len(),
                spec_assoc_get(self.entries@, guild_id@) == spec_assoc_get(
                    self.entries@.skip(i as int),
                    guild_id@,
                ),
            decreases self.entries@.len() - i,
        {
            let e = &self.entries[i];
            if str_eq(e.0.as_str(), guild_id) {
                proof {
                    assert(self.entries@.skip(i as int)[0] == self.entries@[i as int]);
                }
                return Some(e.1);
            }
            proof {
                lemma_assoc_get_skip(self.entries@, i as int, guild_id@);
            }
            i = i + 1;
        }
        proof {
            assert(self.entries@.skip(i as int) =~= Seq::<(String, u64)>::empty());
        }
        None
    }

    fn remove_key(&mut self, guild_id: &str)
        ensures
            final(self).entries@ == spec_assoc_remove(old(self).entries@, guild_id@),
    {
        let mut out: Vec<(String, u64)> = Vec::new();
        let mut i: usize = 0;
        while i < self.entries.len()
            invariant
                i <= self.entries@.len(),
                out@ == spec_assoc_remove(self.entries@.subrange(0, i as int), guild_id@),
            decreases self.entries@.len() - i,
        {
            let e = &self.entries[i];
            proof {
                assert(self.entries@.subrange(0, i as int).push(self.entries@[i as int])
                    =~= self.entries@.subrange(0, i + 1 as int));
                lemma_assoc_remove_snoc(
                    self.entries@.subrange(0, i as int),
                    self.entries@[i as int],
                    guild_id@,
                );
            }
            if !str_eq(e.0.as_str(), guild_id) {
                let key = e.0.clone();
                let val = e.1;
                out.push((key, val));
                proof {
                    assert((key, val) == self.entries@[i as int]);
                }
            }
            i = i + 1;
        }
        proof {
            assert(self.entries@.subrange(0, self.entries@.len() as int) =~= self.entries@);
        }
        self.entries = out;
    }

    /// Registers `handle` for `guild_id`, displacing and returning the
    /// handle the guild held before, if any.
    pub fn insert(&mut self, guild_id: &str, handle: u64) -> (prior: Option<u64>)
        ensures
            prior == old(self).spec_get(guild_id@),
            final(self).spec_get(guild_id@) == Some(handle),
            forall|h: Seq<char>|
                h != guild_id@ ==> final(self).spec_get(h) == old(self).spec_get(h),
    {
        let prior = self.get(guild_id);
        self.remove_key(guild_id);
        let key: String = guild_id.to_owned();
        self.entries.push((key, handle));
        proof {
            let removed = spec_assoc_remove(old(self).entries@, guild_id@);
            assert(final(self).entries@ =~= removed.push((key, handle)));
            assert forall|h: Seq<char>| true implies spec_assoc_get(
                final(self).entries@,
                h,
            ) == if h == guild_id@ {
                Option::Some(handle)
            } else {
                spec_assoc_get(old(self).entries@, h)
            } by {
                lemma_assoc_get_remove(old(self).entries@, guild_id@, h);
                lemma_assoc_get_push(removed, (key, handle), h);
            }
        }
        prior
    }

    /// Removes and returns the handle registered for `guild_id`, if any.
    pub fn remove(&mut self, guild_id: &str) -> (prior: Option<u64>)
        ensures
            prior == old(self).spec_get(guild_id@),
            final(self).spec_get(guild_id@) is None,
            forall|h: Seq<char>|
                h != guild_id@ ==> final(self).spec_get(h) == old(self).spec_get(h),
    {
        let prior = self.get(guild_id);
        self.remove_key(guild_id);
        proof {
            assert forall|h: Seq<char>| true implies spec_assoc_get(
                final(self).entries@,
                h,
            ) == if h == guild_id@ {
                Option::None::<u64>
            } else {
                spec_assoc_get(old(self).entries@, h)
            } by {
                lemma_assoc_get_remove(old(self).entries@, guild_id@, h);
            }
        }
        prior
    }
}

} // verus!
