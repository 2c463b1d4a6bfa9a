//! String-keyed maps with `HashMap<String, String>` semantics, as used for
//! event `ext` maps, message `extra` maps and Redis hash states.
use vstd::prelude::*;
use crate::text::str_eq;

verus! {

/// The value stored under `key`: the first entry with that key.  Inserting
/// replaces an existing entry, so each key occurs at most once.
pub open spec fn lookup(entries: Seq<(String, String)>, key: Seq<char>) -> Option<Seq<char>>
    decreases entries.len(),
{
    if entries.len() == 0 {
        None
    } else if entries[0].0@ == key {
        Some(entries[0].1@)
    } else {
        lookup(entries.drop_first(), key)
    }
}

/// The map a `FieldMap` stands for.
pub open spec fn map_of(m: FieldMap) -> Map<Seq<char>, Seq<char>> {
    Map::new(|k: Seq<char>| m.get_spec(k) is Some, |k: Seq<char>| m.get_spec(k).unwrap())
}

/// `entry(k).or_insert(v)` on a map.
pub open spec fn or_insert(m: Map<Seq<char>, Seq<char>>, k: Seq<char>, v: Seq<char>) -> Map<Seq<char>, Seq<char>> {
    if m.dom().contains(k) {
        m
    } else {
        m.insert(k, v)
    }
}

/// A map from strings to strings.
#[derive(Debug, Clone)]
pub struct FieldMap {
    pub entries: Vec<(String, String)>,
}

impl FieldMap {
    /// The value stored under `key`.
    pub open spec fn get_spec(&self, key: Seq<char>) -> Option<Seq<char>> {
        lookup(self.entries@, key)
    }

    pub fn new() -> (r: Self)
        ensures
            forall|k: Seq<char>| r.get_spec(k) is None,
    {
        FieldMap { entries: Vec::new() }
    }

    /// Position of the entry stored under `key`, if any.
    fn position(&self, key: &str) -> (r: Option<usize>)
        ensures
            match r {
                Some(i) => i < self.entries@.len() && self.entries@[i as int].0@ == key@
                    && lookup(self.entries@, key@) == Some(self.entries@[i as int].1@)
                    && forall|j: int| 0 <= j < i ==> self.entries@[j].0@ != key@,
                None => lookup(self.entries@, key@) is None && forall|j: int|
                    0 <= j < self.entries@.len() ==> self.entries@[j].0@ != key@,
            },
    {
        let mut i: usize = 0;
        assert(self.entries@.subrange(0, self.entries@.len() as int) =~= self.entries@);
        while i < self.entries.len()
            invariant
                i <= self.entries@.len(),
                forall|j: int| 0 <= j < i ==> self.entries@[j].0@ != key@,
                lookup(self.entries@, key@) == lookup(self.entries@.subrange(i as int, self.entries@.len() as int), key@),
            decreases self.entries@.len() - i,
        {
            let ghost rest = self.entries@.subrange(i as int, self.entries@.len() as int);
            assert(rest[0] == self.entries@[i as int]);
            if str_eq(self.entries[i].0.as_str(), key) {
                return Some(i);
            }
            assert(rest.drop_first() =~= self.entries@.subrange(i + 1, self.entries@.len() as int));
            i = i + 1;
        }
        None
    }

    /// `HashMap::get`.
    pub fn get(&self, key: &str) -> (r: Option<&String>)
        ensures
            match r {
                Some(v) => self.get_spec(key@) == Some(v@),
                None => self.get_spec(key@) is None,
            },
    {
        proof {
            assert(self.entries@.subrange(0, self.entries@.len() as int) =~= self.entries@);
        }
        match self.position(key) {
            Some(i) => Some(&self.entries[i].1),
            None => None,
        }
    }

    /// `HashMap::is_empty`.
    pub fn is_empty(&self) -> (r: bool)
        ensures
            r == (self.entries@.len() == 0),
    {
        self.entries.len() == 0
    }

    /// An entry-by-entry copy.
    pub fn duplicate(&self) -> (r: Self)
        ensures
            r.entries@ == self.entries@,
    {
        let mut entries: Vec<(String, String)> = Vec::new();
        let mut i: usize = 0;
        while i < self.entries.len()
            invariant
                i <= self.entries@.len(),
                entries@ == self.entries@.subrange(0, i as int),
            decreases self.entries@.len() - i,
        {
            let k = self.entries[i].0.clone();
            let v = self.entries[i].1.clone();
            entries.push((k, v));
            assert(self.entries@.subrange(0, i + 1) =~= self.entries@.subrange(0, i as int).push(self.entries@[i as int]));
            i = i + 1;
        }
        assert(self.entries@.subrange(0, i as int) =~= self.entries@);
        FieldMap { entries }
    }

    /// `HashMap::contains_key`.
    pub fn contains_key(&self, key: &str) -> (r: bool)
        ensures
            r == (self.get_spec(key@) is Some),
    {
        self.get(key).is_some()
    }

    /// `HashMap::insert` (the previous value is dropped).
    pub fn insert(&mut self, key: String, value: String)
        ensures
            forall|k: Seq<char>|
                #![trigger final(self).get_spec(k)]
                final(self).get_spec(k) == (if k == key@ {
                    Some(value@)
                } else {
                    old(self).get_spec(k)
                }),
    {
        proof {
            assert(self.entries@.subrange(0, self.entries@.len() as int) =~= self.entries@);
        }
        let ghost before = self.entries@;
        match self.position(key.as_str()) {
            Some(i) => {
                proof {
                    lemma_lookup_update(before, i as int, key@, value@);
                }
                self.entries.set(i, (key, value));
                proof {
                    let e = (key, value);
                    assert(self.entries@ == before.update(i as int, e));
                }
            },
            None => {
                let ghost kv = key@;
                let ghost vv = value@;
                self.entries.push((key, value));
                proof {
                    assert(self.entries@.subrange(0, before.len() as int) =~= before);
                    lemma_lookup_push_absent(before, kv, vv, self.entries@);
                }
            },
        }
    }
    /// `HashMap::entry(key).or_insert(value)`: stores `value` unless `key`
    /// is already present.
    pub fn entry_or_insert(&mut self, key: String, value: String)
        ensures
            forall|k: Seq<char>|
                #![trigger final(self).get_spec(k)]
                final(self).get_spec(k) == (if k == key@ && old(self).get_spec(k) is None {
                    Some(value@)
                } else {
                    old(self).get_spec(k)
                }),
    {
        if !self.contains_key(key.as_str()) {
            self.insert(key, value);
        }
    }

    /// `HashMap::remove` (the removed value is dropped).
    pub fn remove(&mut self, key: &str)
        ensures
            forall|k: Seq<char>|
                #![trigger final(self).get_spec(k)]
                final(self).get_spec(k) == (if k == key@ {
                    None
                } else {
                    old(self).get_spec(k)
                }),
    {
        let mut kept: Vec<(String, String)> = Vec::new();
        let mut i: usize = 0;
        let ghost before = self.entries@;
        while i < self.entries.len()
            invariant
                i <= self.entries@.len(),
                self.entries@ == before,
                kept@ == without_key(before.subrange(0, i as int), key@),
            decreases self.entries@.len() - i,
        {
            proof {
                lemma_without_key_push(before.subrange(0, i as int), before[i as int], key@);
                assert(before.subrange(0, i + 1) =~= before.subrange(0, i as int).push(before[i as int]));
            }
            if !str_eq(self.entries[i].0.as_str(), key) {
                let k = self.entries[i].0.clone();
                let v = self.entries[i].1.clone();
                kept.push((k, v));
            }
            i = i + 1;
        }
        proof {
            assert(before.subrange(0, i as int) =~= before);
            lemma_lookup_without_key(before, key@);
        }
        self.entries = kept;
    }
}

/// The entries whose key is not `key`, in order.
pub open spec fn without_key(s: Seq<(String, String)>, key: Seq<char>) -> Seq<(String, String)>
    decreases s.len(),
{
    if s.len() == 0 {
        s
    } else if s.last().0@ == key {
        without_key(s.drop_last(), key)
    } else {
        without_key(s.drop_last(), key).push(s.last())
    }
}

proof fn lemma_without_key_push(s: Seq<(String, String)>, e: (String, String), key: Seq<char>)
    ensures
        without_key(s.push(e), key) == (if e.0@ == key {
            without_key(s, key)
        } else {
            without_key(s, key).push(e)
        }),
{
    assert(s.push(e).drop_last() =~= s);
}

pub proof fn lemma_lookup_push(s: Seq<(String, String)>, e: (String, String), k: Seq<char>)
    ensures
        lookup(s.push(e), k) == (if lookup(s, k) is Some {
            lookup(s, k)
        } else if e.0@ == k {
            Some(e.1@)
        } else {
            None
        }),
    decreases s.len(),
{
    if s.len() > 0 {
        assert(s.push(e).drop_first() =~= s.drop_first().push(e));
        assert(s.push(e)[0] == s[0]);
        lemma_lookup_push(s.drop_first(), e, k);
    } else {
        assert(s.push(e).drop_first() =~= s);
        assert(s.push(e)[0] == e);
    }
}

proof fn lemma_lookup_without_key(s: Seq<(String, String)>, key: Seq<char>)
    ensures
        forall|k: Seq<char>| #[trigger] lookup(without_key(s, key), k) == (if k == key {
            None
        } else {
            lookup(s, k)
        }),
    decreases s.len(),
{
    if s.len() > 0 {
        let p = s.drop_last();
        lemma_lookup_without_key(p, key);
        assert(s == p.push(s.last()));
        assert forall|k: Seq<char>| #[trigger] lookup(without_key(s, key), k) == (if k == key {
            None
        } else {
            lookup(s, k)
        }) by {
            lemma_lookup_push(p, s.last(), k);
            if s.last().0@ != key {
                lemma_lookup_push(without_key(p, key), s.last(), k);
            }
        }
    }
}

proof fn lemma_lookup_update(s: Seq<(String, String)>, i: int, key: Seq<char>, value: Seq<char>)
    requires
        0 <= i < s.len(),
        s[i].0@ == key,
        forall|j: int| 0 <= j < i ==> s[j].0@ != key,
    ensures
        forall|e: (String, String), k: Seq<char>|
            e.0@ == key && e.1@ == value ==> #[trigger] lookup(s.update(i, e), k) == (if k == key {
                Some(value)
            } else {
                lookup(s, k)
            }),
    decreases i,
{
    if i > 0 {
        lemma_lookup_update(s.drop_first(), i - 1, key, value);
    }
    assert forall|e: (String, String), k: Seq<char>|
        e.0@ == key && e.1@ == value implies #[trigger] lookup(s.update(i, e), k) == (if k == key {
            Some(value)
        } else {
            lookup(s, k)
        }) by {
        let u = s.update(i, e);
        assert(u.drop_first() =~= if i > 0 { s.drop_first().update(i - 1, e) } else { s.drop_first() });
        if i > 0 {
            assert(u[0] == s[0]);
            assert(s[0].0@ != key);
            assert(lookup(s.drop_first().update(i - 1, e), k) == (if k == key {
                Some(value)
            } else {
                lookup(s.drop_first(), k)
            }));
        } else {
            assert(u[0] == e);
        }
    }
}

proof fn lemma_lookup_push_absent(
    s: Seq<(String, String)>,
    key: Seq<char>,
    value: Seq<char>,
    t: Seq<(String, String)>,
)
    requires
        forall|j: int| 0 <= j < s.len() ==> s[j].0@ != key,
        t.len() == s.len() + 1,
        t.subrange(0, s.len() as int) == s,
        t[s.len() as int].0@ == key,
        t[s.len() as int].1@ == value,
    ensures
        forall|k: Seq<char>| #[trigger] lookup(t, k) == (if k == key {
            Some(value)
        } else {
            lookup(s, k)
        }),
    decreases s.len(),
{
    if s.len() > 0 {
        assert(t.drop_first().subrange(0, s.drop_first().len() as int) =~= s.drop_first());
        assert(t.drop_first()[s.drop_first().len() as int] == t[s.len() as int]);
        assert forall|j: int| 0 <= j < s.drop_first().len() implies s.drop_first()[j].0@ != key by {
            assert(s.drop_first()[j] == s[j + 1]);
        }
        lemma_lookup_push_absent(s.drop_first(), key, value, t.drop_first());
        assert(t.subrange(0, s.len() as int)[0] == t[0]);
        assert(t[0] == s[0]);
        assert(s[0].0@ != key);
    }
    assert forall|k: Seq<char>| #[trigger] lookup(t, k) == (if k == key {
        Some(value)
    } else {
        lookup(s, k)
    }) by {
        if s.len() == 0 {
            assert(t[0].0@ == key);
            assert(t.drop_first().len() == 0);
        } else {
            assert(lookup(t.drop_first(), k) == (if k == key {
                Some(value)
            } else {
                lookup(s.drop_first(), k)
            }));
        }
    }
}

} // verus!
