use vstd::prelude::*;

use crate::text::str_eq;

verus! {

/// The map that results from inserting each pair in order, a later pair
/// replacing an earlier one with the same name.
pub open spec fn map_of(s: Seq<(String, bool)>) -> Map<Seq<char>, bool>
    decreases s.len(),
{
    if s.len() == 0 {
        Map::empty()
    } else {
        map_of(s.drop_last()).insert(s.last().0@, s.last().1)
    }
}

/// Reading a flag: absent for a name outside the universe.
pub open spec fn flag_get(m: Map<Seq<char>, bool>, k: Seq<char>) -> Option<bool> {
    if m.dom().contains(k) {
        Some(m[k])
    } else {
        None
    }
}

/// Writing a flag: only a name of the universe is changed.
pub open spec fn flag_set(m: Map<Seq<char>, bool>, k: Seq<char>, v: bool) -> Map<Seq<char>, bool> {
    if m.dom().contains(k) {
        m.insert(k, v)
    } else {
        m
    }
}

/// Whether a flag is present and holds `b`.
pub open spec fn flag_is(m: Map<Seq<char>, bool>, k: Seq<char>, b: bool) -> bool {
    flag_get(m, k) == Some(b)
}

/// A fixed universe of named boolean flags.
pub struct Flags {
    flag_map: Vec<(String, bool)>,
}

impl View for Flags {
    type V = Map<Seq<char>, bool>;

    closed spec fn view(&self) -> Map<Seq<char>, bool> {
        map_of(self.flag_map@)
    }
}

proof fn lemma_map_of_after(s: Seq<(String, bool)>, i: int, k: Seq<char>)
    requires
        0 <= i <= s.len(),
        forall|j: int| i <= j < s.len() ==> s[j].0@ != k,
    ensures
        flag_get(map_of(s), k) == flag_get(map_of(s.subrange(0, i)), k),
    decreases s.len(),
{
    if s.len() > i {
        assert(s.drop_last().subrange(0, i) =~= s.subrange(0, i));
        lemma_map_of_after(s.drop_last(), i, k);
    } else {
        assert(s.subrange(0, i) =~= s);
    }
}

proof fn lemma_map_of_at(s: Seq<(String, bool)>, i: int, k: Seq<char>)
    requires
        0 <= i < s.len(),
        s[i].0@ == k,
        forall|j: int| i < j < s.len() ==> s[j].0@ != k,
    ensures
        flag_get(map_of(s), k) == Some(s[i].1),
{
    lemma_map_of_after(s, i + 1, k);
    assert(s.subrange(0, i + 1).drop_last() =~= s.subrange(0, i));
}

proof fn lemma_map_of_update(s: Seq<(String, bool)>, i: int, v: bool)
    requires
        0 <= i < s.len(),
        forall|j: int| i < j < s.len() ==> s[j].0@ != s[i].0@,
    ensures
        map_of(s.update(i, (s[i].0, v))) == map_of(s).insert(s[i].0@, v),
    decreases s.len(),
{
    let t = s.update(i, (s[i].0, v));
    if i == s.len() - 1 {
        assert(t.drop_last() =~= s.drop_last());
        assert(map_of(t) =~= map_of(s).insert(s[i].0@, v));
    } else {
        assert(t.drop_last() =~= s.drop_last().update(i, (s[i].0, v)));
        lemma_map_of_update(s.drop_last(), i, v);
        assert(map_of(t) =~= map_of(s).insert(s[i].0@, v));
    }
}

proof fn lemma_map_of_none(s: Seq<(String, bool)>, k: Seq<char>)
    requires
        forall|j: int| 0 <= j < s.len() ==> s[j].0@ != k,
    ensures
        !map_of(s).dom().contains(k),
{
    lemma_map_of_after(s, 0, k);
    assert(s.subrange(0, 0) =~= Seq::<(String, bool)>::empty());
}

impl Flags {
    /// Builds the store from its pairs; a later pair replaces an earlier one
    /// with the same name.
    pub fn new(flag_map: Vec<(String, bool)>) -> (r: Flags)
        ensures
            r@ == map_of(flag_map@),
    {
        Flags { flag_map }
    }

    /// Position of the last pair named `key_name`.
    fn find(&self, key_name: &str) -> (r: Option<usize>)
        ensures
            match r {
                Some(i) => {
                    &&& i < self.flag_map@.len()
                    &&& self.flag_map@[i as int].0@ == key_name@
                    &&& forall|j: int|
                        i < j < self.flag_map@.len() ==> self.flag_map@[j].0@ != key_name@
                },
                None => forall|j: int|
                    0 <= j < self.flag_map@.len() ==> self.flag_map@[j].0@ != key_name@,
            },
    {
        let mut i: usize = self.flag_map.len();
        while i > 0
            invariant
                i <= self.flag_map@.len(),
                forall|j: int| i <= j < self.flag_map@.len() ==> self.flag_map@[j].0@ != key_name@,
            decreases i,
        {
            i -= 1;
            if str_eq(self.flag_map[i].0.as_str(), key_name) {
                return Some(i);
            }
        }
        None
    }

    /// The value of a flag, absent for a name outside the universe.
    pub fn get_key(&self, key_name: &str) -> (r: Option<bool>)
        ensures
            r == flag_get(self@, key_name@),
    {
        match self.find(key_name) {
            Some(i) => {
                proof {
                    lemma_map_of_at(self.flag_map@, i as int, key_name@);
                }
                Some(self.flag_map[i].1)
            },
            None => {
                proof {
                    lemma_map_of_none(self.flag_map@, key_name@);
                }
                None
            },
        }
    }

    /// Whether a flag is present and holds `value`.
    pub fn is(&self, key_name: &str, value: bool) -> (r: bool)
        ensures
            r == flag_is(self@, key_name@, value),
    {
        match self.get_key(key_name) {
            Some(b) => b == value,
            None => false,
        }
    }

    /// Sets a flag of the universe; a name outside it is ignored.
    pub fn update_key(&mut self, key_name: &str, new_bool: bool)
        ensures
            final(self)@ == flag_set(old(self)@, key_name@, new_bool),
    {
        match self.find(key_name) {
            Some(i) => {
                proof {
                    lemma_map_of_at(self.flag_map@, i as int, key_name@);
                    lemma_map_of_update(self.flag_map@, i as int, new_bool);
                }
                let name = self.flag_map[i].0.clone();
                self.flag_map.set(i, (name, new_bool));
            },
            None => {
                proof {
                    lemma_map_of_none(self.flag_map@, key_name@);
                }
            },
        }
    }
}

/// A name outside the universe reads as absent, and writing it leaves
/// every flag as it was.
pub proof fn lemma_unknown_flag(f: Flags, k: Seq<char>, v: bool)
    requires
        !f@.dom().contains(k),
    ensures
        flag_get(f@, k) == None::<bool>,
        flag_set(f@, k, v) == f@,
{
}

/// After a flag of the universe is written, reading it gives the value written.
pub proof fn lemma_set_then_get(f: Flags, k: Seq<char>, v: bool)
    requires
        f@.dom().contains(k),
    ensures
        flag_get(flag_set(f@, k, v), k) == Some(v),
        flag_set(f@, k, v).dom() == f@.dom(),
{
    assert(flag_set(f@, k, v).dom() =~= f@.dom());
}

} // verus!
