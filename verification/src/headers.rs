//! Lists of `name: value` pairs, and the header map of a result.
//!
//! A response carries its headers as a list of pairs in which a name may
//! occur more than once; a lookup by name finds the first of them. A
//! [`Headers`] value is such a list without repeated names, viewed as a map.

use vstd::prelude::*;
use vstd::string::*;

verus! {

/// A header as a pair of texts: its name and its value.
pub type Pair = (Seq<char>, Seq<char>);

/// The views of a list of pairs of strings.
pub open spec fn pair_views(v: Seq<(String, String)>) -> Seq<Pair> {
    v.map_values(|p: (String, String)| (p.0@, p.1@))
}

/// The index of the first pair named `name`, or the length of the list where
/// no pair has that name.
pub open spec fn position(pairs: Seq<Pair>, name: Seq<char>) -> int
    decreases pairs.len(),
{
    if pairs.len() == 0 {
        0
    } else if pairs[0].0 == name {
        0
    } else {
        1 + position(pairs.drop_first(), name)
    }
}

/// The value of the first pair named `name`, compared character by character.
pub open spec fn lookup(pairs: Seq<Pair>, name: Seq<char>) -> Option<Seq<char>> {
    let at = position(pairs, name);
    if at < pairs.len() {
        Some(pairs[at].1)
    } else {
        None
    }
}

/// The map from each name in the list to the value of its first pair.
pub open spec fn as_map(pairs: Seq<Pair>) -> Map<Seq<char>, Seq<char>> {
    Map::new(|name: Seq<char>| lookup(pairs, name) is Some, |name: Seq<char>| lookup(pairs, name)->0)
}

/// No two pairs of the list share a name.
pub open spec fn distinct_names(pairs: Seq<Pair>) -> bool {
    forall|i: int, j: int| 0 <= i < j < pairs.len() ==> pairs[i].0 != pairs[j].0
}

/// `position` is the least index that holds the name.
pub proof fn lemma_position(pairs: Seq<Pair>, name: Seq<char>)
    ensures
        0 <= position(pairs, name) <= pairs.len(),
        position(pairs, name) < pairs.len() ==> pairs[position(pairs, name)].0 == name,
        forall|j: int| 0 <= j < position(pairs, name) ==> pairs[j].0 != name,
    decreases pairs.len(),
{
    if pairs.len() > 0 && pairs[0].0 != name {
        let rest = pairs.drop_first();
        lemma_position(rest, name);
        assert forall|j: int| 0 <= j < position(pairs, name) implies pairs[j].0 != name by {
            if j > 0 {
                assert(rest[j - 1] == pairs[j]);
            }
        }
    }
}

/// An index that holds the name, with no earlier one that does, is the
/// `position` of the name.
pub proof fn lemma_position_is(pairs: Seq<Pair>, name: Seq<char>, at: int)
    requires
        0 <= at <= pairs.len(),
        at < pairs.len() ==> pairs[at].0 == name,
        forall|j: int| 0 <= j < at ==> pairs[j].0 != name,
    ensures
        position(pairs, name) == at,
{
    lemma_position(pairs, name);
}

/// The index of the first pair named `name`.
pub fn find_pair(pairs: &Vec<(String, String)>, name: &String) -> (found: Option<usize>)
    ensures
        match found {
            Some(at) => at < pairs.len() && position(pair_views(pairs@), name@) == at,
            None => position(pair_views(pairs@), name@) == pairs.len(),
        },
{
    let mut i: usize = 0;
    while i < pairs.len()
        invariant
            i <= pairs.len(),
            forall|j: int| 0 <= j < i ==> pair_views(pairs@)[j].0 != name@,
        decreases pairs.len() - i,
    {
        if pairs[i].0 == *name {
            proof {
                lemma_position_is(pair_views(pairs@), name@, i as int);
            }
            return Some(i);
        }
        i += 1;
    }
    proof {
        lemma_position_is(pair_views(pairs@), name@, i as int);
    }
    None
}

/// The value of the first pair named `name`.
pub fn first_value(pairs: &Vec<(String, String)>, name: &String) -> (value: Option<String>)
    ensures
        match value {
            Some(v) => lookup(pair_views(pairs@), name@) == Some(v@),
            None => lookup(pair_views(pairs@), name@) is None,
        },
{
    match find_pair(pairs, name) {
        Some(at) => Some(pairs[at].1.clone()),
        None => None,
    }
}

/// Header names with their values. A value built by `new` and `insert`
/// holds no name twice.
#[derive(Debug)]
pub struct Headers {
    entries: Vec<(String, String)>,
}

impl View for Headers {
    type V = Map<Seq<char>, Seq<char>>;

    /// The value recorded under each name.
    open spec fn view(&self) -> Map<Seq<char>, Seq<char>> {
        as_map(self.pairs())
    }
}

impl Headers {
    /// No name occurs twice.
    pub open spec fn wf(&self) -> bool {
        distinct_names(self.pairs())
    }

    /// The pairs in the order in which their names were first inserted.
    pub closed spec fn pairs(&self) -> Seq<Pair> {
        pair_views(self.entries@)
    }

    /// No headers.
    pub fn new() -> (h: Headers)
        ensures
            h.wf(),
            h.pairs() == Seq::<Pair>::empty(),
            h@ == Map::<Seq<char>, Seq<char>>::empty(),
    {
        let h = Headers { entries: Vec::new() };
        h
    }

    /// Whether there is no header.
    pub fn is_empty(&self) -> (r: bool)
        ensures
            r == (self.pairs().len() == 0),
            r == (self@ == Map::<Seq<char>, Seq<char>>::empty()),
    {
        proof {
            if self.entries@.len() > 0 {
                let first = self.pairs()[0];
                lemma_position_is(self.pairs(), first.0, 0);
                assert(self@.dom().contains(first.0));
            } else {
                assert(self@ =~= Map::<Seq<char>, Seq<char>>::empty());
            }
        }
        self.entries.len() == 0
    }

    /// The number of headers.
    pub fn len(&self) -> (n: usize)
        ensures
            n == self.pairs().len(),
            self.wf() ==> n == self@.dom().len(),
    {
        proof {
            if self.wf() {
                lemma_distinct_count(self.pairs());
            }
        }
        self.entries.len()
    }

    /// The value recorded under `name`.
    pub fn get(&self, name: &String) -> (value: Option<String>)
        ensures
            match value {
                Some(v) => self@.contains_key(name@) && self@[name@] == v@,
                None => !self@.contains_key(name@),
            },
    {
        first_value(&self.entries, name)
    }

    /// Whether a value is recorded under `name`.
    pub fn contains_key(&self, name: &String) -> (r: bool)
        ensures
            r == self@.contains_key(name@),
    {
        find_pair(&self.entries, name).is_some()
    }

    /// The pairs, in the order in which their names were first inserted.
    pub fn entries(&self) -> (pairs: &Vec<(String, String)>)
        ensures
            pair_views(pairs@) == self.pairs(),
    {
        &self.entries
    }

    /// Records `value` under `name`, in place of a value already recorded
    /// there.
    pub fn insert(&mut self, name: String, value: String)
        ensures
            old(self).wf() ==> final(self).wf(),
            final(self)@ == old(self)@.insert(name@, value@),
            final(self).pairs() == (if position(old(self).pairs(), name@) < old(self).pairs().len() {
                old(self).pairs().update(position(old(self).pairs(), name@), (name@, value@))
            } else {
                old(self).pairs().push((name@, value@))
            }),
    {
        let ghost before = self.pairs();
        let ghost key = name@;
        let ghost val = value@;
        match find_pair(&self.entries, &name) {
            Some(at) => {
                proof {
                    lemma_position(before, key);
                }
                self.entries.set(at, (name, value));
                proof {
                    let after = pair_views(self.entries@);
                    assert(after =~= before.update(at as int, (key, val)));
                    lemma_insert_found(before, at as int, key, val);
                }
            },
            None => {
                self.entries.push((name, value));
                proof {
                    let after = pair_views(self.entries@);
                    assert(after =~= before.push((key, val)));
                    lemma_insert_new(before, key, val);
                }
            },
        }
    }
}

/// A list without repeated names maps as many names as it has pairs.
pub proof fn lemma_distinct_count(pairs: Seq<Pair>)
    requires
        distinct_names(pairs),
    ensures
        as_map(pairs).dom().finite(),
        as_map(pairs).dom().len() == pairs.len(),
    decreases pairs.len(),
{
    if pairs.len() == 0 {
        assert(as_map(pairs).dom() =~= Set::<Seq<char>>::empty());
    } else {
        let init = pairs.drop_last();
        let last = pairs.last();
        lemma_distinct_count(init);
        lemma_position(init, last.0);
        assert(pairs =~= init.push(last));
        lemma_insert_new(init, last.0, last.1);
        assert(as_map(pairs).dom() =~= as_map(init).dom().insert(last.0));
    }
}

/// Replacing the value of the first pair of a name keeps distinct names
/// distinct and maps the name to the new value.
pub proof fn lemma_insert_found(pairs: Seq<Pair>, at: int, name: Seq<char>, value: Seq<char>)
    requires
        at == position(pairs, name),
        at < pairs.len(),
    ensures
        distinct_names(pairs) ==> distinct_names(pairs.update(at, (name, value))),
        as_map(pairs.update(at, (name, value))) == as_map(pairs).insert(name, value),
{
    let after = pairs.update(at, (name, value));
    lemma_position(pairs, name);
    assert forall|k: Seq<char>| lookup(after, k) == (if k == name {
        Some(value)
    } else {
        lookup(pairs, k)
    }) by {
        lemma_position(pairs, k);
        lemma_position_is(after, k, position(pairs, k));
    }
}

/// Appending a pair under a new name keeps distinct names distinct and maps
/// the name to its value.
pub proof fn lemma_insert_new(pairs: Seq<Pair>, name: Seq<char>, value: Seq<char>)
    requires
        position(pairs, name) == pairs.len(),
    ensures
        distinct_names(pairs) ==> distinct_names(pairs.push((name, value))),
        as_map(pairs.push((name, value))) == as_map(pairs).insert(name, value),
{
    let after = pairs.push((name, value));
    lemma_position(pairs, name);
    assert forall|k: Seq<char>| lookup(after, k) == (if k == name {
        Some(value)
    } else {
        lookup(pairs, k)
    }) by {
        lemma_position(pairs, k);
        if k == name {
            lemma_position_is(after, k, pairs.len() as int);
        } else if position(pairs, k) < pairs.len() {
            lemma_position_is(after, k, position(pairs, k));
        } else {
            lemma_position_is(after, k, after.len() as int);
        }
    }
}

} // verus!
