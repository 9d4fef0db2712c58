//! Header fields of a request: a finite map from names to values.

use crate::text::same_text;
use vstd::prelude::*;

verus! {

/// The names and values of `pairs`, as a map. Where a name occurs once, it maps to the value
/// that stands beside it.
pub open spec fn pairs_map(pairs: Seq<(Seq<char>, Seq<char>)>) -> Map<Seq<char>, Seq<char>> {
    Map::new(
        |name: Seq<char>| exists|i: int| 0 <= i < pairs.len() && #[trigger] pairs[i].0 == name,
        |name: Seq<char>| pairs[choose|i: int| 0 <= i < pairs.len() && #[trigger] pairs[i].0 == name].1,
    )
}

/// No name occurs twice in `pairs`.
pub open spec fn distinct_names(pairs: Seq<(Seq<char>, Seq<char>)>) -> bool {
    forall|i: int, j: int|
        0 <= i < pairs.len() && 0 <= j < pairs.len() && #[trigger] pairs[i].0 == #[trigger] pairs[j].0
            ==> i == j
}

/// The characters of each name and value of `entries`.
pub open spec fn pairs_of(entries: Seq<(String, String)>) -> Seq<(Seq<char>, Seq<char>)> {
    Seq::new(entries.len(), |i: int| (entries[i].0@, entries[i].1@))
}

/// Header fields, one value for each name. Names are compared character by character.
#[derive(Debug)]
pub struct Headers {
    entries: Vec<(String, String)>,
}

impl View for Headers {
    type V = Map<Seq<char>, Seq<char>>;

    closed spec fn view(&self) -> Map<Seq<char>, Seq<char>> {
        pairs_map(self.pairs())
    }
}

proof fn lemma_replace(pairs: Seq<(Seq<char>, Seq<char>)>, at: int, value: Seq<char>)
    requires
        distinct_names(pairs),
        0 <= at < pairs.len(),
    ensures
        distinct_names(pairs.update(at, (pairs[at].0, value))),
        pairs_map(pairs.update(at, (pairs[at].0, value))) == pairs_map(pairs).insert(
            pairs[at].0,
            value,
        ),
{
    let name = pairs[at].0;
    let after = pairs.update(at, (name, value));
    assert forall|i: int| 0 <= i < pairs.len() implies (#[trigger] after[i]).0 == pairs[i].0 by {}
    assert(distinct_names(after)) by {
        assert forall|i: int, j: int|
            0 <= i < after.len() && 0 <= j < after.len() && #[trigger] after[i].0
                == #[trigger] after[j].0 implies i == j by {
            assert(pairs[i].0 == pairs[j].0);
        }
    }
    let left = pairs_map(after);
    let right = pairs_map(pairs).insert(name, value);
    assert forall|k: Seq<char>| left.dom().contains(k) == right.dom().contains(k) by {
        if left.dom().contains(k) {
            let i = choose|i: int| 0 <= i < after.len() && #[trigger] after[i].0 == k;
            assert(pairs[i].0 == k);
        }
        if right.dom().contains(k) {
            if k == name {
                assert(after[at].0 == k);
            } else {
                let i = choose|i: int| 0 <= i < pairs.len() && #[trigger] pairs[i].0 == k;
                assert(after[i].0 == k);
            }
        }
    }
    assert forall|k: Seq<char>| left.dom().contains(k) implies left[k] == right[k] by {
        let i = choose|i: int| 0 <= i < after.len() && #[trigger] after[i].0 == k;
        assert(pairs[i].0 == k);
        if k == name {
            assert(pairs[i].0 == pairs[at].0);
        } else {
            let j = choose|j: int| 0 <= j < pairs.len() && #[trigger] pairs[j].0 == k;
            assert(pairs[i].0 == pairs[j].0);
        }
    }
    assert(left =~= right);
}

proof fn lemma_append(pairs: Seq<(Seq<char>, Seq<char>)>, name: Seq<char>, value: Seq<char>)
    requires
        distinct_names(pairs),
        forall|i: int| 0 <= i < pairs.len() ==> (#[trigger] pairs[i]).0 != name,
    ensures
        distinct_names(pairs.push((name, value))),
        pairs_map(pairs.push((name, value))) == pairs_map(pairs).insert(name, value),
{
    let after = pairs.push((name, value));
    assert forall|i: int| 0 <= i < pairs.len() implies #[trigger] after[i] == pairs[i] by {}
    assert(distinct_names(after)) by {
        assert forall|i: int, j: int|
            0 <= i < after.len() && 0 <= j < after.len() && #[trigger] after[i].0
                == #[trigger] after[j].0 implies i == j by {
            if i < pairs.len() && j < pairs.len() {
                assert(pairs[i].0 == pairs[j].0);
            } else if i < pairs.len() {
                assert(pairs[i].0 == name);
            } else if j < pairs.len() {
                assert(pairs[j].0 == name);
            }
        }
    }
    let left = pairs_map(after);
    let right = pairs_map(pairs).insert(name, value);
    assert forall|k: Seq<char>| left.dom().contains(k) == right.dom().contains(k) by {
        if left.dom().contains(k) {
            let i = choose|i: int| 0 <= i < after.len() && #[trigger] after[i].0 == k;
            if i < pairs.len() {
                assert(pairs[i].0 == k);
            }
        }
        if right.dom().contains(k) {
            if k == name {
                assert(after[pairs.len() as int].0 == k);
            } else {
                let i = choose|i: int| 0 <= i < pairs.len() && #[trigger] pairs[i].0 == k;
                assert(after[i].0 == k);
            }
        }
    }
    assert forall|k: Seq<char>| left.dom().contains(k) implies left[k] == right[k] by {
        let i = choose|i: int| 0 <= i < after.len() && #[trigger] after[i].0 == k;
        if k == name {
            if i < pairs.len() {
                assert(pairs[i].0 == name);
            }
        } else {
            assert(pairs[i].0 == k);
            let j = choose|j: int| 0 <= j < pairs.len() && #[trigger] pairs[j].0 == k;
            assert(pairs[i].0 == pairs[j].0);
        }
    }
    assert(left =~= right);
}

impl Headers {
    #[verifier::type_invariant]
    spec fn well_formed(&self) -> bool {
        distinct_names(pairs_of(self.entries@))
    }

    /// The fields in the order in which their names were first set.
    pub closed spec fn pairs(&self) -> Seq<(Seq<char>, Seq<char>)> {
        pairs_of(self.entries@)
    }

    /// No fields.
    pub fn new() -> (r: Headers)
        ensures
            r@ == Map::<Seq<char>, Seq<char>>::empty(),
            r.pairs().len() == 0,
    {
        let r = Headers { entries: Vec::new() };
        assert(r@ =~= Map::<Seq<char>, Seq<char>>::empty());
        r
    }

    /// Sets the field `name` to `value`; a value that `name` had before is replaced.
    pub fn insert(self, name: &str, value: &str) -> (r: Headers)
        ensures
            r@ == self@.insert(name@, value@),
    {
        proof {
            use_type_invariant(&self);
        }
        let ghost before = pairs_of(self.entries@);
        let mut entries = self.entries;
        let mut i: usize = 0;
        while i < entries.len()
            invariant
                0 <= i <= entries.len(),
                pairs_of(entries@) == before,
                self.pairs() == before,
                distinct_names(before),
                forall|k: int| 0 <= k < i ==> (#[trigger] before[k]).0 != name@,
            decreases entries.len() - i,
        {
            assert(before[i as int].0 == entries@[i as int].0@);
            if same_text(entries[i].0.as_str(), name) {
                let pair = (entries[i].0.clone(), value.to_owned());
                entries.set(i, pair);
                proof {
                    lemma_replace(before, i as int, value@);
                    assert(before[i as int].0 == name@);
                    assert(pairs_of(entries@) =~= before.update(i as int, (name@, value@)));
                }
                return Headers { entries };
            }
            i = i + 1;
        }
        entries.push((name.to_owned(), value.to_owned()));
        proof {
            lemma_append(before, name@, value@);
            assert(pairs_of(entries@) =~= before.push((name@, value@)));
        }
        Headers { entries }
    }

    /// The value of the field `name`.
    pub fn get(&self, name: &str) -> (r: Option<&str>)
        ensures
            match r {
                Some(value) => self@.contains_key(name@) && self@[name@] == value@,
                None => !self@.contains_key(name@),
            },
    {
        proof {
            use_type_invariant(self);
        }
        let ghost all = pairs_of(self.entries@);
        let mut i: usize = 0;
        while i < self.entries.len()
            invariant
                0 <= i <= self.entries.len(),
                all == pairs_of(self.entries@),
                distinct_names(all),
                forall|k: int| 0 <= k < i ==> (#[trigger] all[k]).0 != name@,
            decreases self.entries.len() - i,
        {
            assert(all[i as int].0 == self.entries@[i as int].0@);
            if same_text(self.entries[i].0.as_str(), name) {
                proof {
                    let j = choose|j: int| 0 <= j < all.len() && #[trigger] all[j].0 == name@;
                    assert(all[j].0 == all[i as int].0);
                }
                return Some(self.entries[i].1.as_str());
            }
            i = i + 1;
        }
        None
    }

    /// How many fields there are.
    pub fn len(&self) -> (r: usize)
        ensures
            r == self.pairs().len(),
    {
        self.entries.len()
    }

    /// The name and the value of the field at `index`, counted in the order in which the names
    /// were first set; nothing from the number of fields on.
    pub fn entry(&self, index: usize) -> (r: Option<(&str, &str)>)
        ensures
            match r {
                Some(pair) => index < self.pairs().len() && (pair.0@, pair.1@)
                    == self.pairs()[index as int] && self@.contains_key(pair.0@)
                    && self@[pair.0@] == pair.1@,
                None => index >= self.pairs().len(),
            },
    {
        if index >= self.entries.len() {
            return None;
        }
        proof {
            use_type_invariant(self);
            let all = pairs_of(self.entries@);
            assert(all[index as int].0 == self.entries@[index as int].0@);
            let j = choose|j: int| 0 <= j < all.len() && #[trigger] all[j].0 == all[index as int].0;
            assert(all[j].0 == all[index as int].0);
        }
        Some((self.entries[index].0.as_str(), self.entries[index].1.as_str()))
    }
}

impl Clone for Headers {
    fn clone(&self) -> (r: Headers)
        ensures
            r@ == self@,
            r.pairs() == self.pairs(),
    {
        proof {
            use_type_invariant(self);
        }
        let mut entries: Vec<(String, String)> = Vec::new();
        let mut i: usize = 0;
        while i < self.entries.len()
            invariant
                0 <= i <= self.entries.len(),
                entries.len() == i,
                forall|k: int|
                    0 <= k < i ==> (#[trigger] entries@[k]).0@ == self.entries@[k].0@
                        && entries@[k].1@ == self.entries@[k].1@,
            decreases self.entries.len() - i,
        {
            entries.push((self.entries[i].0.clone(), self.entries[i].1.clone()));
            i = i + 1;
        }
        assert(pairs_of(entries@) =~= pairs_of(self.entries@));
        Headers { entries }
    }
}

} // verus!
