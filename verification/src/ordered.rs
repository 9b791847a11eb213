//! A map from names to values that is walked in the order of the names.

use vstd::prelude::*;

use crate::text;

verus! {

/// `left` and `right` part ways after `at` common characters, where `left` has
/// the smaller character or has already ended.
pub open spec fn precedes_at(left: Seq<char>, right: Seq<char>, at: int) -> bool {
    &&& 0 <= at <= left.len()
    &&& at < right.len()
    &&& forall|i: int| 0 <= i < at ==> left[i] == right[i]
    &&& at < left.len() ==> left[at] < right[at]
}

/// `left` comes before `right` in a dictionary.
pub open spec fn precedes(left: Seq<char>, right: Seq<char>) -> bool {
    exists|at: int| precedes_at(left, right, at)
}

/// No text comes before itself.
pub proof fn precedes_is_irreflexive(text: Seq<char>)
    ensures
        !precedes(text, text),
{
}

/// What comes before a text also comes before whatever follows that text.
pub proof fn precedes_is_transitive(first: Seq<char>, second: Seq<char>, third: Seq<char>)
    requires
        precedes(first, second),
        precedes(second, third),
    ensures
        precedes(first, third),
{
    let left = choose|at: int| precedes_at(first, second, at);
    let right = choose|at: int| precedes_at(second, third, at);
    let at = if left < right { left } else { right };
    assert(precedes_at(first, third, at));
}

/// Of two texts that each come before the other, there are none.
pub proof fn precedes_is_asymmetric(left: Seq<char>, right: Seq<char>)
    requires
        precedes(left, right),
    ensures
        !precedes(right, left),
        left != right,
{
    precedes_is_irreflexive(left);
    if precedes(right, left) {
        precedes_is_transitive(left, right, left);
    }
}

/// Where two texts stand to each other in a dictionary.
#[derive(Debug, Clone, Copy, PartialEq, Eq)]
pub enum Standing {
    /// The first comes before the second.
    Before,
    /// They are the same text.
    Same,
    /// The first comes after the second.
    After,
}

/// Compare two texts as a dictionary would.
///
/// This is the order of their UTF-8 bytes as well.
pub fn compare(left: &str, right: &str) -> (standing: Standing)
    ensures
        match standing {
            Standing::Before => precedes(left@, right@),
            Standing::Same => left@ == right@,
            Standing::After => precedes(right@, left@),
        },
{
    let first: Vec<char> = text::characters(left);
    let second: Vec<char> = text::characters(right);
    let mut i: usize = 0;
    while i < first.len() && i < second.len()
        invariant
            i <= first.len(),
            i <= second.len(),
            first@ == left@,
            second@ == right@,
            forall|j: int| 0 <= j < i ==> left@[j] == right@[j],
        decreases first.len() - i,
    {
        if first[i] < second[i] {
            assert(precedes_at(left@, right@, i as int));
            return Standing::Before;
        }
        if second[i] < first[i] {
            assert(precedes_at(right@, left@, i as int));
            return Standing::After;
        }
        i = i + 1;
    }
    if i < second.len() {
        assert(precedes_at(left@, right@, i as int));
        Standing::Before
    } else if i < first.len() {
        assert(precedes_at(right@, left@, i as int));
        Standing::After
    } else {
        assert(left@ =~= right@);
        Standing::Same
    }
}

/// Names in strictly increasing order, each with its value.
pub open spec fn is_sorted<T>(pairs: Seq<(Seq<char>, T)>) -> bool {
    forall|i: int, j: int| 0 <= i < j < pairs.len() ==> precedes(#[trigger] pairs[i].0, #[trigger] pairs[j].0)
}

/// The pair at `i` has the name `key`.
pub open spec fn names<T>(pairs: Seq<(Seq<char>, T)>, key: Seq<char>, i: int) -> bool {
    0 <= i < pairs.len() && pairs[i].0 == key
}

/// The map that a list of pairs writes down.
pub open spec fn map_of<T>(pairs: Seq<(Seq<char>, T)>) -> Map<Seq<char>, T> {
    Map::new(
        |key: Seq<char>| exists|i: int| names(pairs, key, i),
        |key: Seq<char>| pairs[choose|i: int| names(pairs, key, i)].1,
    )
}

/// The pairs of a map, in the order of their names.
pub open spec fn sorted_pairs<T>(map: Map<Seq<char>, T>) -> Seq<(Seq<char>, T)> {
    choose|pairs: Seq<(Seq<char>, T)>| is_sorted(pairs) && #[trigger] map_of(pairs) == map
}

/// A sorted list names each key once, so looking a key up finds its own value.
pub proof fn sorted_lookup<T>(pairs: Seq<(Seq<char>, T)>, i: int)
    requires
        is_sorted(pairs),
        0 <= i < pairs.len(),
    ensures
        map_of(pairs).contains_key(pairs[i].0),
        map_of(pairs)[pairs[i].0] == pairs[i].1,
{
    let key = pairs[i].0;
    assert(names(pairs, key, i));
    let found = choose|j: int| names(pairs, key, j);
    precedes_is_irreflexive(key);
    assert(found == i);
}

/// There is one sorted list for a map.
pub proof fn sorted_is_unique<T>(left: Seq<(Seq<char>, T)>, right: Seq<(Seq<char>, T)>)
    requires
        is_sorted(left),
        is_sorted(right),
        map_of(left) == map_of(right),
    ensures
        left == right,
    decreases left.len(),
{
    if left.len() == 0 {
        if right.len() > 0 {
            sorted_lookup(right, 0);
            let absent = choose|i: int| names(left, right[0].0, i);
            assert(names(left, right[0].0, absent));
        }
        assert(left =~= right);
    } else if right.len() == 0 {
        sorted_lookup(left, 0);
        let absent = choose|i: int| names(right, left[0].0, i);
        assert(names(right, left[0].0, absent));
    } else {
        sorted_lookup(left, 0);
        sorted_lookup(right, 0);
        let in_right = choose|i: int| names(right, left[0].0, i);
        let in_left = choose|i: int| names(left, right[0].0, i);
        assert(names(right, left[0].0, in_right));
        assert(names(left, right[0].0, in_left));
        if in_right > 0 {
            assert(precedes(right[0].0, right[in_right].0));
            if in_left > 0 {
                assert(precedes(left[0].0, left[in_left].0));
                precedes_is_asymmetric(left[0].0, right[0].0);
            }
            precedes_is_irreflexive(left[0].0);
        }
        assert(in_right == 0);
        assert(left[0] == right[0]);
        let left_rest = left.skip(1);
        let right_rest = right.skip(1);
        rest_of_map(left);
        rest_of_map(right);
        sorted_is_unique(left_rest, right_rest);
        assert(left =~= seq![left[0]] + left_rest);
        assert(right =~= seq![right[0]] + right_rest);
    }
}

/// Dropping the first pair of a sorted list drops its name from the map.
proof fn rest_of_map<T>(pairs: Seq<(Seq<char>, T)>)
    requires
        is_sorted(pairs),
        pairs.len() > 0,
    ensures
        is_sorted(pairs.skip(1)),
        map_of(pairs.skip(1)) == map_of(pairs).remove(pairs[0].0),
{
    let rest = pairs.skip(1);
    assert forall|i: int, j: int| 0 <= i < j < rest.len() implies precedes(
        #[trigger] rest[i].0,
        #[trigger] rest[j].0,
    ) by {
        assert(precedes(pairs[i + 1].0, pairs[j + 1].0));
    }
    assert forall|key: Seq<char>| #[trigger] map_of(rest).contains_key(key) == map_of(pairs).remove(
        pairs[0].0,
    ).contains_key(key) by {
        if map_of(rest).contains_key(key) {
            let i = choose|i: int| names(rest, key, i);
            assert(names(pairs, key, i + 1));
            precedes_is_asymmetric(pairs[0].0, pairs[i + 1].0);
        }
        if map_of(pairs).contains_key(key) && key != pairs[0].0 {
            let i = choose|i: int| names(pairs, key, i);
            assert(names(rest, key, i - 1));
        }
    }
    assert forall|key: Seq<char>| map_of(rest).contains_key(key) implies #[trigger] map_of(rest)[key]
        == map_of(pairs)[key] by {
        let i = choose|i: int| names(rest, key, i);
        sorted_lookup(rest, i);
        sorted_lookup(pairs, i + 1);
    }
    assert(map_of(rest) =~= map_of(pairs).remove(pairs[0].0));
}

/// A sorted list is the sorted list of the map it writes down.
pub proof fn sorted_pairs_of<T>(pairs: Seq<(Seq<char>, T)>)
    requires
        is_sorted(pairs),
    ensures
        sorted_pairs(map_of(pairs)) == pairs,
{
    let chosen = sorted_pairs(map_of(pairs));
    assert(is_sorted(pairs) && map_of(pairs) == map_of(pairs));
    sorted_is_unique(chosen, pairs);
}

/// A value that can be copied without changing what it stands for.
pub trait Duplicate: View + Sized {
    /// A copy of this value.
    fn duplicate(&self) -> (copy: Self)
        ensures
            copy@ == self@,
    ;
}

impl Duplicate for String {
    fn duplicate(&self) -> (copy: Self) {
        self.clone()
    }
}

/// A map from names to values, kept in the order of the names.
#[derive(Debug, PartialEq, Eq)]
pub struct OrderedMap<V> {
    entries: Vec<(String, V)>,
}

/// The pairs that a list of entries writes down.
pub open spec fn pairs_of<V: View>(entries: Seq<(String, V)>) -> Seq<(Seq<char>, V::V)> {
    Seq::new(entries.len(), |i: int| (entries[i].0@, entries[i].1@))
}

impl<V: View> View for OrderedMap<V> {
    type V = Map<Seq<char>, V::V>;

    open spec fn view(&self) -> Map<Seq<char>, V::V> {
        map_of(self.pairs())
    }
}

/// The names of a list of entries are in strictly increasing order.
spec fn in_order<V>(entries: Seq<(String, V)>) -> bool {
    forall|i: int, j: int|
        0 <= i < j < entries.len() ==> precedes(#[trigger] entries[i].0@, #[trigger] entries[j].0@)
}

/// Entries are in order when the pairs they write down are.
proof fn order_of_pairs<V: View>(entries: Seq<(String, V)>)
    ensures
        is_sorted(pairs_of(entries)) == in_order(entries),
{
    let pairs = pairs_of(entries);
    if in_order(entries) {
        assert forall|i: int, j: int| 0 <= i < j < pairs.len() implies precedes(
            #[trigger] pairs[i].0,
            #[trigger] pairs[j].0,
        ) by {
            assert(precedes(entries[i].0@, entries[j].0@));
        }
    }
    if is_sorted(pairs) {
        assert forall|i: int, j: int| 0 <= i < j < entries.len() implies precedes(
            #[trigger] entries[i].0@,
            #[trigger] entries[j].0@,
        ) by {
            assert(precedes(pairs[i].0, pairs[j].0));
        }
    }
}

impl<V> OrderedMap<V> {
    /// The names are in strictly increasing order.
    #[verifier::type_invariant]
    spec fn well_formed(&self) -> bool {
        in_order(self.entries@)
    }
}

/// Where a name stands, or would stand, among the entries of a map.
enum Place {
    Taken(usize),
    Free(usize),
}

impl<V: View> OrderedMap<V> {
    /// The pairs of this map, in the order of their names.
    pub closed spec fn pairs(&self) -> Seq<(Seq<char>, V::V)> {
        pairs_of(self.entries@)
    }

    /// A map without entries.
    pub fn new() -> (map: Self)
        ensures
            map@ == Map::<Seq<char>, V::V>::empty(),
    {
        let map = OrderedMap { entries: Vec::new() };
        assert(map@ =~= Map::<Seq<char>, V::V>::empty()) by {
            assert forall|key: Seq<char>| !map@.contains_key(key) by {
                assert(!exists|i: int| names(map.pairs(), key, i));
            }
        }
        map
    }

    /// How many entries the map has.
    pub fn len(&self) -> (len: usize)
        ensures
            len == sorted_pairs(self@).len(),
            len == self.pairs().len(),
            self.pairs() == sorted_pairs(self@),
            is_sorted(sorted_pairs(self@)),
            map_of(sorted_pairs(self@)) == self@,
    {
        proof {
            use_type_invariant(self);
            order_of_pairs(self.entries@);
            sorted_pairs_of(self.pairs());
        }
        self.entries.len()
    }

    /// Whether the map has no entries.
    pub fn is_empty(&self) -> (empty: bool)
        ensures
            empty == (self@ == Map::<Seq<char>, V::V>::empty()),
            empty == (sorted_pairs(self@).len() == 0),
    {
        let len: usize = self.len();
        proof {
            use_type_invariant(self);
            order_of_pairs(self.entries@);
            if len == 0 {
                assert forall|key: Seq<char>| !self@.contains_key(key) by {
                    assert(!exists|i: int| names(self.pairs(), key, i));
                }
                assert(self@ =~= Map::<Seq<char>, V::V>::empty());
            } else {
                sorted_lookup(self.pairs(), 0);
            }
        }
        len == 0
    }

    /// The name and the value at position `i` in the order of the names.
    pub fn at(&self, i: usize) -> (entry: (&String, &V))
        requires
            i < self.pairs().len(),
        ensures
            sorted_pairs(self@) == self.pairs(),
            is_sorted(sorted_pairs(self@)),
            map_of(sorted_pairs(self@)) == self@,
            entry.0@ == sorted_pairs(self@)[i as int].0,
            entry.1@ == sorted_pairs(self@)[i as int].1,
            self@.contains_key(entry.0@),
            self@[entry.0@] == entry.1@,
    {
        proof {
            use_type_invariant(self);
            order_of_pairs(self.entries@);
            sorted_pairs_of(self.pairs());
            sorted_lookup(self.pairs(), i as int);
        }
        (&self.entries[i].0, &self.entries[i].1)
    }

    /// Where `key` stands among the entries.
    fn place(&self, key: &str) -> (place: Place)
        ensures
            match place {
                Place::Taken(i) => {
                    &&& i < self.entries@.len()
                    &&& self.entries@[i as int].0@ == key@
                },
                Place::Free(i) => {
                    &&& i <= self.entries@.len()
                    &&& forall|j: int| 0 <= j < i ==> precedes(#[trigger] self.entries@[j].0@, key@)
                    &&& forall|j: int|
                        i <= j < self.entries@.len() ==> precedes(key@, #[trigger] self.entries@[j].0@)
                },
            },
    {
        proof {
            use_type_invariant(self);
            order_of_pairs(self.entries@);
        }
        let mut i: usize = 0;
        while i < self.entries.len()
            invariant
                i <= self.entries@.len(),
                is_sorted(pairs_of(self.entries@)),
                forall|j: int| 0 <= j < i ==> precedes(#[trigger] self.entries@[j].0@, key@),
            decreases self.entries@.len() - i,
        {
            match compare(self.entries[i].0.as_str(), key) {
                Standing::Before => {},
                Standing::Same => {
                    return Place::Taken(i);
                },
                Standing::After => {
                    proof {
                        let pairs = pairs_of(self.entries@);
                        assert forall|j: int| i <= j < self.entries@.len() implies precedes(
                            key@,
                            #[trigger] self.entries@[j].0@,
                        ) by {
                            if j > i {
                                assert(precedes(pairs[i as int].0, pairs[j].0));
                                precedes_is_transitive(key@, pairs[i as int].0, pairs[j].0);
                            }
                        }
                    }
                    return Place::Free(i);
                },
            }
            i = i + 1;
        }
        Place::Free(i)
    }

    /// A name that has a free place is not in the map.
    proof fn free_is_absent(&self, key: Seq<char>, i: int)
        requires
            0 <= i <= self.entries@.len(),
            forall|j: int| 0 <= j < i ==> precedes(#[trigger] self.entries@[j].0@, key),
            forall|j: int| i <= j < self.entries@.len() ==> precedes(key, #[trigger] self.entries@[j].0@),
        ensures
            !self@.contains_key(key),
    {
        if self@.contains_key(key) {
            let j = choose|j: int| names(self.pairs(), key, j);
            assert(names(self.pairs(), key, j));
            precedes_is_irreflexive(key);
            assert(self.entries@[j].0@ == key);
        }
    }

    /// Whether `key` is in the map.
    pub fn contains_key(&self, key: &str) -> (found: bool)
        ensures
            found == self@.contains_key(key@),
    {
        match self.place(key) {
            Place::Taken(i) => {
                assert(names(self.pairs(), key@, i as int));
                true
            },
            Place::Free(i) => {
                proof {
                    self.free_is_absent(key@, i as int);
                }
                false
            },
        }
    }

    /// The value of `key`.
    pub fn get(&self, key: &str) -> (value: Option<&V>)
        ensures
            match value {
                Some(value) => self@.contains_key(key@) && self@[key@] == value@,
                None => !self@.contains_key(key@),
            },
    {
        match self.place(key) {
            Place::Taken(i) => {
                proof {
                    use_type_invariant(self);
                    order_of_pairs(self.entries@);
                    sorted_lookup(self.pairs(), i as int);
                }
                Some(&self.entries[i].1)
            },
            Place::Free(i) => {
                proof {
                    self.free_is_absent(key@, i as int);
                }
                None
            },
        }
    }

    /// Set the value of `key`, and return the value it had.
    pub fn insert(&mut self, key: String, value: V) -> (previous: Option<V>)
        ensures
            final(self)@ == old(self)@.insert(key@, value@),
            match previous {
                Some(previous) => old(self)@.contains_key(key@) && old(self)@[key@] == previous@,
                None => !old(self)@.contains_key(key@),
            },
    {
        let place: Place = self.place(key.as_str());
        let ghost before = self.entries@;
        let ghost was = *self;
        proof {
            use_type_invariant(&*self);
            order_of_pairs(self.entries@);
        }
        let mut entries: Vec<(String, V)> = Vec::new();
        std::mem::swap(&mut self.entries, &mut entries);
        match place {
            Place::Taken(i) => {
                let entry: (String, V) = entries.remove(i);
                let ghost name = key@;
                let ghost added = value@;
                entries.insert(i, (key, value));
                proof {
                    assert(entries@ =~= before.update(i as int, entries@[i as int]));
                    replaced(pairs_of(before), i as int, added);
                    assert(pairs_of(entries@) =~= pairs_of(before).update(i as int, (name, added)));
                    sorted_lookup(pairs_of(before), i as int);
                    order_of_pairs(entries@);
                }
                self.entries = entries;
                Some(entry.1)
            },
            Place::Free(i) => {
                let ghost name = key@;
                let ghost added = value@;
                entries.insert(i, (key, value));
                proof {
                    was.free_is_absent(name, i as int);
                    assert(pairs_of(entries@) =~= pairs_of(before).insert(i as int, (name, added)));
                    assert forall|j: int| 0 <= j < i implies precedes(
                        #[trigger] pairs_of(before)[j].0,
                        name,
                    ) by {
                        assert(precedes(before[j].0@, name));
                    }
                    assert forall|j: int| i <= j < before.len() implies precedes(
                        name,
                        #[trigger] pairs_of(before)[j].0,
                    ) by {
                        assert(precedes(name, before[j].0@));
                    }
                    inserted(pairs_of(before), i as int, name, added);
                    order_of_pairs(entries@);
                }
                self.entries = entries;
                None
            },
        }
    }

    /// Take `key` out of the map, and return the value it had.
    pub fn remove(&mut self, key: &str) -> (previous: Option<V>)
        ensures
            final(self)@ == old(self)@.remove(key@),
            match previous {
                Some(previous) => old(self)@.contains_key(key@) && old(self)@[key@] == previous@,
                None => !old(self)@.contains_key(key@),
            },
    {
        match self.place(key) {
            Place::Taken(i) => {
                let ghost before = self.entries@;
                proof {
                    use_type_invariant(&*self);
                    order_of_pairs(self.entries@);
                }
                let mut entries: Vec<(String, V)> = Vec::new();
                std::mem::swap(&mut self.entries, &mut entries);
                let entry: (String, V) = entries.remove(i);
                proof {
                    assert(pairs_of(entries@) =~= pairs_of(before).remove(i as int));
                    removed(pairs_of(before), i as int);
                    sorted_lookup(pairs_of(before), i as int);
                    order_of_pairs(entries@);
                }
                self.entries = entries;
                Some(entry.1)
            },
            Place::Free(i) => {
                proof {
                    self.free_is_absent(key@, i as int);
                    assert(self@ =~= self@.remove(key@));
                }
                None
            },
        }
    }
}

impl<V: Duplicate> Duplicate for OrderedMap<V> {
    fn duplicate(&self) -> (copy: Self) {
        let mut entries: Vec<(String, V)> = Vec::new();
        for i in 0..self.entries.len()
            invariant
                entries@.len() == i,
                forall|j: int|
                    0 <= j < i ==> (#[trigger] entries@[j]).0@ == self.entries@[j].0@ && entries@[j].1@
                        == self.entries@[j].1@,
        {
            entries.push((self.entries[i].0.clone(), self.entries[i].1.duplicate()));
        }
        proof {
            use_type_invariant(self);
            order_of_pairs(self.entries@);
            assert(pairs_of(entries@) =~= pairs_of(self.entries@));
            order_of_pairs(entries@);
        }
        OrderedMap { entries }
    }
}

impl<V: Duplicate> OrderedMap<V> {
    /// Set everything that `other` sets, over what is set already.
    pub fn extend(&mut self, other: &OrderedMap<V>)
        ensures
            final(self)@ == old(self)@.union_prefer_right(other@),
    {
        let count: usize = other.len();
        let ghost start = self@;
        let ghost pairs = other.pairs();
        let mut i: usize = 0;
        proof {
            use_type_invariant(other);
            order_of_pairs(other.entries@);
            assert(map_of(pairs.take(0)) =~= Map::<Seq<char>, V::V>::empty()) by {
                assert forall|key: Seq<char>| !map_of(pairs.take(0)).contains_key(key) by {
                    assert(!exists|j: int| names(pairs.take(0), key, j));
                }
            }
            assert(self@ =~= start.union_prefer_right(map_of(pairs.take(0))));
        }
        while i < count
            invariant
                i <= count,
                count == pairs.len(),
                pairs == other.pairs(),
                is_sorted(pairs),
                self@ == start.union_prefer_right(map_of(pairs.take(i as int))),
            decreases count - i,
        {
            let (key, value) = other.at(i);
            self.insert(key.clone(), value.duplicate());
            proof {
                longer(pairs, i as int);
                assert(self@ =~= start.union_prefer_right(map_of(pairs.take(i as int + 1))));
            }
            i = i + 1;
        }
        assert(pairs.take(count as int) =~= pairs);
    }
}

impl<V: Duplicate> Clone for OrderedMap<V> {
    fn clone(&self) -> (copy: Self)
        ensures
            copy@ == self@,
    {
        self.duplicate()
    }
}

/// One more pair of a sorted list adds its name to the map.
proof fn longer<T>(pairs: Seq<(Seq<char>, T)>, i: int)
    requires
        is_sorted(pairs),
        0 <= i < pairs.len(),
    ensures
        map_of(pairs.take(i + 1)) == map_of(pairs.take(i)).insert(pairs[i].0, pairs[i].1),
{
    let before = pairs.take(i);
    assert forall|j: int, k: int| 0 <= j < k < before.len() implies precedes(
        #[trigger] before[j].0,
        #[trigger] before[k].0,
    ) by {
        assert(precedes(pairs[j].0, pairs[k].0));
    }
    assert forall|j: int| 0 <= j < before.len() implies precedes(
        #[trigger] before[j].0,
        pairs[i].0,
    ) by {
        assert(precedes(pairs[j].0, pairs[i].0));
    }
    inserted(before, i, pairs[i].0, pairs[i].1);
    assert(before.insert(i, pairs[i]) =~= pairs.take(i + 1));
}

/// Giving a name of a sorted list another value changes that name alone.
proof fn replaced<T>(pairs: Seq<(Seq<char>, T)>, i: int, value: T)
    requires
        is_sorted(pairs),
        0 <= i < pairs.len(),
    ensures
        is_sorted(pairs.update(i, (pairs[i].0, value))),
        map_of(pairs.update(i, (pairs[i].0, value))) == map_of(pairs).insert(pairs[i].0, value),
{
    let after = pairs.update(i, (pairs[i].0, value));
    assert forall|j: int, k: int| 0 <= j < k < after.len() implies precedes(
        #[trigger] after[j].0,
        #[trigger] after[k].0,
    ) by {
        assert(precedes(pairs[j].0, pairs[k].0));
    }
    sorted_lookup(after, i);
    assert forall|key: Seq<char>| #[trigger] map_of(after).contains_key(key) == map_of(pairs).insert(
        pairs[i].0,
        value,
    ).contains_key(key) by {
        if map_of(after).contains_key(key) {
            let j = choose|j: int| names(after, key, j);
            assert(names(pairs, key, j));
        }
        if map_of(pairs).contains_key(key) {
            let j = choose|j: int| names(pairs, key, j);
            assert(names(after, key, j));
        }
    }
    assert forall|key: Seq<char>| #[trigger] map_of(after).contains_key(key) && key != pairs[i].0 implies
        map_of(after)[key] == map_of(pairs)[key] by {
        let j = choose|j: int| names(after, key, j);
        sorted_lookup(after, j);
        sorted_lookup(pairs, j);
    }
    assert(map_of(after) =~= map_of(pairs).insert(pairs[i].0, value));
}

/// A new name at its place in a sorted list adds that name alone.
proof fn inserted<T>(pairs: Seq<(Seq<char>, T)>, i: int, name: Seq<char>, value: T)
    requires
        is_sorted(pairs),
        0 <= i <= pairs.len(),
        forall|j: int| 0 <= j < i ==> precedes(#[trigger] pairs[j].0, name),
        forall|j: int| i <= j < pairs.len() ==> precedes(name, #[trigger] pairs[j].0),
    ensures
        is_sorted(pairs.insert(i, (name, value))),
        map_of(pairs.insert(i, (name, value))) == map_of(pairs).insert(name, value),
{
    let after = pairs.insert(i, (name, value));
    assert forall|j: int, k: int| 0 <= j < k < after.len() implies precedes(
        #[trigger] after[j].0,
        #[trigger] after[k].0,
    ) by {
        let from = if j < i { j } else { j - 1 };
        let to = if k < i { k } else { k - 1 };
        if j != i && k != i {
            assert(precedes(pairs[from].0, pairs[to].0));
        }
        if j == i {
            assert(precedes(name, pairs[to].0));
        }
        if k == i {
            assert(precedes(pairs[from].0, name));
        }
    }
    sorted_lookup(after, i);
    assert forall|key: Seq<char>| #[trigger] map_of(after).contains_key(key) == map_of(pairs).insert(
        name,
        value,
    ).contains_key(key) by {
        if map_of(after).contains_key(key) && key != name {
            let j = choose|j: int| names(after, key, j);
            assert(names(pairs, key, if j < i { j } else { j - 1 }));
        }
        if map_of(pairs).contains_key(key) {
            let j = choose|j: int| names(pairs, key, j);
            assert(names(after, key, if j < i { j } else { j + 1 }));
        }
    }
    assert forall|key: Seq<char>| #[trigger] map_of(after).contains_key(key) && key != name implies
        map_of(after)[key] == map_of(pairs)[key] by {
        let j = choose|j: int| names(after, key, j);
        sorted_lookup(after, j);
        sorted_lookup(pairs, if j < i { j } else { j - 1 });
    }
    assert(map_of(after) =~= map_of(pairs).insert(name, value));
}

/// Taking a pair out of a sorted list takes its name alone out of the map.
proof fn removed<T>(pairs: Seq<(Seq<char>, T)>, i: int)
    requires
        is_sorted(pairs),
        0 <= i < pairs.len(),
    ensures
        is_sorted(pairs.remove(i)),
        map_of(pairs.remove(i)) == map_of(pairs).remove(pairs[i].0),
{
    let after = pairs.remove(i);
    let name = pairs[i].0;
    assert forall|j: int, k: int| 0 <= j < k < after.len() implies precedes(
        #[trigger] after[j].0,
        #[trigger] after[k].0,
    ) by {
        let from = if j < i { j } else { j + 1 };
        let to = if k < i { k } else { k + 1 };
        assert(precedes(pairs[from].0, pairs[to].0));
    }
    assert forall|key: Seq<char>| #[trigger] map_of(after).contains_key(key) == map_of(pairs).remove(
        name,
    ).contains_key(key) by {
        if map_of(after).contains_key(key) {
            let j = choose|j: int| names(after, key, j);
            let from = if j < i { j } else { j + 1 };
            assert(names(pairs, key, from));
            if from < i {
                precedes_is_asymmetric(pairs[from].0, name);
            } else {
                precedes_is_asymmetric(name, pairs[from].0);
            }
        }
        if map_of(pairs).contains_key(key) && key != name {
            let j = choose|j: int| names(pairs, key, j);
            assert(names(after, key, if j < i { j } else { j - 1 }));
        }
    }
    assert forall|key: Seq<char>| #[trigger] map_of(after).contains_key(key) implies map_of(after)[key]
        == map_of(pairs)[key] by {
        let j = choose|j: int| names(after, key, j);
        sorted_lookup(after, j);
        sorted_lookup(pairs, if j < i { j } else { j + 1 });
    }
    assert(map_of(after) =~= map_of(pairs).remove(name));
}

/// Dictionary order is decided by the first character that differs, and a text
/// comes before whatever it begins.
pub proof fn the_first_difference_decides(
    common: Seq<char>,
    left: char,
    right: char,
    left_rest: Seq<char>,
    right_rest: Seq<char>,
)
    ensures
        left < right ==> precedes(
            common + seq![left] + left_rest,
            common + seq![right] + right_rest,
        ),
        precedes(common, common + seq![right] + right_rest),
{
    let at = common.len() as int;
    if left < right {
        assert(precedes_at(
            common + seq![left] + left_rest,
            common + seq![right] + right_rest,
            at,
        ));
    }
    assert(precedes_at(common, common + seq![right] + right_rest, at));
}

/// A list of pairs is sorted if each name comes before every later one, and the
/// map that it writes down holds its names and no others.
pub proof fn a_list_writes_down_its_pairs<T>(pairs: Seq<(Seq<char>, T)>, key: Seq<char>)
    ensures
        is_sorted(pairs) <==> forall|i: int, j: int|
            0 <= i < j < pairs.len() ==> precedes(#[trigger] pairs[i].0, #[trigger] pairs[j].0),
        map_of(pairs).contains_key(key) <==> exists|i: int|
            0 <= i < pairs.len() && #[trigger] pairs[i].0 == key,
{
    if map_of(pairs).contains_key(key) {
        let i = choose|i: int| names(pairs, key, i);
        assert(names(pairs, key, i));
        assert(pairs[i].0 == key);
    }
    if exists|i: int| 0 <= i < pairs.len() && #[trigger] pairs[i].0 == key {
        let i = choose|i: int| 0 <= i < pairs.len() && #[trigger] pairs[i].0 == key;
        assert(names(pairs, key, i));
    }
}

} // verus!
