//! An ordered mapping from names to values, each name held once.

use vstd::prelude::*;

use crate::text::same_text;

verus! {

/// One name with its value.
#[derive(Clone, Debug, PartialEq, Eq)]
pub struct Entry<V> {
    pub name: String,
    pub value: V,
}

impl<V: View> View for Entry<V> {
    type V = (Seq<char>, V::V);

    open spec fn view(&self) -> (Seq<char>, V::V) {
        (self.name@, self.value@)
    }
}

/// An ordered mapping from names to values. No name occurs twice; a name
/// that is put again keeps its place and takes the new value.
#[derive(Debug, PartialEq, Eq)]
pub struct Dictionary<V: View> {
    entries: Vec<Entry<V>>,
}

/// `name` is the name of the entry at `at`.
pub open spec fn named_at<T>(entries: Seq<(Seq<char>, T)>, name: Seq<char>, at: int) -> bool {
    0 <= at < entries.len() && entries[at].0 == name
}

/// Some entry has the name `name`.
pub open spec fn has_name<T>(entries: Seq<(Seq<char>, T)>, name: Seq<char>) -> bool {
    exists|at: int| named_at(entries, name, at)
}

/// Where `name` stands, for a name that some entry has.
pub open spec fn place_of<T>(entries: Seq<(Seq<char>, T)>, name: Seq<char>) -> int {
    choose|at: int| named_at(entries, name, at)
}

/// No two entries have the same name.
pub open spec fn distinct_names<T>(entries: Seq<(Seq<char>, T)>) -> bool {
    forall|i: int, j: int|
        0 <= i < j < entries.len() ==> (#[trigger] entries[i]).0 != (#[trigger] entries[j]).0
}

/// The value under `name`, if there is one.
pub open spec fn value_of<T>(entries: Seq<(Seq<char>, T)>, name: Seq<char>) -> Option<T> {
    if has_name(entries, name) {
        Some(entries[place_of(entries, name)].1)
    } else {
        None
    }
}

/// The entries after `value` has been put under `name`: in the place of the
/// entry of that name, or else at the end.
pub open spec fn put<T>(entries: Seq<(Seq<char>, T)>, name: Seq<char>, value: T) -> Seq<
    (Seq<char>, T),
> {
    if has_name(entries, name) {
        entries.update(place_of(entries, name), (name, value))
    } else {
        entries.push((name, value))
    }
}

/// The entries without the one named `name`, the others in their order.
pub open spec fn without<T>(entries: Seq<(Seq<char>, T)>, name: Seq<char>) -> Seq<(Seq<char>, T)> {
    if has_name(entries, name) {
        entries.remove(place_of(entries, name))
    } else {
        entries
    }
}

/// The mapping that is made by putting a list of entries one after the
/// other: of entries with one name, the last value stays, in the place of
/// the first.
pub open spec fn gathered<T>(entries: Seq<(Seq<char>, T)>) -> Seq<(Seq<char>, T)>
    decreases entries.len(),
{
    if entries.len() == 0 {
        entries
    } else {
        put(gathered(entries.drop_last()), entries.last().0, entries.last().1)
    }
}

/// The views of a list of entries.
pub open spec fn entry_views<V: View>(entries: Seq<Entry<V>>) -> Seq<(Seq<char>, V::V)> {
    entries.map_values(|entry: Entry<V>| entry@)
}

/// How many entries have the name `name`.
pub open spec fn count_of<T>(entries: Seq<(Seq<char>, T)>, name: Seq<char>) -> nat
    decreases entries.len(),
{
    if entries.len() == 0 {
        0
    } else {
        count_of(entries.drop_last(), name) + if entries.last().0 == name {
            1nat
        } else {
            0nat
        }
    }
}

/// Among distinct names, the place of a name is the one place where it stands.
pub proof fn lemma_place<T>(entries: Seq<(Seq<char>, T)>, name: Seq<char>, at: int)
    requires
        distinct_names(entries),
        named_at(entries, name, at),
    ensures
        has_name(entries, name),
        place_of(entries, name) == at,
{
    let chosen = place_of(entries, name);
    assert(named_at(entries, name, chosen));
    if chosen < at {
        assert(entries[chosen].0 != entries[at].0);
    } else if at < chosen {
        assert(entries[at].0 != entries[chosen].0);
    }
}

/// Putting a value keeps the names distinct, and the value is found under
/// its name.
pub proof fn lemma_put<T>(entries: Seq<(Seq<char>, T)>, name: Seq<char>, value: T)
    requires
        distinct_names(entries),
    ensures
        distinct_names(put(entries, name, value)),
        value_of(put(entries, name, value), name) == Some(value),
        forall|other: Seq<char>|
            other != name ==> value_of(put(entries, name, value), other) == value_of(
                entries,
                other,
            ),
        put(entries, name, value).len() == if has_name(entries, name) {
            entries.len()
        } else {
            entries.len() + 1
        },
{
    let after = put(entries, name, value);
    let at = if has_name(entries, name) {
        place_of(entries, name)
    } else {
        entries.len() as int
    };
    if has_name(entries, name) {
        assert(named_at(entries, name, at));
    }
    assert(after[at] == (name, value));
    assert forall|i: int, j: int| 0 <= i < j < after.len() implies (#[trigger] after[i]).0 != (
    #[trigger] after[j]).0 by {
        if has_name(entries, name) {
            assert(entries[i].0 != entries[j].0);
            if i == at {
                assert(entries[j].0 != entries[at].0);
            }
        } else {
            if j == at {
                assert(!named_at(entries, name, i));
            } else {
                assert(entries[i].0 != entries[j].0);
            }
        }
    }
    assert(named_at(after, name, at));
    lemma_place(after, name, at);
    assert forall|other: Seq<char>| other != name implies value_of(after, other) == value_of(
        entries,
        other,
    ) by {
        if has_name(entries, other) {
            let k = place_of(entries, other);
            assert(named_at(entries, other, k));
            assert(named_at(after, other, k));
            lemma_place(after, other, k);
        } else {
            if has_name(after, other) {
                let k = place_of(after, other);
                assert(named_at(after, other, k));
                assert(named_at(entries, other, k));
            }
        }
    }
}

/// Among distinct names, a name that some entry has is counted once, and
/// any other name not at all.
pub proof fn lemma_count<T>(entries: Seq<(Seq<char>, T)>, name: Seq<char>)
    requires
        distinct_names(entries),
    ensures
        count_of(entries, name) == if has_name(entries, name) {
            1nat
        } else {
            0nat
        },
    decreases entries.len(),
{
    if entries.len() == 0 {
        if has_name(entries, name) {
            assert(named_at(entries, name, place_of(entries, name)));
        }
    } else {
        let front = entries.drop_last();
        let end = entries.len() - 1;
        assert forall|i: int, j: int| 0 <= i < j < front.len() implies (#[trigger] front[i]).0 != (
        #[trigger] front[j]).0 by {
            assert(entries[i].0 != entries[j].0);
        }
        lemma_count(front, name);
        if entries.last().0 == name {
            assert(named_at(entries, name, end));
            if has_name(front, name) {
                let k = place_of(front, name);
                assert(named_at(front, name, k));
                assert(entries[k].0 != entries[end].0);
            }
        } else {
            if has_name(front, name) {
                let k = place_of(front, name);
                assert(named_at(front, name, k));
                assert(named_at(entries, name, k));
            } else if has_name(entries, name) {
                let k = place_of(entries, name);
                assert(named_at(entries, name, k));
                assert(named_at(front, name, k));
            }
        }
    }
}

/// Registering two values under one name leaves exactly one entry of that
/// name, which holds the second value; every other entry is as if only the
/// second had been registered.
pub proof fn lemma_put_twice<T>(entries: Seq<(Seq<char>, T)>, name: Seq<char>, first: T, second: T)
    requires
        distinct_names(entries),
    ensures
        put(put(entries, name, first), name, second) == put(entries, name, second),
        count_of(put(put(entries, name, first), name, second), name) == 1,
        value_of(put(put(entries, name, first), name, second), name) == Some(second),
{
    let once = put(entries, name, first);
    lemma_put(entries, name, first);
    lemma_put(once, name, second);
    let at = if has_name(entries, name) {
        place_of(entries, name)
    } else {
        entries.len() as int
    };
    if has_name(entries, name) {
        assert(named_at(entries, name, at));
    }
    assert(named_at(once, name, at));
    lemma_place(once, name, at);
    assert(put(once, name, second) =~= put(entries, name, second));
    lemma_count(put(once, name, second), name);
}

/// Registering the same value twice is the same as registering it once.
pub proof fn lemma_put_again<T>(entries: Seq<(Seq<char>, T)>, name: Seq<char>, value: T)
    requires
        distinct_names(entries),
    ensures
        put(put(entries, name, value), name, value) == put(entries, name, value),
{
    lemma_put_twice(entries, name, value, value);
}

/// Values registered under two different names are found whichever was
/// registered first, and nothing else is touched.
pub proof fn lemma_put_commutes<T>(
    entries: Seq<(Seq<char>, T)>,
    a: Seq<char>,
    x: T,
    b: Seq<char>,
    y: T,
    name: Seq<char>,
)
    requires
        distinct_names(entries),
        a != b,
    ensures
        value_of(put(put(entries, a, x), b, y), name) == value_of(
            put(put(entries, b, y), a, x),
            name,
        ),
        put(put(entries, a, x), b, y).len() == put(put(entries, b, y), a, x).len(),
{
    let first = put(entries, a, x);
    let second = put(entries, b, y);
    lemma_put(entries, a, x);
    lemma_put(first, b, y);
    lemma_put(entries, b, y);
    lemma_put(second, a, x);
    lemma_has_name_after_put(entries, a, x, b);
    lemma_has_name_after_put(entries, b, y, a);
    if name == a {
        assert(value_of(put(first, b, y), a) == value_of(first, a));
        assert(value_of(put(second, a, x), a) == Some(x));
    } else if name == b {
        assert(value_of(put(first, b, y), b) == Some(y));
        assert(value_of(put(second, a, x), b) == value_of(second, b));
    } else {
        assert(value_of(put(first, b, y), name) == value_of(first, name));
        assert(value_of(first, name) == value_of(entries, name));
        assert(value_of(put(second, a, x), name) == value_of(second, name));
        assert(value_of(second, name) == value_of(entries, name));
    }
}

/// Putting a value under one name does not change whether another name is
/// held.
pub proof fn lemma_has_name_after_put<T>(
    entries: Seq<(Seq<char>, T)>,
    name: Seq<char>,
    value: T,
    other: Seq<char>,
)
    requires
        other != name,
    ensures
        has_name(put(entries, name, value), other) == has_name(entries, other),
{
    let after = put(entries, name, value);
    if has_name(entries, other) {
        let k = place_of(entries, other);
        assert(named_at(entries, other, k));
        assert(named_at(after, other, k));
    }
    if has_name(after, other) {
        let k = place_of(after, other);
        assert(named_at(after, other, k));
        if has_name(entries, name) {
            assert(named_at(entries, name, place_of(entries, name)));
        }
        assert(named_at(entries, other, k));
    }
}

impl<V: View> View for Dictionary<V> {
    type V = Seq<(Seq<char>, V::V)>;

    closed spec fn view(&self) -> Seq<(Seq<char>, V::V)> {
        self.entries@.map_values(|entry: Entry<V>| entry@)
    }
}

impl<V: View> Dictionary<V> {
    #[verifier::type_invariant]
    closed spec fn names_are_distinct(self) -> bool {
        distinct_names(self@)
    }

    /// A dictionary without entries.
    pub fn new() -> (made: Self)
        ensures
            made@ == Seq::<(Seq<char>, V::V)>::empty(),
    {
        let made = Dictionary { entries: Vec::new() };
        assert(made@ =~= Seq::<(Seq<char>, V::V)>::empty());
        made
    }

    /// The dictionary that is made by putting a list of entries one after
    /// the other.
    pub fn from_entries(entries: Vec<Entry<V>>) -> (made: Self)
        ensures
            made@ == gathered(entry_views(entries@)),
    {
        let mut made: Dictionary<V> = Dictionary::new();
        let ghost all = entries@;
        assert(entry_views(all).take(0) =~= Seq::<(Seq<char>, V::V)>::empty());
        for entry in it: entries
            invariant
                it.seq() == all,
                made@ == gathered(entry_views(all).take(it.index() as int)),
        {
            proof {
                let done = entry_views(all).take(it.index() as int);
                let next = entry_views(all).take(it.index() + 1);
                assert(next.drop_last() =~= done);
                assert(next.last() == entry@);
            }
            made.insert(entry.name, entry.value);
        }
        assert(entry_views(all).take(all.len() as int) =~= entry_views(all));
        made
    }

    /// Number of entries. No two of them have the same name.
    pub fn len(&self) -> (n: usize)
        ensures
            n == self@.len(),
            distinct_names(self@),
    {
        proof {
            use_type_invariant(self);
        }
        self.entries.len()
    }

    /// The entry at a position.
    pub fn entry(&self, at: usize) -> (found: &Entry<V>)
        requires
            at < self@.len(),
        ensures
            found@ == self@[at as int],
    {
        &self.entries[at]
    }

    /// Where `name` stands.
    pub fn find(&self, name: &str) -> (found: Option<usize>)
        ensures
            found is Some == has_name(self@, name@),
            found matches Some(at) ==> at == place_of(self@, name@) && named_at(
                self@,
                name@,
                at as int,
            ),
    {
        proof {
            use_type_invariant(self);
        }
        let mut at: usize = 0;
        while at < self.entries.len()
            invariant
                at <= self.entries.len(),
                distinct_names(self@),
                forall|j: int| 0 <= j < at ==> !named_at(self@, name@, j),
            decreases self.entries.len() - at,
        {
            if same_text(self.entries[at].name.as_str(), name) {
                proof {
                    assert(named_at(self@, name@, at as int));
                    lemma_place(self@, name@, at as int);
                }
                return Some(at);
            }
            at += 1;
        }
        None
    }

    /// The value under `name`.
    pub fn get(&self, name: &str) -> (found: Option<&V>)
        ensures
            found is Some == has_name(self@, name@),
            found matches Some(value) ==> value_of(self@, name@) == Some(value@),
    {
        match self.find(name) {
            Some(at) => Some(&self.entries[at].value),
            None => None,
        }
    }

    /// Puts `value` under `name`: in the place of the entry of that name,
    /// or else at the end.
    pub fn insert(&mut self, name: String, value: V)
        ensures
            final(self)@ == put(old(self)@, name@, value@),
            distinct_names(old(self)@),
            distinct_names(final(self)@),
    {
        proof {
            use_type_invariant(&*self);
            lemma_put(self@, name@, value@);
        }
        let ghost before = self@;
        let found = self.find(name.as_str());
        let mut entries = self.take_entries();
        match found {
            Some(at) => {
                entries.set(at, Entry { name, value });
            },
            None => {
                entries.push(Entry { name, value });
            },
        }
        assert(entries@.map_values(|entry: Entry<V>| entry@) =~= put(before, name@, value@));
        *self = Dictionary { entries };
    }

    /// Takes out the entry named `name`, if there is one; the others keep
    /// their order.
    pub fn remove(&mut self, name: &str)
        ensures
            final(self)@ == without(old(self)@, name@),
            distinct_names(old(self)@),
            distinct_names(final(self)@),
    {
        proof {
            use_type_invariant(&*self);
        }
        let ghost before = self@;
        match self.find(name) {
            Some(at) => {
                let mut entries = self.take_entries();
                entries.remove(at);
                let ghost after = entries@.map_values(|entry: Entry<V>| entry@);
                assert(after =~= without(before, name@));
                assert forall|i: int, j: int| 0 <= i < j < after.len() implies (
                #[trigger] after[i]).0 != (#[trigger] after[j]).0 by {
                    let a = if i < at { i } else { i + 1 };
                    let b = if j < at { j } else { j + 1 };
                    assert(before[a].0 != before[b].0);
                }
                *self = Dictionary { entries };
            },
            None => {},
        }
    }

    fn take_entries(&mut self) -> (entries: Vec<Entry<V>>)
        ensures
            entries@.map_values(|entry: Entry<V>| entry@) == old(self)@,
    {
        let mut taken = Dictionary { entries: Vec::new() };
        assert(taken@ =~= Seq::<(Seq<char>, V::V)>::empty());
        core::mem::swap(self, &mut taken);
        taken.entries
    }
}

} // verus!
