//! Properties: a map from names to values, ordered by name, as the validated
//! product configuration gives them for one kind of property (environment,
//! command line, a configuration file).
use crate::text::{
    compare_names, lemma_name_less_asymmetric, lemma_name_less_total, lemma_name_less_transitive,
    name_less, NameOrder,
};
use vstd::prelude::*;

verus! {

/// The value that the first entry named `key` holds.
pub open spec fn lookup(entries: Seq<(Seq<char>, Seq<char>)>, key: Seq<char>) -> Option<Seq<char>>
    decreases entries.len(),
{
    if entries.len() == 0 {
        None
    } else if entries[0].0 == key {
        Some(entries[0].1)
    } else {
        lookup(entries.drop_first(), key)
    }
}

/// Whether the names of the entries increase strictly, so that each name occurs
/// once and the entries come in the order of their names.
pub open spec fn names_increasing(entries: Seq<(Seq<char>, Seq<char>)>) -> bool {
    forall|i: int, j: int| 0 <= i < j < entries.len() ==> name_less(#[trigger] entries[i].0, #[trigger] entries[j].0)
}

/// The entries after setting `key` to `value`: an entry with that name takes the
/// new value; otherwise the entry is added before the first entry whose name
/// comes after `key`, or at the end.
pub open spec fn set_entry(entries: Seq<(Seq<char>, Seq<char>)>, key: Seq<char>, value: Seq<char>) -> Seq<(Seq<char>, Seq<char>)>
    decreases entries.len(),
{
    if entries.len() == 0 {
        seq![(key, value)]
    } else if entries[0].0 == key {
        entries.update(0, (key, value))
    } else if name_less(key, entries[0].0) {
        seq![(key, value)] + entries
    } else {
        seq![entries[0]] + set_entry(entries.drop_first(), key, value)
    }
}

/// Every entry after setting `key` is the entry set or an entry that was there.
proof fn lemma_set_entry_elements(entries: Seq<(Seq<char>, Seq<char>)>, key: Seq<char>, value: Seq<char>, i: int)
    requires
        0 <= i < set_entry(entries, key, value).len(),
    ensures
        set_entry(entries, key, value)[i] == (key, value) || exists|j: int| 0 <= j < entries.len() && set_entry(entries, key, value)[i] == entries[j],
    decreases entries.len(),
{
    let r = set_entry(entries, key, value);
    if entries.len() == 0 {
    } else if entries[0].0 == key {
        if i != 0 {
            assert(r[i] == entries[i]);
        }
    } else if name_less(key, entries[0].0) {
        if i != 0 {
            assert(r[i] == entries[i - 1]);
        }
    } else {
        if i == 0 {
            assert(r[0] == entries[0]);
        } else {
            lemma_set_entry_elements(entries.drop_first(), key, value, i - 1);
            assert(r[i] == set_entry(entries.drop_first(), key, value)[i - 1]);
            if r[i] != (key, value) {
                let j = choose|j: int| 0 <= j < entries.drop_first().len() && r[i] == entries.drop_first()[j];
                assert(r[i] == entries[j + 1]);
            }
        }
    }
}

/// Setting a property keeps the names increasing.
proof fn lemma_set_entry_increasing(entries: Seq<(Seq<char>, Seq<char>)>, key: Seq<char>, value: Seq<char>)
    requires
        names_increasing(entries),
    ensures
        names_increasing(set_entry(entries, key, value)),
    decreases entries.len(),
{
    let r = set_entry(entries, key, value);
    if entries.len() == 0 {
    } else if entries[0].0 == key {
        assert forall|i: int, j: int| 0 <= i < j < r.len() implies name_less(#[trigger] r[i].0, #[trigger] r[j].0) by {
            assert(r[i].0 == entries[i].0);
            assert(r[j].0 == entries[j].0);
        }
    } else if name_less(key, entries[0].0) {
        assert forall|i: int, j: int| 0 <= i < j < r.len() implies name_less(#[trigger] r[i].0, #[trigger] r[j].0) by {
            if i == 0 {
                if j > 1 {
                    lemma_name_less_transitive(key, entries[0].0, entries[j - 1].0);
                }
            } else {
                assert(r[i] == entries[i - 1] && r[j] == entries[j - 1]);
            }
        }
    } else {
        let rest = entries.drop_first();
        lemma_set_entry_increasing(rest, key, value);
        lemma_name_less_total(key, entries[0].0);
        let tail = set_entry(rest, key, value);
        assert forall|i: int, j: int| 0 <= i < j < r.len() implies name_less(#[trigger] r[i].0, #[trigger] r[j].0) by {
            if i == 0 {
                lemma_set_entry_elements(rest, key, value, j - 1);
                assert(r[j] == tail[j - 1]);
                if tail[j - 1] != (key, value) {
                    let k = choose|k: int| 0 <= k < rest.len() && tail[j - 1] == rest[k];
                    assert(rest[k] == entries[k + 1]);
                }
            } else {
                assert(r[i] == tail[i - 1] && r[j] == tail[j - 1]);
            }
        }
    }
}

/// Properties by name, ordered by name.
#[derive(Debug, PartialEq, Eq)]
pub struct Properties {
    entries: Vec<(String, String)>,
}

impl View for Properties {
    type V = Seq<(Seq<char>, Seq<char>)>;

    closed spec fn view(&self) -> Seq<(Seq<char>, Seq<char>)> {
        entries_view(self.entries@)
    }
}

impl Properties {
    /// The names increase strictly.
    #[verifier::type_invariant]
    spec fn names_in_order(self) -> bool {
        names_increasing(self@)
    }

    /// No properties.
    pub fn new() -> (r: Properties)
        ensures
            r@ == Seq::<(Seq<char>, Seq<char>)>::empty(),
            names_increasing(r@),
    {
        let r = Properties { entries: Vec::new() };
        assert(r@ =~= Seq::<(Seq<char>, Seq<char>)>::empty());
        r
    }

    /// The number of properties; their names always increase strictly.
    pub fn len(&self) -> (n: usize)
        ensures
            n == self@.len(),
            names_increasing(self@),
    {
        proof {
            use_type_invariant(self);
        }
        self.entries.len()
    }

    /// The name and the value of the property at `index`.
    pub fn entry(&self, index: usize) -> (r: (&String, &String))
        requires
            index < self@.len(),
        ensures
            (r.0@, r.1@) == self@[index as int],
    {
        let e = &self.entries[index];
        (&e.0, &e.1)
    }

    /// The value of the property `key`.
    pub fn get(&self, key: &str) -> (r: Option<&String>)
        ensures
            r is Some == lookup(self@, key@) is Some,
            r is Some ==> r->Some_0@ == lookup(self@, key@)->Some_0,
    {
        let wanted = String::from_str(key);
        assert(self@.skip(0) =~= self@);
        for i in 0..self.entries.len()
            invariant
                wanted@ == key@,
                self@.len() == self.entries@.len(),
                lookup(self@, key@) == lookup(self@.skip(i as int), key@),
        {
            assert(self@.skip(i as int).drop_first() =~= self@.skip(i + 1));
            if self.entries[i].0 == wanted {
                return Some(&self.entries[i].1);
            }
        }
        None
    }

    /// Sets the property `key` to `value`, in its place by name.
    pub fn insert(&mut self, key: String, value: String)
        ensures
            final(self)@ == set_entry(old(self)@, key@, value@),
            names_increasing(final(self)@),
    {
        proof {
            use_type_invariant(&*self);
        }
        let ghost before = self@;
        let ghost kv = (key@, value@);
        let mut entries: Vec<(String, String)> = Vec::new();
        std::mem::swap(&mut entries, &mut self.entries);
        assert(entries_view(entries@) == before);
        let (i, found) = insertion_point(&entries, key.as_str());
        proof {
            lemma_set_entry_increasing(before, kv.0, kv.1);
        }
        if found {
            entries.set(i, (key, value));
            assert(entries_view(entries@) =~= before.take(i as int) + before.skip(i as int).update(0, kv));
        } else {
            entries.insert(i, (key, value));
            assert(entries_view(entries@) =~= before.take(i as int) + (seq![kv] + before.skip(i as int)));
        }
        self.entries = entries;
    }
}

/// Entries by the text of their names and values.
spec fn entries_view(v: Seq<(String, String)>) -> Seq<(Seq<char>, Seq<char>)> {
    v.map_values(|e: (String, String)| (e.0@, e.1@))
}

/// Where `key` goes among entries whose names increase: the position of the
/// entry with that name (`true`), or of the first entry whose name comes after
/// it, or the end (`false`).
fn insertion_point(entries: &Vec<(String, String)>, key: &str) -> (r: (usize, bool))
    requires
        names_increasing(entries_view(entries@)),
    ensures
        r.0 <= entries@.len(),
        ({
            let view = entries_view(entries@);
            &&& r.1 ==> r.0 < view.len() && forall|v: Seq<char>| #[trigger] set_entry(view, key@, v)
                == view.take(r.0 as int) + view.skip(r.0 as int).update(0, (key@, v))
            &&& !r.1 ==> forall|v: Seq<char>| #[trigger] set_entry(view, key@, v)
                == view.take(r.0 as int) + (seq![(key@, v)] + view.skip(r.0 as int))
        }),
{
    let ghost view = entries_view(entries@);
    let mut i: usize = 0;
    assert(view.skip(0) =~= view);
    assert(view.take(0) =~= Seq::<(Seq<char>, Seq<char>)>::empty());
    while i < entries.len()
        invariant
            view == entries_view(entries@),
            view.len() == entries@.len(),
            i <= view.len(),
            forall|v: Seq<char>| #[trigger] set_entry(view, key@, v) == view.take(i as int) + set_entry(view.skip(i as int), key@, v),
        decreases view.len() - i,
    {
        let ghost tail = view.skip(i as int);
        assert(tail[0] == view[i as int]);
        match compare_names(key, entries[i].0.as_str()) {
            NameOrder::Equal => {
                assert forall|v: Seq<char>| #[trigger] set_entry(view, key@, v)
                    == view.take(i as int) + view.skip(i as int).update(0, (key@, v)) by {
                    assert(set_entry(tail, key@, v) == tail.update(0, (key@, v)));
                }
                return (i, true);
            },
            NameOrder::Less => {
                assert forall|v: Seq<char>| #[trigger] set_entry(view, key@, v)
                    == view.take(i as int) + (seq![(key@, v)] + view.skip(i as int)) by {
                    assert(set_entry(tail, key@, v) == seq![(key@, v)] + tail);
                }
                return (i, false);
            },
            NameOrder::Greater => {
                proof {
                    lemma_name_less_total(key@, view[i as int].0);
                    lemma_name_less_asymmetric(view[i as int].0, key@);
                }
                assert(tail.drop_first() =~= view.skip(i + 1));
                assert(view.take(i + 1) =~= view.take(i as int) + seq![view[i as int]]);
                assert forall|v: Seq<char>| #[trigger] set_entry(view, key@, v) == view.take(i + 1) + set_entry(view.skip(i + 1), key@, v) by {
                    assert(set_entry(tail, key@, v) == seq![tail[0]] + set_entry(tail.drop_first(), key@, v));
                }
            },
        }
        i = i + 1;
    }
    assert(view.take(i as int) =~= view);
    assert(view.skip(i as int) =~= Seq::<(Seq<char>, Seq<char>)>::empty());
    assert forall|v: Seq<char>| #[trigger] set_entry(view, key@, v)
        == view.take(i as int) + (seq![(key@, v)] + view.skip(i as int)) by {
        assert(set_entry(view.skip(i as int), key@, v) == seq![(key@, v)]);
        assert(seq![(key@, v)] + view.skip(i as int) =~= seq![(key@, v)]);
    }
    (i, false)
}

} // verus!
