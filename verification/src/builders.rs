//! Builders of Elixir keyword lists and atom-keyed maps.
use vstd::prelude::*;
use vstd::string::*;
use crate::term::{self, Term, TermV};

verus! {

/// The pair `{key, value}` of a keyword list.
pub open spec fn keyword(key: Seq<char>, value: TermV) -> TermV {
    TermV::Tuple(seq![TermV::Atom(key), value])
}

fn keyword_term(key: &str, value: Term) -> (r: Term)
    ensures
        r@ == keyword(key@, value@),
{
    let es: Vec<Term> = vec![Term::atom(key), value];
    proof {
        term::lemma_values_index(es@);
        assert(Term::values(es@) =~= seq![TermV::Atom(key@), value@]);
    }
    Term::Tuple(es)
}

/// Builds a keyword list: `{atom, value}` pairs in the order they were put,
/// keys repeated as given.
#[derive(Debug)]
pub struct KeywordListBuilder {
    elements: Vec<Term>,
}

impl View for KeywordListBuilder {
    type V = Seq<TermV>;

    closed spec fn view(&self) -> Seq<TermV> {
        Term::values(self.elements@)
    }
}

impl KeywordListBuilder {
    pub fn new() -> (r: Self)
        ensures
            r@ == Seq::<TermV>::empty(),
    {
        KeywordListBuilder { elements: Vec::new() }
    }

    /// An empty builder with room for `capacity` pairs.
    pub fn with_capacity(capacity: usize) -> (r: Self)
        ensures
            r@ == Seq::<TermV>::empty(),
    {
        KeywordListBuilder { elements: Vec::with_capacity(capacity) }
    }

    fn push_pair(self, key: &str, value: Term) -> (r: Self)
        ensures
            r@ == self@.push(keyword(key@, value@)),
    {
        let pair = keyword_term(key, value);
        let mut elements = self.elements;
        let ghost before = elements@;
        elements.push(pair);
        proof {
            term::lemma_values_index(before);
            term::lemma_values_index(elements@);
            assert(Term::values(elements@) =~= Term::values(before).push(keyword(key@, value@)));
        }
        KeywordListBuilder { elements }
    }

    /// Appends `{key, value}`.
    pub fn put(self, key: &str, value: Term) -> (r: Self)
        ensures
            r@ == self@.push(keyword(key@, value@)),
    {
        self.push_pair(key, value)
    }

    /// Appends `{key, value}` with an atom value.
    pub fn put_atom(self, key: &str, value: &str) -> (r: Self)
        ensures
            r@ == self@.push(keyword(key@, TermV::Atom(value@))),
    {
        self.push_pair(key, Term::atom(value))
    }

    /// Appends `{key, true}`.
    pub fn put_flag(self, key: &str) -> (r: Self)
        ensures
            r@ == self@.push(keyword(key@, TermV::Atom("true"@))),
    {
        self.push_pair(key, Term::boolean(true))
    }

    /// Appends `{key, value}` with a term value.
    pub fn put_term(self, key: &str, value: Term) -> (r: Self)
        ensures
            r@ == self@.push(keyword(key@, value@)),
    {
        self.push_pair(key, value)
    }

    /// Appends `{key, value}` when `condition` holds.
    pub fn put_if(self, condition: bool, key: &str, value: Term) -> (r: Self)
        ensures
            r@ == if condition {
                self@.push(keyword(key@, value@))
            } else {
                self@
            },
    {
        if condition {
            self.put(key, value)
        } else {
            self
        }
    }

    /// Appends `{key, value}` when there is a value.
    pub fn put_some(self, key: &str, value: Option<Term>) -> (r: Self)
        ensures
            r@ == match value {
                Some(v) => self@.push(keyword(key@, v@)),
                None => self@,
            },
    {
        match value {
            Some(v) => self.put(key, v),
            None => self,
        }
    }

    /// Appends the given pairs, in order.
    pub fn extend(self, items: Vec<(&str, Term)>) -> (r: Self)
        ensures
            r@ == self@ + Seq::new(
                items@.len(),
                |i: int| keyword(items@[i].0@, items@[i].1@),
            ),
    {
        let mut b = self;
        let ghost start = b@;
        let mut i: usize = 0;
        while i < items.len()
            invariant
                i <= items@.len(),
                b@ == start + Seq::new(i as nat, |k: int| keyword(items@[k].0@, items@[k].1@)),
            decreases items@.len() - i,
        {
            let v = items[i].1.duplicate();
            b = b.put(items[i].0, v);
            i = i + 1;
            assert(b@ =~= start + Seq::new(i as nat, |k: int| keyword(items@[k].0@, items@[k].1@)));
        }
        b
    }

    /// The number of pairs.
    pub fn len(&self) -> (r: usize)
        ensures
            r == self@.len(),
    {
        proof {
            term::lemma_values_index(self.elements@);
        }
        self.elements.len()
    }

    pub fn is_empty(&self) -> (r: bool)
        ensures
            r == (self@.len() == 0),
    {
        proof {
            term::lemma_values_index(self.elements@);
        }
        self.elements.len() == 0
    }

    /// The keyword list.
    pub fn build(self) -> (r: Term)
        ensures
            r@ == TermV::List(self@),
    {
        Term::List(self.elements)
    }
}

impl Default for KeywordListBuilder {
    fn default() -> (r: Self)
        ensures
            r@ == Seq::<TermV>::empty(),
    {
        KeywordListBuilder::new()
    }
}

/// Whether the entries have atom keys, no two alike.
pub open spec fn distinct_atom_keys(pairs: Seq<(TermV, TermV)>) -> bool {
    &&& forall|i: int| 0 <= i < pairs.len() ==> #[trigger] pairs[i].0 is Atom
    &&& forall|i: int, j: int|
        0 <= i < j < pairs.len() ==> #[trigger] pairs[i].0 != #[trigger] pairs[j].0
}

/// Whether the entries have the atom key `key`.
pub open spec fn has_key(pairs: Seq<(TermV, TermV)>, key: Seq<char>) -> bool {
    exists|i: int| 0 <= i < pairs.len() && #[trigger] pairs[i].0 == TermV::Atom(key)
}

/// The entries with `key` set to `value`: in place when the key is there,
/// at the end otherwise.
pub open spec fn upsert(pairs: Seq<(TermV, TermV)>, key: Seq<char>, value: TermV) -> Seq<
    (TermV, TermV),
> {
    if has_key(pairs, key) {
        let i = choose|i: int| 0 <= i < pairs.len() && #[trigger] pairs[i].0 == TermV::Atom(key);
        pairs.update(i, (TermV::Atom(key), value))
    } else {
        pairs.push((TermV::Atom(key), value))
    }
}

/// The entries with each of the given keys set in turn.
pub open spec fn upsert_all(pairs: Seq<(TermV, TermV)>, items: Seq<(Seq<char>, TermV)>) -> Seq<
    (TermV, TermV),
>
    decreases items.len(),
{
    if items.len() == 0 {
        pairs
    } else {
        upsert_all(upsert(pairs, items[0].0, items[0].1), items.subrange(1, items.len() as int))
    }
}

/// Builds a map with atom keys; setting a key again replaces its value.
#[derive(Debug)]
pub struct AtomKeyMapBuilder {
    map: Vec<(Term, Term)>,
}

impl View for AtomKeyMapBuilder {
    type V = Seq<(TermV, TermV)>;

    closed spec fn view(&self) -> Seq<(TermV, TermV)> {
        Term::pair_values(self.map@)
    }
}

impl AtomKeyMapBuilder {
    /// The entries have atom keys, no two alike.
    pub open spec fn well_formed(&self) -> bool {
        distinct_atom_keys(self@)
    }

    pub fn new() -> (r: Self)
        ensures
            r@ == Seq::<(TermV, TermV)>::empty(),
            r.well_formed(),
    {
        AtomKeyMapBuilder { map: Vec::new() }
    }

    /// Sets `key` to `value`.
    pub fn insert(self, key: &str, value: Term) -> (r: Self)
        requires
            self.well_formed(),
        ensures
            r@ == upsert(self@, key@, value@),
            r.well_formed(),
    {
        self.set(key, value)
    }

    fn set(self, key: &str, value: Term) -> (r: Self)
        requires
            self.well_formed(),
        ensures
            r@ == upsert(self@, key@, value@),
            r.well_formed(),
    {
        let ghost old_pairs = self@;
        let mut entries = self.map;
        proof {
            term::lemma_pair_values_index(entries@);
        }
        let mut i: usize = 0;
        while i < entries.len()
            invariant
                i <= entries@.len(),
                old_pairs == Term::pair_values(entries@),
                old_pairs.len() == entries@.len(),
                forall|k: int|
                    0 <= k < entries@.len() ==> #[trigger] old_pairs[k] == (
                        entries@[k].0@,
                        entries@[k].1@,
                    ),
                forall|k: int| 0 <= k < i ==> old_pairs[k].0 != TermV::Atom(key@),
                distinct_atom_keys(old_pairs),
                old_pairs == self@,
            decreases entries@.len() - i,
        {
            if entries[i].0.is_atom_with_name(key) {
                assert(old_pairs[i as int].0 == TermV::Atom(key@));
                let entry = term::atom_entry(key, value);
                let ghost before = entries@;
                entries.set(i, entry);
                proof {
                    assert(has_key(old_pairs, key@));
                    let j = choose|j: int|
                        0 <= j < old_pairs.len() && #[trigger] old_pairs[j].0 == TermV::Atom(key@);
                    assert(j == i) by {
                        if j != i {
                            if j < i {
                                assert(old_pairs[j].0 != TermV::Atom(key@));
                            } else {
                                assert(old_pairs[i as int].0 != old_pairs[j].0);
                            }
                        }
                    }
                    term::lemma_pair_values_index(entries@);
                    assert(Term::pair_values(entries@) =~= upsert(old_pairs, key@, value@));
                }
                return AtomKeyMapBuilder { map: entries };
            }
            i = i + 1;
        }
        let entry = term::atom_entry(key, value);
        proof {
            term::lemma_pair_values_push(entries@, entry);
            assert(!has_key(old_pairs, key@));
        }
        entries.push(entry);
        AtomKeyMapBuilder { map: entries }
    }

    /// Sets `key` to an atom.
    pub fn insert_atom(self, key: &str, value: &str) -> (r: Self)
        requires
            self.well_formed(),
        ensures
            r@ == upsert(self@, key@, TermV::Atom(value@)),
            r.well_formed(),
    {
        self.set(key, Term::atom(value))
    }

    /// Sets `key` to a term.
    pub fn insert_term(self, key: &str, value: Term) -> (r: Self)
        requires
            self.well_formed(),
        ensures
            r@ == upsert(self@, key@, value@),
            r.well_formed(),
    {
        self.set(key, value)
    }

    /// Sets `key` when `condition` holds.
    pub fn insert_if(self, condition: bool, key: &str, value: Term) -> (r: Self)
        requires
            self.well_formed(),
        ensures
            r@ == if condition {
                upsert(self@, key@, value@)
            } else {
                self@
            },
            r.well_formed(),
    {
        if condition {
            self.set(key, value)
        } else {
            self
        }
    }

    /// Sets `key` when there is a value.
    pub fn insert_some(self, key: &str, value: Option<Term>) -> (r: Self)
        requires
            self.well_formed(),
        ensures
            r@ == match value {
                Some(v) => upsert(self@, key@, v@),
                None => self@,
            },
            r.well_formed(),
    {
        match value {
            Some(v) => self.set(key, v),
            None => self,
        }
    }

    /// Sets each of the given keys in turn.
    pub fn extend(self, items: Vec<(&str, Term)>) -> (r: Self)
        requires
            self.well_formed(),
        ensures
            r@ == upsert_all(self@, Seq::new(items@.len(), |i: int| (items@[i].0@, items@[i].1@))),
            r.well_formed(),
    {
        let ghost all = Seq::new(items@.len(), |i: int| (items@[i].0@, items@[i].1@));
        let ghost start = self@;
        let mut b = self;
        let mut i: usize = 0;
        assert(all.subrange(0, all.len() as int) =~= all);
        while i < items.len()
            invariant
                i <= items@.len(),
                all.len() == items@.len(),
                forall|k: int| 0 <= k < items@.len() ==> #[trigger] all[k] == (items@[k].0@, items@[k].1@),
                b.well_formed(),
                upsert_all(b@, all.subrange(i as int, all.len() as int)) == upsert_all(start, all),
            decreases items@.len() - i,
        {
            let ghost rest = all.subrange(i as int, all.len() as int);
            assert(rest[0] == all[i as int]);
            assert(rest.subrange(1, rest.len() as int) =~= all.subrange(i + 1, all.len() as int));
            let v = items[i].1.duplicate();
            b = b.set(items[i].0, v);
            i = i + 1;
        }
        assert(all.subrange(i as int, all.len() as int) =~= Seq::<(Seq<char>, TermV)>::empty());
        b
    }

    /// The number of keys.
    pub fn len(&self) -> (r: usize)
        ensures
            r == self@.len(),
    {
        proof {
            term::lemma_pair_values_index(self.map@);
        }
        self.map.len()
    }

    pub fn is_empty(&self) -> (r: bool)
        ensures
            r == (self@.len() == 0),
    {
        proof {
            term::lemma_pair_values_index(self.map@);
        }
        self.map.len() == 0
    }

    /// The map.
    pub fn build(self) -> (r: Term)
        ensures
            r@ == TermV::ErlMap(self@),
            self.well_formed() ==> term::distinct_keys(self@),
    {
        term::erl_map(self.map)
    }

    /// An Elixir struct: the map with `__struct__` set to `Elixir.<module>`.
    pub fn build_struct(self, module: &str) -> (r: Term)
        requires
            self.well_formed(),
        ensures
            r@ == TermV::ErlMap(
                upsert(self@, "__struct__"@, TermV::Atom("Elixir."@ + module@)),
            ),
            term::distinct_keys(upsert(self@, "__struct__"@, TermV::Atom("Elixir."@ + module@))),
    {
        let mut full = String::from_str("Elixir.");
        full.append(module);
        let b = self.set("__struct__", Term::atom(full.as_str()));
        b.build()
    }
}

impl Default for AtomKeyMapBuilder {
    fn default() -> (r: Self)
        ensures
            r@ == Seq::<(TermV, TermV)>::empty(),
    {
        AtomKeyMapBuilder::new()
    }
}

/// Setting a key of a map with distinct atom keys makes a lookup of that key
/// find the new value, leaves the lookups of other keys as they were, keeps
/// the keys distinct, and adds an entry only for a new key.
pub proof fn lemma_upsert_lookup(
    pairs: Seq<(TermV, TermV)>,
    key: Seq<char>,
    value: TermV,
    other: Seq<char>,
)
    requires
        distinct_atom_keys(pairs),
    ensures
        term::lookup_atom_key(upsert(pairs, key, value), key) == Some(value),
        other != key ==> term::lookup_atom_key(upsert(pairs, key, value), other)
            == term::lookup_atom_key(pairs, other),
        distinct_atom_keys(upsert(pairs, key, value)),
        upsert(pairs, key, value).len() == pairs.len() + if has_key(pairs, key) {
            0int
        } else {
            1int
        },
{
    let u = upsert(pairs, key, value);
    if has_key(pairs, key) {
        let i = choose|i: int| 0 <= i < pairs.len() && #[trigger] pairs[i].0 == TermV::Atom(key);
        assert forall|j: int| 0 <= j < i implies u[j].0 != TermV::Atom(key) by {
            assert(pairs[j].0 != pairs[i].0);
        }
        term::lemma_lookup_first(u, key, i);
    } else {
        let n = pairs.len() as int;
        term::lemma_lookup_first(u, key, n);
    }
    if other != key {
        if has_key(pairs, other) {
            let k = choose|k: int| 0 <= k < pairs.len() && #[trigger] pairs[k].0 == TermV::Atom(other);
            let first = choose|k: int|
                0 <= k < pairs.len() && pairs[k].0 == TermV::Atom(other) && forall|j: int|
                    0 <= j < k ==> pairs[j].0 != TermV::Atom(other);
            assert(exists|k: int|
                0 <= k < pairs.len() && pairs[k].0 == TermV::Atom(other) && forall|j: int|
                    0 <= j < k ==> pairs[j].0 != TermV::Atom(other)) by {
                assert forall|j: int| 0 <= j < k implies pairs[j].0 != TermV::Atom(other) by {
                    assert(pairs[j].0 != pairs[k].0);
                }
            }
            term::lemma_lookup_first(pairs, other, first);
            assert forall|j: int| 0 <= j < first implies u[j].0 != TermV::Atom(other) by {}
            term::lemma_lookup_first(u, other, first);
        } else {
            term::lemma_lookup_absent(pairs, other);
            term::lemma_lookup_absent(u, other);
        }
    }
}

} // verus!
