//! The table of registered process names: each name stands for one pid, and
//! a name is taken until it is unregistered.
use vstd::prelude::*;
use vstd::string::*;
use crate::term::{Pid, PidV};
use crate::text::str_equal;

verus! {

/// Whether `name` is registered in `entries`.
pub open spec fn has_name(entries: Seq<(Seq<char>, PidV)>, name: Seq<char>) -> bool {
    exists|i: int| 0 <= i < entries.len() && #[trigger] entries[i].0 == name
}

/// The position of `name` in `entries`, when it is there.
pub open spec fn name_index(entries: Seq<(Seq<char>, PidV)>, name: Seq<char>) -> int {
    choose|i: int| 0 <= i < entries.len() && #[trigger] entries[i].0 == name
}

/// The pid registered under `name`, when there is one.
pub open spec fn whereis_in(entries: Seq<(Seq<char>, PidV)>, name: Seq<char>) -> Option<PidV> {
    if has_name(entries, name) {
        Some(entries[name_index(entries, name)].1)
    } else {
        None
    }
}

/// No name occurs twice.
pub open spec fn distinct_names(entries: Seq<(Seq<char>, PidV)>) -> bool {
    forall|i: int, j: int|
        0 <= i < entries.len() && 0 <= j < entries.len() && i != j ==> #[trigger] entries[i].0
            != #[trigger] entries[j].0
}

/// The entries after registering `pid` under a name that is free.
pub open spec fn registered_with(entries: Seq<(Seq<char>, PidV)>, name: Seq<char>, pid: PidV) -> Seq<
    (Seq<char>, PidV),
> {
    if has_name(entries, name) {
        entries
    } else {
        entries.push((name, pid))
    }
}

/// The entries after unregistering `name`.
pub open spec fn unregistered(entries: Seq<(Seq<char>, PidV)>, name: Seq<char>) -> Seq<
    (Seq<char>, PidV),
> {
    if has_name(entries, name) {
        entries.remove(name_index(entries, name))
    } else {
        entries
    }
}

/// The names and pids of stored entries.
pub open spec fn entries_view(v: Seq<(String, Pid)>) -> Seq<(Seq<char>, PidV)> {
    v.map_values(|e: (String, Pid)| (e.0@, e.1@))
}

/// Registered names, in the order they were registered.
pub struct NameRegistry {
    entries: Vec<(String, Pid)>,
}

impl View for NameRegistry {
    type V = Seq<(Seq<char>, PidV)>;

    closed spec fn view(&self) -> Seq<(Seq<char>, PidV)> {
        entries_view(self.entries@)
    }
}

impl NameRegistry {
    #[verifier::type_invariant]
    closed spec fn well_formed(self) -> bool {
        distinct_names(self@)
    }

    pub fn new() -> (r: Self)
        ensures
            r@ == Seq::<(Seq<char>, PidV)>::empty(),
            distinct_names(r@),
    {
        let r = NameRegistry { entries: Vec::new() };
        assert(r@ =~= Seq::<(Seq<char>, PidV)>::empty());
        r
    }

    /// The position of `name`, if it is registered.
    fn find(&self, name: &str) -> (r: Option<usize>)
        ensures
            match r {
                Some(i) => i < self@.len() && self@[i as int].0 == name@ && i == name_index(
                    self@,
                    name@,
                ),
                None => !has_name(self@, name@),
            },
    {
        proof {
            use_type_invariant(self);
        }
        let mut i: usize = 0;
        while i < self.entries.len()
            invariant
                i <= self.entries@.len(),
                self@.len() == self.entries@.len(),
                self@ == entries_view(self.entries@),
                distinct_names(self@),
                forall|k: int| 0 <= k < i ==> self@[k].0 != name@,
            decreases self.entries@.len() - i,
        {
            if str_equal(self.entries[i].0.as_str(), name) {
                proof {
                    assert(self@[i as int].0 == name@);
                    let j = name_index(self@, name@);
                    assert(0 <= j < self@.len() && self@[j].0 == name@);
                    assert(distinct_names(self@));
                }
                return Some(i);
            }
            i = i + 1;
        }
        None
    }

    /// Registers `pid` under `name` unless the name is taken; says whether it
    /// registered.
    pub fn register(&mut self, name: &str, pid: Pid) -> (r: bool)
        ensures
            r == !has_name(old(self)@, name@),
            final(self)@ == registered_with(old(self)@, name@, pid@),
            distinct_names(final(self)@),
    {
        proof {
            use_type_invariant(&*self);
        }
        match self.find(name) {
            Some(_) => false,
            None => {
                let ghost before = self@;
                let mut entries: Vec<(String, Pid)> = Vec::new();
                std::mem::swap(&mut entries, &mut self.entries);
                entries.push((String::from_str(name), pid));
                proof {
                    let after = entries_view(entries@);
                    assert(after =~= before.push((name@, pid@)));
                    assert forall|i: int, j: int|
                        0 <= i < after.len() && 0 <= j < after.len() && i != j implies #[trigger] after[i].0
                        != #[trigger] after[j].0 by {
                        if i < before.len() && j < before.len() {
                        } else if i == before.len() {
                            assert(before[j].0 == after[j].0);
                        } else {
                            assert(before[i].0 == after[i].0);
                        }
                    }
                }
                self.entries = entries;
                true
            },
        }
    }

    /// Removes the registration of `name`; says whether there was one.
    pub fn unregister(&mut self, name: &str) -> (r: bool)
        ensures
            r == has_name(old(self)@, name@),
            final(self)@ == unregistered(old(self)@, name@),
            distinct_names(final(self)@),
    {
        proof {
            use_type_invariant(&*self);
        }
        match self.find(name) {
            Some(i) => {
                let ghost before = self@;
                let mut entries: Vec<(String, Pid)> = Vec::new();
                std::mem::swap(&mut entries, &mut self.entries);
                entries.remove(i);
                proof {
                    let after = entries_view(entries@);
                    assert(after =~= before.remove(i as int));
                    assert forall|a: int, b: int|
                        0 <= a < after.len() && 0 <= b < after.len() && a != b implies #[trigger] after[a].0
                        != #[trigger] after[b].0 by {
                        let a0 = if a < i { a } else { a + 1 };
                        let b0 = if b < i { b } else { b + 1 };
                        assert(after[a] == before[a0]);
                        assert(after[b] == before[b0]);
                    }
                }
                self.entries = entries;
                true
            },
            None => false,
        }
    }

    /// The pid registered under `name`.
    pub fn whereis(&self, name: &str) -> (r: Option<Pid>)
        ensures
            match whereis_in(self@, name@) {
                Some(p) => r matches Some(q) && q@ == p,
                None => r is None,
            },
    {
        match self.find(name) {
            Some(i) => {
                proof {
                    assert(self@[i as int].1 == self.entries@[i as int].1@);
                }
                Some(self.entries[i].1.duplicate())
            },
            None => None,
        }
    }

    /// The registered names, in registration order.
    pub fn registered(&self) -> (r: Vec<String>)
        ensures
            r@.len() == self@.len(),
            forall|i: int| 0 <= i < r@.len() ==> #[trigger] r@[i]@ == self@[i].0,
    {
        let mut names: Vec<String> = Vec::new();
        let mut i: usize = 0;
        while i < self.entries.len()
            invariant
                i <= self.entries@.len(),
                self@ == entries_view(self.entries@),
                names@.len() == i,
                forall|k: int| 0 <= k < i ==> #[trigger] names@[k]@ == self@[k].0,
            decreases self.entries@.len() - i,
        {
            names.push(self.entries[i].0.clone());
            i = i + 1;
        }
        names
    }

    /// The number of registered names.
    pub fn count(&self) -> (r: usize)
        ensures
            r == self@.len(),
    {
        self.entries.len()
    }
}

/// A name registered under a free name is found again with its pid, and the
/// other names keep theirs.
pub proof fn lemma_register_then_whereis(
    entries: Seq<(Seq<char>, PidV)>,
    name: Seq<char>,
    pid: PidV,
    other: Seq<char>,
)
    requires
        distinct_names(entries),
        !has_name(entries, name),
        other != name,
    ensures
        whereis_in(registered_with(entries, name, pid), name) == Some(pid),
        whereis_in(registered_with(entries, name, pid), other) == whereis_in(entries, other),
        distinct_names(registered_with(entries, name, pid)),
{
    let s = entries.push((name, pid));
    assert(s[entries.len() as int].0 == name);
    let j = name_index(s, name);
    assert(0 <= j < s.len() && s[j].0 == name);
    if j < entries.len() {
        assert(entries[j].0 == name);
    }
    if has_name(s, other) {
        let k = name_index(s, other);
        assert(k < entries.len());
        assert(entries[k].0 == other);
        let k0 = name_index(entries, other);
        assert(s[k0].0 == other);
        assert(k == k0) by {
            if k != k0 {
                assert(s[k].0 == s[k0].0);
            }
        }
    } else {
        assert forall|i: int| 0 <= i < entries.len() implies #[trigger] entries[i].0 != other by {
            assert(s[i].0 == entries[i].0);
        }
    }
    assert forall|a: int, b: int|
        0 <= a < s.len() && 0 <= b < s.len() && a != b implies #[trigger] s[a].0 != #[trigger] s[b].0 by {
        if a < entries.len() && b < entries.len() {
            assert(s[a] == entries[a] && s[b] == entries[b]);
        } else if a == entries.len() {
            assert(s[b] == entries[b]);
        } else {
            assert(s[a] == entries[a]);
        }
    }
}

/// Registering a name that is taken changes nothing; after unregistering a
/// name it is free again.
pub proof fn lemma_taken_and_freed_names(entries: Seq<(Seq<char>, PidV)>, name: Seq<char>, pid: PidV)
    requires
        distinct_names(entries),
    ensures
        has_name(entries, name) ==> registered_with(entries, name, pid) == entries,
        !has_name(unregistered(entries, name), name),
        whereis_in(unregistered(entries, name), name) is None,
{
    if has_name(entries, name) {
        let i = name_index(entries, name);
        let s = entries.remove(i);
        assert forall|k: int| 0 <= k < s.len() implies #[trigger] s[k].0 != name by {
            let k0 = if k < i { k } else { k + 1 };
            assert(s[k] == entries[k0]);
        }
    }
}

} // verus!
