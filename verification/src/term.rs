//! Erlang terms as plain values: the data that the control messages and the
//! Elixir helpers read and build. Each type has a view over mathematical
//! sequences, which is what the contracts speak of.
use vstd::prelude::*;
use vstd::string::*;
use vstd::utf8;
use crate::wire;

verus! {

/// A process identifier of a (possibly remote) node.
#[derive(Debug, Clone)]
pub struct Pid {
    pub node: String,
    pub id: u32,
    pub serial: u32,
    pub creation: u32,
    /// The node-local encoding the pid arrived with, when there was one.
    pub local_ext_bytes: Option<Vec<u8>>,
}

/// A port identifier.
#[derive(Debug, Clone)]
pub struct Port {
    pub node: String,
    pub id: u64,
    pub creation: u32,
    pub local_ext_bytes: Option<Vec<u8>>,
}

/// A reference.
#[derive(Debug, Clone)]
pub struct Reference {
    pub node: String,
    pub creation: u32,
    pub ids: Vec<u32>,
    pub local_ext_bytes: Option<Vec<u8>>,
}

/// A local fun with its environment.
#[derive(Debug)]
pub struct InternalFun {
    pub arity: u8,
    pub uniq: [u8; 16],
    pub index: u32,
    pub num_free: u32,
    pub module: String,
    pub old_index: u32,
    pub old_uniq: u32,
    pub pid: Pid,
    pub free_vars: Vec<Term>,
}

/// An Erlang term. A float is held as the bits of its IEEE 754 double.
#[derive(Debug)]
pub enum Term {
    Atom(String),
    Integer(i64),
    Float(u64),
    Pid(Pid),
    Port(Port),
    Reference(Reference),
    Binary(Vec<u8>),
    BitBinary { bytes: Vec<u8>, bits: u8 },
    Str(String),
    List(Vec<Term>),
    ImproperList { elements: Vec<Term>, tail: Box<Term> },
    /// Key-value pairs; keys are distinct in the maps this library builds.
    ErlMap(Vec<(Term, Term)>),
    Tuple(Vec<Term>),
    BigInt { negative: bool, digits: Vec<u8> },
    ExternalFun { module: String, function: String, arity: u8 },
    InternalFun(Box<InternalFun>),
    Nil,
}

pub struct PidV {
    pub node: Seq<char>,
    pub id: u32,
    pub serial: u32,
    pub creation: u32,
    pub local_ext_bytes: Option<Seq<u8>>,
}

pub struct PortV {
    pub node: Seq<char>,
    pub id: u64,
    pub creation: u32,
    pub local_ext_bytes: Option<Seq<u8>>,
}

pub struct ReferenceV {
    pub node: Seq<char>,
    pub creation: u32,
    pub ids: Seq<u32>,
    pub local_ext_bytes: Option<Seq<u8>>,
}

pub struct InternalFunV {
    pub arity: u8,
    pub uniq: Seq<u8>,
    pub index: u32,
    pub num_free: u32,
    pub module: Seq<char>,
    pub old_index: u32,
    pub old_uniq: u32,
    pub pid: PidV,
    pub free_vars: Seq<TermV>,
}

/// The value of a term.
pub enum TermV {
    Atom(Seq<char>),
    Integer(i64),
    Float(u64),
    Pid(PidV),
    Port(PortV),
    Reference(ReferenceV),
    Binary(Seq<u8>),
    BitBinary(Seq<u8>, u8),
    Str(Seq<char>),
    List(Seq<TermV>),
    ImproperList(Seq<TermV>, Box<TermV>),
    ErlMap(Seq<(TermV, TermV)>),
    Tuple(Seq<TermV>),
    BigInt(bool, Seq<u8>),
    ExternalFun(Seq<char>, Seq<char>, u8),
    InternalFun(Box<InternalFunV>),
    Nil,
}

pub open spec fn opt_bytes(o: Option<Vec<u8>>) -> Option<Seq<u8>> {
    match o {
        Some(v) => Some(v@),
        None => None,
    }
}

impl View for Pid {
    type V = PidV;

    open spec fn view(&self) -> PidV {
        PidV {
            node: self.node@,
            id: self.id,
            serial: self.serial,
            creation: self.creation,
            local_ext_bytes: opt_bytes(self.local_ext_bytes),
        }
    }
}

impl View for Port {
    type V = PortV;

    open spec fn view(&self) -> PortV {
        PortV {
            node: self.node@,
            id: self.id,
            creation: self.creation,
            local_ext_bytes: opt_bytes(self.local_ext_bytes),
        }
    }
}

impl View for Reference {
    type V = ReferenceV;

    open spec fn view(&self) -> ReferenceV {
        ReferenceV {
            node: self.node@,
            creation: self.creation,
            ids: self.ids@,
            local_ext_bytes: opt_bytes(self.local_ext_bytes),
        }
    }
}

impl Term {
    /// The value of a term.
    pub open spec fn value(&self) -> TermV
        decreases self, 0int,
    {
        match self {
            Term::Atom(a) => TermV::Atom(a@),
            Term::Integer(i) => TermV::Integer(*i),
            Term::Float(f) => TermV::Float(*f),
            Term::Pid(p) => TermV::Pid(p@),
            Term::Port(p) => TermV::Port(p@),
            Term::Reference(r) => TermV::Reference(r@),
            Term::Binary(b) => TermV::Binary(b@),
            Term::BitBinary { bytes, bits } => TermV::BitBinary(bytes@, *bits),
            Term::Str(s) => TermV::Str(s@),
            Term::List(v) => TermV::List(Term::values(v@)),
            Term::ImproperList { elements, tail } => TermV::ImproperList(
                Term::values(elements@),
                Box::new(tail.value()),
            ),
            Term::ErlMap(v) => TermV::ErlMap(Term::pair_values(v@)),
            Term::Tuple(v) => TermV::Tuple(Term::values(v@)),
            Term::BigInt { negative, digits } => TermV::BigInt(*negative, digits@),
            Term::ExternalFun { module, function, arity } => TermV::ExternalFun(
                module@,
                function@,
                *arity,
            ),
            Term::InternalFun(f) => TermV::InternalFun(
                Box::new(
                    InternalFunV {
                        arity: f.arity,
                        uniq: f.uniq@,
                        index: f.index,
                        num_free: f.num_free,
                        module: f.module@,
                        old_index: f.old_index,
                        old_uniq: f.old_uniq,
                        pid: f.pid@,
                        free_vars: Term::values(f.free_vars@),
                    },
                ),
            ),
            Term::Nil => TermV::Nil,
        }
    }

    /// The values of a sequence of terms.
    pub open spec fn values(s: Seq<Term>) -> Seq<TermV>
        decreases s, 1int,
    {
        if s.len() == 0 {
            Seq::empty()
        } else {
            seq![s[0].value()] + Term::values(s.subrange(1, s.len() as int))
        }
    }

    /// The values of a sequence of key-value pairs.
    pub open spec fn pair_values(s: Seq<(Term, Term)>) -> Seq<(TermV, TermV)>
        decreases s, 1int,
    {
        if s.len() == 0 {
            Seq::empty()
        } else {
            seq![(s[0].0.value(), s[0].1.value())] + Term::pair_values(s.subrange(1, s.len() as int))
        }
    }
}

impl View for Term {
    type V = TermV;

    open spec fn view(&self) -> TermV {
        self.value()
    }
}

/// Each element of the values of a sequence of terms is the value of the
/// term at the same place.
pub proof fn lemma_values_index(s: Seq<Term>)
    ensures
        Term::values(s).len() == s.len(),
        forall|i: int| 0 <= i < s.len() ==> #[trigger] Term::values(s)[i] == s[i]@,
    decreases s.len(),
{
    if s.len() > 0 {
        let t = s.subrange(1, s.len() as int);
        lemma_values_index(t);
        assert forall|i: int| 0 <= i < s.len() implies #[trigger] Term::values(s)[i] == s[i]@ by {
            if i > 0 {
                assert(t[i - 1] == s[i]);
            }
        }
    }
}

/// Each element of the values of a sequence of pairs is the pair of values
/// at the same place.
pub proof fn lemma_pair_values_index(s: Seq<(Term, Term)>)
    ensures
        Term::pair_values(s).len() == s.len(),
        forall|i: int|
            0 <= i < s.len() ==> #[trigger] Term::pair_values(s)[i] == (s[i].0@, s[i].1@),
    decreases s.len(),
{
    if s.len() > 0 {
        let t = s.subrange(1, s.len() as int);
        lemma_pair_values_index(t);
        assert forall|i: int| 0 <= i < s.len() implies #[trigger] Term::pair_values(s)[i] == (
            s[i].0@,
            s[i].1@,
        ) by {
            if i > 0 {
                assert(t[i - 1] == s[i]);
            }
        }
    }
}

/// Two sequences of terms with the same values element by element have the
/// same values.
pub proof fn lemma_values_ext(a: Seq<Term>, b: Seq<Term>)
    requires
        a.len() == b.len(),
        forall|i: int| 0 <= i < a.len() ==> #[trigger] a[i]@ == b[i]@,
    ensures
        Term::values(a) == Term::values(b),
{
    lemma_values_index(a);
    lemma_values_index(b);
    assert(Term::values(a) =~= Term::values(b));
}

/// The integer a term holds, if it is an integer.
pub open spec fn integer_of(t: TermV) -> Option<i64> {
    match t {
        TermV::Integer(i) => Some(i),
        _ => None,
    }
}

/// The value at the first key that is the atom `key`.
pub open spec fn lookup_atom_key(entries: Seq<(TermV, TermV)>, key: Seq<char>) -> Option<TermV>
    decreases entries.len(),
{
    if entries.len() == 0 {
        None
    } else if entries[0].0 == TermV::Atom(key) {
        Some(entries[0].1)
    } else {
        lookup_atom_key(entries.subrange(1, entries.len() as int), key)
    }
}

/// The value of a map term at the atom key `key`.
pub open spec fn map_value(t: TermV, key: Seq<char>) -> Option<TermV> {
    match t {
        TermV::ErlMap(entries) => lookup_atom_key(entries, key),
        _ => None,
    }
}

/// The module of an Elixir struct: the atom at its `__struct__` key.
pub open spec fn struct_module(t: TermV) -> Option<Seq<char>> {
    match map_value(t, "__struct__"@) {
        Some(TermV::Atom(name)) => Some(name),
        _ => None,
    }
}

pub open spec fn opt_value(o: Option<&Term>) -> Option<TermV> {
    match o {
        Some(t) => Some(t@),
        None => None,
    }
}

/// Whether a term is an integer in `0..=255`.
pub open spec fn is_byte_integer(t: TermV) -> bool {
    match t {
        TermV::Integer(i) => 0 <= i <= 255,
        _ => false,
    }
}

/// The byte an integer term holds.
pub open spec fn byte_of(t: TermV) -> u8 {
    match t {
        TermV::Integer(i) => i as u8,
        _ => 0,
    }
}

/// What `String::from_utf8_lossy` makes of `bytes`: their text, with each
/// invalid sequence replaced by U+FFFD.
pub uninterp spec fn utf8_lossy(bytes: Seq<u8>) -> Seq<char>;

/// No two entries of a map have the same key, as in the maps of the
/// external term format.
pub open spec fn distinct_keys(pairs: Seq<(TermV, TermV)>) -> bool {
    forall|i: int, j: int| 0 <= i < j < pairs.len() ==> #[trigger] pairs[i].0 != #[trigger] pairs[j].0
}

/// The text of bytes decoded as lossy UTF-8: the text they encode when they
/// are valid UTF-8.
pub open spec fn lossy_text(bytes: Seq<u8>) -> Seq<char> {
    if utf8::valid_utf8(bytes) {
        utf8::decode_utf8(bytes)
    } else {
        utf8_lossy(bytes)
    }
}

/// The text of a charlist, a string or a binary.
pub open spec fn erlang_string(t: TermV) -> Option<Seq<char>> {
    match t {
        TermV::List(es) => if forall|i: int| 0 <= i < es.len() ==> is_byte_integer(#[trigger] es[i]) {
            Some(lossy_text(Seq::new(es.len(), |i: int| byte_of(es[i]))))
        } else {
            None
        },
        TermV::Str(s) => Some(s),
        TermV::Binary(b) => Some(lossy_text(b)),
        _ => None,
    }
}

/// Decodes `bytes` through `String::from_utf8_lossy`, which yields the text of
/// valid UTF-8 and puts U+FFFD in place of each invalid sequence.
#[verifier::external_body]
fn lossy_string(bytes: &[u8]) -> (r: String)
    ensures
        r@ == utf8_lossy(bytes@),
        r@ == lossy_text(bytes@),
{
    String::from_utf8_lossy(bytes).into_owned()
}

/// A copy of a byte vector.
fn copy_bytes(v: &Vec<u8>) -> (r: Vec<u8>)
    ensures
        r@ == v@,
{
    wire::copy_range(v.as_slice(), 0, v.len())
}

fn copy_opt_bytes(o: &Option<Vec<u8>>) -> (r: Option<Vec<u8>>)
    ensures
        opt_bytes(r) == opt_bytes(*o),
{
    match o {
        Some(v) => Some(copy_bytes(v)),
        None => None,
    }
}

fn copy_u32s(v: &Vec<u32>) -> (r: Vec<u32>)
    ensures
        r@ == v@,
{
    let mut out: Vec<u32> = Vec::new();
    let mut i: usize = 0;
    while i < v.len()
        invariant
            i <= v@.len(),
            out@ == v@.subrange(0, i as int),
        decreases v@.len() - i,
    {
        out.push(v[i]);
        i = i + 1;
        assert(out@ =~= v@.subrange(0, i as int));
    }
    assert(out@ =~= v@);
    out
}

impl Pid {
    /// A copy of this pid.
    pub fn duplicate(&self) -> (r: Pid)
        ensures
            r@ == self@,
    {
        Pid {
            node: self.node.clone(),
            id: self.id,
            serial: self.serial,
            creation: self.creation,
            local_ext_bytes: copy_opt_bytes(&self.local_ext_bytes),
        }
    }
}

impl Port {
    /// A copy of this port.
    pub fn duplicate(&self) -> (r: Port)
        ensures
            r@ == self@,
    {
        Port {
            node: self.node.clone(),
            id: self.id,
            creation: self.creation,
            local_ext_bytes: copy_opt_bytes(&self.local_ext_bytes),
        }
    }
}

impl Reference {
    /// A copy of this reference.
    pub fn duplicate(&self) -> (r: Reference)
        ensures
            r@ == self@,
    {
        Reference {
            node: self.node.clone(),
            creation: self.creation,
            ids: copy_u32s(&self.ids),
            local_ext_bytes: copy_opt_bytes(&self.local_ext_bytes),
        }
    }
}

impl Term {
    /// The atom `name`.
    pub fn atom(name: &str) -> (r: Term)
        ensures
            r@ == TermV::Atom(name@),
    {
        Term::Atom(String::from_str(name))
    }

    /// The atom `true` or `false`.
    pub fn boolean(b: bool) -> (r: Term)
        ensures
            r@ == TermV::Atom(if b { "true"@ } else { "false"@ }),
    {
        if b {
            Term::atom("true")
        } else {
            Term::atom("false")
        }
    }

    /// Elixir's `nil`, the atom `nil`.
    pub fn elixir_nil() -> (r: Term)
        ensures
            r@ == TermV::Atom("nil"@),
    {
        Term::atom("nil")
    }

    /// A tuple of the given terms.
    pub fn tuple(elements: Vec<Term>) -> (r: Term)
        ensures
            r@ == TermV::Tuple(Term::values(elements@)),
    {
        Term::Tuple(elements)
    }

    /// The integer this term holds, if it is an integer.
    pub fn as_integer(&self) -> (r: Option<i64>)
        ensures
            r == integer_of(self@),
    {
        match self {
            Term::Integer(i) => Some(*i),
            _ => None,
        }
    }

    /// Whether this term is the atom `name`.
    pub fn is_atom_with_name(&self, name: &str) -> (r: bool)
        ensures
            r == (self@ == TermV::Atom(name@)),
    {
        match self {
            Term::Atom(a) => crate::text::str_equal(a.as_str(), name),
            _ => false,
        }
    }

    /// The name of this term, if it is an atom.
    pub fn atom_name(&self) -> (r: Option<&String>)
        ensures
            match self@ {
                TermV::Atom(n) => r matches Some(s) && s@ == n,
                _ => r is None,
            },
    {
        match self {
            Term::Atom(a) => Some(a),
            _ => None,
        }
    }

    /// The elements of this term, if it is a tuple.
    pub fn as_tuple(&self) -> (r: Option<&Vec<Term>>)
        ensures
            match self@ {
                TermV::Tuple(es) => r matches Some(v) && Term::values(v@) == es,
                _ => r is None,
            },
    {
        match self {
            Term::Tuple(v) => Some(v),
            _ => None,
        }
    }

    /// The two elements of this term, if it is a 2-tuple.
    pub fn as_2_tuple(&self) -> (r: Option<(&Term, &Term)>)
        ensures
            match self@ {
                TermV::Tuple(es) => if es.len() == 2 {
                    r matches Some(p) && p.0@ == es[0] && p.1@ == es[1]
                } else {
                    r is None
                },
                _ => r is None,
            },
    {
        match self {
            Term::Tuple(v) => {
                proof {
                    lemma_values_index(v@);
                }
                if v.len() == 2 {
                    Some((&v[0], &v[1]))
                } else {
                    None
                }
            },
            _ => None,
        }
    }

    /// The three elements of this term, if it is a 3-tuple.
    pub fn as_3_tuple(&self) -> (r: Option<(&Term, &Term, &Term)>)
        ensures
            match self@ {
                TermV::Tuple(es) => if es.len() == 3 {
                    r matches Some(p) && p.0@ == es[0] && p.1@ == es[1] && p.2@ == es[2]
                } else {
                    r is None
                },
                _ => r is None,
            },
    {
        match self {
            Term::Tuple(v) => {
                proof {
                    lemma_values_index(v@);
                }
                if v.len() == 3 {
                    Some((&v[0], &v[1], &v[2]))
                } else {
                    None
                }
            },
            _ => None,
        }
    }

    /// The value of this map at the atom key `key`, if this is a map with
    /// that key (the first such entry).
    pub fn map_get(&self, key: &str) -> (r: Option<&Term>)
        ensures
            opt_value(r) == map_value(self@, key@),
    {
        match self {
            Term::ErlMap(entries) => {
                let ghost pv = Term::pair_values(entries@);
                proof {
                    lemma_pair_values_index(entries@);
                    assert(pv.subrange(0, pv.len() as int) =~= pv);
                    assert(self@ == TermV::ErlMap(pv));
                }
                let mut i: usize = 0;
                while i < entries.len()
                    invariant
                        i <= entries@.len(),
                        pv == Term::pair_values(entries@),
                        self@ == TermV::ErlMap(pv),
                        pv.len() == entries@.len(),
                        forall|k: int|
                            0 <= k < entries@.len() ==> #[trigger] pv[k] == (
                                entries@[k].0@,
                                entries@[k].1@,
                            ),
                        lookup_atom_key(pv, key@) == lookup_atom_key(
                            pv.subrange(i as int, pv.len() as int),
                            key@,
                        ),
                    decreases entries@.len() - i,
                {
                    let ghost rest = pv.subrange(i as int, pv.len() as int);
                    assert(rest[0] == pv[i as int]);
                    if entries[i].0.is_atom_with_name(key) {
                        assert(lookup_atom_key(rest, key@) == Some(rest[0].1));
                        return Some(&entries[i].1);
                    }
                    assert(rest.subrange(1, rest.len() as int) =~= pv.subrange(
                        i + 1,
                        pv.len() as int,
                    ));
                    i = i + 1;
                }
                None
            },
            _ => None,
        }
    }

    /// The module name of this term, if it is an Elixir struct: a map whose
    /// `__struct__` key holds an atom.
    pub fn elixir_struct_module(&self) -> (r: Option<&String>)
        ensures
            match struct_module(self@) {
                Some(n) => r matches Some(s) && s@ == n,
                None => r is None,
            },
    {
        match self.map_get("__struct__") {
            Some(t) => t.atom_name(),
            None => None,
        }
    }

    /// Whether this term is an Elixir struct of module `module`.
    pub fn is_struct_of(&self, module: &str) -> (r: bool)
        ensures
            r == (struct_module(self@) == Some(module@)),
    {
        match self.elixir_struct_module() {
            Some(m) => crate::text::str_equal(m.as_str(), module),
            None => false,
        }
    }

    /// The text of this term, if it is a charlist of bytes, a string or a
    /// binary; charlists and binaries are decoded as lossy UTF-8.
    pub fn as_erlang_string(&self) -> (r: Option<String>)
        ensures
            match erlang_string(self@) {
                Some(t) => r matches Some(s) && s@ == t,
                None => r is None,
            },
    {
        match self {
            Term::List(es) => {
                proof {
                    lemma_values_index(es@);
                    assert(self@ == TermV::List(Term::values(es@)));
                }
                let mut bytes: Vec<u8> = Vec::new();
                let mut i: usize = 0;
                while i < es.len()
                    invariant
                        i <= es@.len(),
                        self@ == TermV::List(Term::values(es@)),
                        Term::values(es@).len() == es@.len(),
                        forall|k: int|
                            0 <= k < es@.len() ==> #[trigger] Term::values(es@)[k] == es@[k]@,
                        bytes@.len() == i,
                        forall|k: int|
                            0 <= k < i ==> is_byte_integer(#[trigger] es@[k]@) && bytes@[k]
                                == byte_of(es@[k]@),
                    decreases es@.len() - i,
                {
                    match &es[i] {
                        Term::Integer(n) => {
                            if *n >= 0 && *n <= 255 {
                                bytes.push(*n as u8);
                            } else {
                                assert(!is_byte_integer(Term::values(es@)[i as int]));
                                return None;
                            }
                        },
                        _ => {
                            assert(!is_byte_integer(Term::values(es@)[i as int]));
                            return None;
                        },
                    }
                    i = i + 1;
                }
                let ghost vs = Term::values(es@);
                assert(bytes@ =~= Seq::new(vs.len(), |k: int| byte_of(vs[k])));
                Some(lossy_string(bytes.as_slice()))
            },
            Term::Str(s) => Some(s.clone()),
            Term::Binary(b) => Some(lossy_string(b.as_slice())),
            _ => None,
        }
    }
}

impl Term {
    /// A copy of this term.
    pub fn duplicate(&self) -> (r: Term)
        ensures
            r@ == self@,
        decreases self, 0int,
    {
        match self {
            Term::Atom(a) => Term::Atom(a.clone()),
            Term::Integer(i) => Term::Integer(*i),
            Term::Float(f) => Term::Float(*f),
            Term::Pid(p) => Term::Pid(p.duplicate()),
            Term::Port(p) => Term::Port(p.duplicate()),
            Term::Reference(r) => Term::Reference(r.duplicate()),
            Term::Binary(b) => Term::Binary(copy_bytes(b)),
            Term::BitBinary { bytes, bits } => Term::BitBinary { bytes: copy_bytes(bytes), bits: *bits },
            Term::Str(s) => Term::Str(s.clone()),
            Term::List(v) => Term::List(Term::duplicate_all(v)),
            Term::ImproperList { elements, tail } => {
                let t: &Term = tail;
                Term::ImproperList {
                    elements: Term::duplicate_all(elements),
                    tail: Box::new(t.duplicate()),
                }
            },
            Term::ErlMap(v) => Term::ErlMap(Term::duplicate_pairs(v)),
            Term::Tuple(v) => Term::Tuple(Term::duplicate_all(v)),
            Term::BigInt { negative, digits } => Term::BigInt {
                negative: *negative,
                digits: copy_bytes(digits),
            },
            Term::ExternalFun { module, function, arity } => Term::ExternalFun {
                module: module.clone(),
                function: function.clone(),
                arity: *arity,
            },
            Term::InternalFun(f) => {
                let g: &InternalFun = f;
                Term::InternalFun(
                    Box::new(
                        InternalFun {
                            arity: g.arity,
                            uniq: g.uniq,
                            index: g.index,
                            num_free: g.num_free,
                            module: g.module.clone(),
                            old_index: g.old_index,
                            old_uniq: g.old_uniq,
                            pid: g.pid.duplicate(),
                            free_vars: Term::duplicate_all(&g.free_vars),
                        },
                    ),
                )
            },
            Term::Nil => Term::Nil,
        }
    }

    /// Copies of the given terms, in order.
    pub fn duplicate_all(v: &Vec<Term>) -> (r: Vec<Term>)
        ensures
            r@.len() == v@.len(),
            forall|i: int| 0 <= i < v@.len() ==> #[trigger] r@[i]@ == v@[i]@,
            Term::values(r@) == Term::values(v@),
        decreases v, 1int,
    {
        let mut out: Vec<Term> = Vec::new();
        let mut i: usize = 0;
        while i < v.len()
            invariant
                i <= v@.len(),
                out@.len() == i,
                forall|k: int| 0 <= k < i ==> #[trigger] out@[k]@ == v@[k]@,
            decreases v@.len() - i,
        {
            let t = v[i].duplicate();
            out.push(t);
            i = i + 1;
        }
        proof {
            lemma_values_ext(out@, v@);
        }
        out
    }

    /// Copies of the given key-value pairs, in order.
    pub fn duplicate_pairs(v: &Vec<(Term, Term)>) -> (r: Vec<(Term, Term)>)
        ensures
            Term::pair_values(r@) == Term::pair_values(v@),
        decreases v, 1int,
    {
        let mut out: Vec<(Term, Term)> = Vec::new();
        let mut i: usize = 0;
        while i < v.len()
            invariant
                i <= v@.len(),
                out@.len() == i,
                forall|k: int|
                    0 <= k < i ==> #[trigger] out@[k].0@ == v@[k].0@ && out@[k].1@ == v@[k].1@,
            decreases v@.len() - i,
        {
            let k = v[i].0.duplicate();
            let w = v[i].1.duplicate();
            out.push((k, w));
            i = i + 1;
        }
        proof {
            lemma_pair_values_index(out@);
            lemma_pair_values_index(v@);
            assert(Term::pair_values(out@) =~= Term::pair_values(v@));
        }
        out
    }
}

impl Term {
    /// Copies of the terms of `v` from position `start` on.
    pub fn duplicate_from(v: &Vec<Term>, start: usize) -> (r: Vec<Term>)
        requires
            start <= v@.len(),
        ensures
            Term::values(r@) == Term::values(v@).subrange(start as int, v@.len() as int),
    {
        let mut out: Vec<Term> = Vec::new();
        let mut i: usize = start;
        while i < v.len()
            invariant
                start <= i <= v@.len(),
                out@.len() == i - start,
                forall|k: int| 0 <= k < i - start ==> #[trigger] out@[k]@ == v@[k + start]@,
            decreases v@.len() - i,
        {
            let t = v[i].duplicate();
            out.push(t);
            i = i + 1;
        }
        proof {
            lemma_values_index(out@);
            lemma_values_index(v@);
            assert(Term::values(out@) =~= Term::values(v@).subrange(start as int, v@.len() as int));
        }
        out
    }
}

/// The integer at the atom key `key` of a map term.
pub open spec fn integer_field_of(t: TermV, key: Seq<char>) -> Option<i64> {
    match map_value(t, key) {
        Some(v) => integer_of(v),
        None => None,
    }
}

/// The entry `key => value` of a map, with an atom key.
pub fn atom_entry(key: &str, value: Term) -> (r: (Term, Term))
    ensures
        r.0@ == TermV::Atom(key@),
        r.1@ == value@,
{
    (Term::atom(key), value)
}

/// A map term of the given entries, in order.
pub fn erl_map(entries: Vec<(Term, Term)>) -> (r: Term)
    ensures
        r@ == TermV::ErlMap(Term::pair_values(entries@)),
{
    Term::ErlMap(entries)
}

impl Term {
    /// The integer at the atom key `key`, if this is a map holding one there.
    pub fn integer_field(&self, key: &str) -> (r: Option<i64>)
        ensures
            r == integer_field_of(self@, key@),
    {
        match self.map_get(key) {
            Some(v) => v.as_integer(),
            None => None,
        }
    }
}

/// The text at the atom key `key` of a map term.
pub open spec fn string_field_of(t: TermV, key: Seq<char>) -> Option<Seq<char>> {
    match map_value(t, key) {
        Some(v) => erlang_string(v),
        None => None,
    }
}

/// A sequence of pairs with one more pair at the end has the values of the
/// pairs and of the new one.
pub proof fn lemma_pair_values_push(s: Seq<(Term, Term)>, p: (Term, Term))
    ensures
        Term::pair_values(s.push(p)) == Term::pair_values(s).push((p.0@, p.1@)),
{
    lemma_pair_values_index(s);
    lemma_pair_values_index(s.push(p));
    assert(Term::pair_values(s.push(p)) =~= Term::pair_values(s).push((p.0@, p.1@)));
}

/// The lookup of a key finds the value of its first entry.
pub proof fn lemma_lookup_first(entries: Seq<(TermV, TermV)>, key: Seq<char>, i: int)
    requires
        0 <= i < entries.len(),
        entries[i].0 == TermV::Atom(key),
        forall|j: int| 0 <= j < i ==> entries[j].0 != TermV::Atom(key),
    ensures
        lookup_atom_key(entries, key) == Some(entries[i].1),
    decreases i,
{
    if i > 0 {
        let rest = entries.subrange(1, entries.len() as int);
        assert forall|j: int| 0 <= j < i - 1 implies rest[j].0 != TermV::Atom(key) by {
            assert(rest[j] == entries[j + 1]);
        }
        lemma_lookup_first(rest, key, i - 1);
    }
}

/// The lookup of a key that no entry has finds nothing.
pub proof fn lemma_lookup_absent(entries: Seq<(TermV, TermV)>, key: Seq<char>)
    requires
        forall|j: int| 0 <= j < entries.len() ==> entries[j].0 != TermV::Atom(key),
    ensures
        lookup_atom_key(entries, key) is None,
    decreases entries.len(),
{
    if entries.len() > 0 {
        let rest = entries.subrange(1, entries.len() as int);
        assert forall|j: int| 0 <= j < rest.len() implies rest[j].0 != TermV::Atom(key) by {
            assert(rest[j] == entries[j + 1]);
        }
        lemma_lookup_absent(rest, key);
    }
}

} // verus!
