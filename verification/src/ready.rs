//! Terms made ready for the `erltf` codec: a library term in which each float
//! is held as its NEW_FLOAT_EXT encoding, the form in which `erltf` reads it.
use vstd::prelude::*;
use crate::term::{InternalFunV, Pid, Port, Reference, Term, TermV};
use crate::wire;

verus! {

/// A term made ready for `erltf`. A float is held as its encoding: the
/// version byte 131, the tag 70, then the IEEE 754 bits big-endian.
pub enum Ready {
    Atom(String),
    Integer(i64),
    Float(Vec<u8>),
    Pid(Pid),
    Port(Port),
    Reference(Reference),
    Binary(Vec<u8>),
    BitBinary { bytes: Vec<u8>, bits: u8 },
    Str(String),
    List(Vec<Ready>),
    ImproperList { elements: Vec<Ready>, tail: Box<Ready> },
    ErlMap(Vec<(Ready, Ready)>),
    Tuple(Vec<Ready>),
    BigInt { negative: bool, digits: Vec<u8> },
    ExternalFun { module: String, function: String, arity: u8 },
    InternalFun(Box<ReadyFun>),
    Nil,
}

/// A local fun made ready for `erltf`.
pub struct ReadyFun {
    pub arity: u8,
    pub uniq: [u8; 16],
    pub index: u32,
    pub num_free: u32,
    pub module: String,
    pub old_index: u32,
    pub old_uniq: u32,
    pub pid: Pid,
    pub free_vars: Vec<Ready>,
}

/// The NEW_FLOAT_EXT encoding of a float with the given IEEE 754 bits.
pub open spec fn float_encoding(bits: u64) -> Seq<u8> {
    seq![131u8, 70u8] + wire::be64(bits)
}

impl Ready {
    /// The term a ready term stands for: a float's bits are read back from
    /// its encoding.
    pub open spec fn value(&self) -> TermV
        decreases self, 0int,
    {
        match self {
            Ready::Atom(a) => TermV::Atom(a@),
            Ready::Integer(i) => TermV::Integer(*i),
            Ready::Float(ext) => TermV::Float(wire::read64(ext@, 2)),
            Ready::Pid(p) => TermV::Pid(p@),
            Ready::Port(p) => TermV::Port(p@),
            Ready::Reference(r) => TermV::Reference(r@),
            Ready::Binary(b) => TermV::Binary(b@),
            Ready::BitBinary { bytes, bits } => TermV::BitBinary(bytes@, *bits),
            Ready::Str(s) => TermV::Str(s@),
            Ready::List(v) => TermV::List(Ready::values(v@)),
            Ready::ImproperList { elements, tail } => TermV::ImproperList(
                Ready::values(elements@),
                Box::new(tail.value()),
            ),
            Ready::ErlMap(v) => TermV::ErlMap(Ready::pair_values(v@)),
            Ready::Tuple(v) => TermV::Tuple(Ready::values(v@)),
            Ready::BigInt { negative, digits } => TermV::BigInt(*negative, digits@),
            Ready::ExternalFun { module, function, arity } => TermV::ExternalFun(
                module@,
                function@,
                *arity,
            ),
            Ready::InternalFun(f) => TermV::InternalFun(
                Box::new(
                    InternalFunV {
                        arity: f.arity,
                        uniq: f.uniq@,
                        index: f.index,
                        num_free: f.num_free,
                        module: f.module@,
                        old_index: f.old_index,
                        old_uniq: f.old_uniq,
                        pid: f.pid@,
                        free_vars: Ready::values(f.free_vars@),
                    },
                ),
            ),
            Ready::Nil => TermV::Nil,
        }
    }

    /// The terms a sequence of ready terms stands for.
    pub open spec fn values(s: Seq<Ready>) -> Seq<TermV>
        decreases s, 1int,
    {
        if s.len() == 0 {
            Seq::empty()
        } else {
            seq![s[0].value()] + Ready::values(s.subrange(1, s.len() as int))
        }
    }

    /// The pairs of terms a sequence of ready pairs stands for.
    pub open spec fn pair_values(s: Seq<(Ready, Ready)>) -> Seq<(TermV, TermV)>
        decreases s, 1int,
    {
        if s.len() == 0 {
            Seq::empty()
        } else {
            seq![(s[0].0.value(), s[0].1.value())] + Ready::pair_values(
                s.subrange(1, s.len() as int),
            )
        }
    }

    /// Whether every float in the term is held as a float encoding.
    pub open spec fn ok(&self) -> bool
        decreases self, 0int,
    {
        match self {
            Ready::Float(ext) => ext@ == float_encoding(wire::read64(ext@, 2)),
            Ready::List(v) => Ready::all_ok(v@),
            Ready::ImproperList { elements, tail } => Ready::all_ok(elements@) && tail.ok(),
            Ready::ErlMap(v) => Ready::pairs_ok(v@),
            Ready::Tuple(v) => Ready::all_ok(v@),
            Ready::InternalFun(f) => Ready::all_ok(f.free_vars@),
            _ => true,
        }
    }

    /// Whether every term of a sequence is ready.
    pub open spec fn all_ok(s: Seq<Ready>) -> bool
        decreases s, 1int,
    {
        s.len() == 0 || (s[0].ok() && Ready::all_ok(s.subrange(1, s.len() as int)))
    }

    /// Whether every key and value of a sequence of pairs is ready.
    pub open spec fn pairs_ok(s: Seq<(Ready, Ready)>) -> bool
        decreases s, 1int,
    {
        s.len() == 0 || (s[0].0.ok() && s[0].1.ok() && Ready::pairs_ok(
            s.subrange(1, s.len() as int),
        ))
    }
}

proof fn lemma_ready_values_index(s: Seq<Ready>)
    ensures
        Ready::values(s).len() == s.len(),
        forall|i: int| 0 <= i < s.len() ==> #[trigger] Ready::values(s)[i] == s[i].value(),
        Ready::all_ok(s) <==> forall|i: int| 0 <= i < s.len() ==> #[trigger] s[i].ok(),
    decreases s.len(),
{
    if s.len() > 0 {
        let t = s.subrange(1, s.len() as int);
        lemma_ready_values_index(t);
        assert forall|i: int| 0 <= i < s.len() implies #[trigger] Ready::values(s)[i]
            == s[i].value() by {
            if i > 0 {
                assert(t[i - 1] == s[i]);
            }
        }
        if forall|i: int| 0 <= i < s.len() ==> #[trigger] s[i].ok() {
            assert forall|i: int| 0 <= i < t.len() implies #[trigger] t[i].ok() by {
                assert(t[i] == s[i + 1]);
                assert(s[i + 1].ok());
            }
            assert(s[0].ok());
            assert(Ready::all_ok(t));
            assert(Ready::all_ok(s));
        }
        if Ready::all_ok(s) {
            assert(s[0].ok() && Ready::all_ok(t));
            assert forall|i: int| 0 <= i < s.len() implies #[trigger] s[i].ok() by {
                if i > 0 {
                    assert(t[i - 1] == s[i]);
                    assert(t[i - 1].ok());
                }
            }
        }
    }
}

proof fn lemma_ready_pairs_index(s: Seq<(Ready, Ready)>)
    ensures
        Ready::pair_values(s).len() == s.len(),
        forall|i: int|
            0 <= i < s.len() ==> #[trigger] Ready::pair_values(s)[i] == (s[i].0.value(), s[i].1.value()),
        Ready::pairs_ok(s) <==> forall|i: int| #![trigger s[i]] 0 <= i < s.len() ==> s[i].0.ok() && s[i].1.ok(),
    decreases s.len(),
{
    if s.len() > 0 {
        let t = s.subrange(1, s.len() as int);
        lemma_ready_pairs_index(t);
        assert forall|i: int| 0 <= i < s.len() implies #[trigger] Ready::pair_values(s)[i] == (
            s[i].0.value(),
            s[i].1.value(),
        ) by {
            if i > 0 {
                assert(t[i - 1] == s[i]);
            }
        }
        if forall|i: int| #![trigger s[i]] 0 <= i < s.len() ==> s[i].0.ok() && s[i].1.ok() {
            assert forall|i: int| #![trigger t[i]] 0 <= i < t.len() implies t[i].0.ok() && t[i].1.ok() by {
                assert(t[i] == s[i + 1]);
                assert(s[i + 1].0.ok() && s[i + 1].1.ok());
            }
            assert(s[0].0.ok() && s[0].1.ok());
            assert(Ready::pairs_ok(t));
            assert(Ready::pairs_ok(s));
        }
        if Ready::pairs_ok(s) {
            assert(s[0].0.ok() && s[0].1.ok() && Ready::pairs_ok(t));
            assert forall|i: int| #![trigger s[i]] 0 <= i < s.len() implies s[i].0.ok() && s[i].1.ok() by {
                if i > 0 {
                    assert(t[i - 1] == s[i]);
                    assert(t[i - 1].0.ok() && t[i - 1].1.ok());
                }
            }
        }
    }
}

/// The NEW_FLOAT_EXT encoding of a float with the given IEEE 754 bits.
fn float_ext(bits: u64) -> (r: Vec<u8>)
    ensures
        r@ == float_encoding(bits),
        wire::read64(r@, 2) == bits,
{
    let mut ext: Vec<u8> = Vec::new();
    ext.push(131u8);
    ext.push(70u8);
    wire::put_u64(&mut ext, bits);
    assert(ext@ =~= float_encoding(bits));
    proof {
        assert(ext@.subrange(2, 10) =~= wire::be64(bits));
        wire::lemma_read64_be64(bits, ext@, 2);
    }
    ext
}

/// A copy of a byte vector.
fn copy_bytes(v: &Vec<u8>) -> (r: Vec<u8>)
    ensures
        r@ == v@,
{
    wire::copy_range(v.as_slice(), 0, v.len())
}

/// The ready form of a term: the same term, with each float held as its
/// encoding.
pub fn prepare(t: &Term) -> (r: Ready)
    ensures
        r.value() == t@,
        r.ok(),
    decreases t, 0int,
{
    match t {
        Term::Atom(a) => Ready::Atom(a.clone()),
        Term::Integer(i) => Ready::Integer(*i),
        Term::Float(bits) => Ready::Float(float_ext(*bits)),
        Term::Pid(p) => Ready::Pid(p.duplicate()),
        Term::Port(p) => Ready::Port(p.duplicate()),
        Term::Reference(r) => Ready::Reference(r.duplicate()),
        Term::Binary(b) => Ready::Binary(copy_bytes(b)),
        Term::BitBinary { bytes, bits } => Ready::BitBinary { bytes: copy_bytes(bytes), bits: *bits },
        Term::Str(s) => Ready::Str(s.clone()),
        Term::List(v) => Ready::List(prepare_all(v)),
        Term::ImproperList { elements, tail } => {
            let t: &Term = tail;
            Ready::ImproperList { elements: prepare_all(elements), tail: Box::new(prepare(t)) }
        },
        Term::ErlMap(v) => Ready::ErlMap(prepare_pairs(v)),
        Term::Tuple(v) => Ready::Tuple(prepare_all(v)),
        Term::BigInt { negative, digits } => Ready::BigInt {
            negative: *negative,
            digits: copy_bytes(digits),
        },
        Term::ExternalFun { module, function, arity } => Ready::ExternalFun {
            module: module.clone(),
            function: function.clone(),
            arity: *arity,
        },
        Term::InternalFun(f) => {
            let g: &crate::term::InternalFun = f;
            Ready::InternalFun(
                Box::new(
                    ReadyFun {
                        arity: g.arity,
                        uniq: g.uniq,
                        index: g.index,
                        num_free: g.num_free,
                        module: g.module.clone(),
                        old_index: g.old_index,
                        old_uniq: g.old_uniq,
                        pid: g.pid.duplicate(),
                        free_vars: prepare_all(&g.free_vars),
                    },
                ),
            )
        },
        Term::Nil => Ready::Nil,
    }
}

/// The ready forms of the given terms, in order.
pub fn prepare_all(v: &Vec<Term>) -> (r: Vec<Ready>)
    ensures
        Ready::values(r@) == Term::values(v@),
        Ready::all_ok(r@),
    decreases v, 1int,
{
    let mut out: Vec<Ready> = Vec::new();
    let mut i: usize = 0;
    while i < v.len()
        invariant
            i <= v@.len(),
            out@.len() == i,
            forall|k: int| 0 <= k < i ==> #[trigger] out@[k].value() == v@[k]@ && out@[k].ok(),
        decreases v@.len() - i,
    {
        let t = prepare(&v[i]);
        out.push(t);
        i = i + 1;
    }
    proof {
        lemma_ready_values_index(out@);
        crate::term::lemma_values_index(v@);
        assert(Ready::values(out@) =~= Term::values(v@));
        assert forall|k: int| 0 <= k < out@.len() implies #[trigger] out@[k].ok() by {
            assert(out@[k].value() == v@[k]@ && out@[k].ok());
        }
    }
    out
}

/// The ready forms of the given key-value pairs, in order.
pub fn prepare_pairs(v: &Vec<(Term, Term)>) -> (r: Vec<(Ready, Ready)>)
    ensures
        Ready::pair_values(r@) == Term::pair_values(v@),
        Ready::pairs_ok(r@),
    decreases v, 1int,
{
    let mut out: Vec<(Ready, Ready)> = Vec::new();
    let mut i: usize = 0;
    while i < v.len()
        invariant
            i <= v@.len(),
            out@.len() == i,
            forall|k: int|
                0 <= k < i ==> #[trigger] out@[k].0.value() == v@[k].0@ && out@[k].1.value()
                    == v@[k].1@ && out@[k].0.ok() && out@[k].1.ok(),
        decreases v@.len() - i,
    {
        let k = prepare(&v[i].0);
        let w = prepare(&v[i].1);
        out.push((k, w));
        i = i + 1;
    }
    proof {
        lemma_ready_pairs_index(out@);
        crate::term::lemma_pair_values_index(v@);
        assert(Ready::pair_values(out@) =~= Term::pair_values(v@));
        assert forall|k: int| 0 <= k < out@.len() implies #[trigger] out@[k].0.ok() && out@[k].1.ok() by {
            assert(out@[k].0.value() == v@[k].0@ && out@[k].1.value() == v@[k].1@ && out@[k].0.ok()
                && out@[k].1.ok());
        }
    }
    out
}

} // verus!
