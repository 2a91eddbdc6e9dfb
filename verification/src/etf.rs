//! The external term format, through `erltf`: decoding bytes to terms and
//! encoding terms to bytes. What the codec produces is named here; the
//! library's contracts speak of those names.
use vstd::prelude::*;
use crate::term::{InternalFun, Pid, Port, Reference, Term, TermV};
use erltf::OwnedTerm;
use erltf::decoder::AtomCache;
use erltf::types::{ExternalPid, ExternalPort, ExternalReference};
use crate::ready::{prepare, Ready};

verus! {

#[verifier::external_type_specification]
#[verifier::external_body]
pub struct ExOwnedTerm(erltf::OwnedTerm);

#[verifier::external_type_specification]
#[verifier::external_body]
pub struct ExAtomCache(erltf::decoder::AtomCache);

#[verifier::external_type_specification]
#[verifier::external_body]
pub struct ExExternalPid(erltf::types::ExternalPid);

#[verifier::external_type_specification]
#[verifier::external_body]
pub struct ExExternalPort(erltf::types::ExternalPort);

#[verifier::external_type_specification]
#[verifier::external_body]
pub struct ExExternalReference(erltf::types::ExternalReference);

/// What `erltf::decoder::decode_with_trailing` reads from the start of
/// `bytes` (a version byte, then one term): the term and how many bytes it
/// took; `None` when the bytes do not start with a term.
pub uninterp spec fn etf_decoded(bytes: Seq<u8>) -> Option<(TermV, nat)>;

/// What `erltf::encode` writes for a term (the version byte, then the term);
/// `None` when the term cannot be encoded.
pub uninterp spec fn etf_encoded(t: TermV) -> Option<Seq<u8>>;

/// The atoms an `erltf` atom cache holds, by cache index.
pub uninterp spec fn atom_cache_contents(cache: AtomCache) -> Map<u8, Seq<char>>;

/// What `erltf::decoder::decode_with_atom_cache` makes of `bytes` (a version
/// byte, a distribution header with its atom cache refs, a control term and
/// optionally a message term, with nothing after them) given the atoms a cache
/// holds: the control term and the message term, or `None` when the bytes
/// cannot be read that way, and the atoms the cache holds afterwards.
pub uninterp spec fn etf_dist_decoded(bytes: Seq<u8>, cache: Map<u8, Seq<char>>) -> (
    Option<(TermV, Option<TermV>)>,
    Map<u8, Seq<char>>,
);

/// The value of an optional term.
pub open spec fn opt_term_value(o: Option<Term>) -> Option<TermV> {
    match o {
        Some(t) => Some(t@),
        None => None,
    }
}

/// The library term of an `erltf` pid.
#[verifier::external_body]
fn pid_of_owned(p: &ExternalPid) -> Pid {
    Pid {
        node: p.node.name.to_string(),
        id: p.id,
        serial: p.serial,
        creation: p.creation,
        local_ext_bytes: p.local_ext_bytes.as_ref().map(|b| b.to_vec()),
    }
}

/// The library term of an `erltf` port.
#[verifier::external_body]
fn port_of_owned(p: &ExternalPort) -> Port {
    Port {
        node: p.node.name.to_string(),
        id: p.id,
        creation: p.creation,
        local_ext_bytes: p.local_ext_bytes.as_ref().map(|b| b.to_vec()),
    }
}

/// The library term of an `erltf` reference.
#[verifier::external_body]
fn reference_of_owned(r: &ExternalReference) -> Reference {
    Reference {
        node: r.node.name.to_string(),
        creation: r.creation,
        ids: r.ids.clone(),
        local_ext_bytes: r.local_ext_bytes.as_ref().map(|b| b.to_vec()),
    }
}

/// The library terms of a list of `erltf` terms.
#[verifier::external_body]
fn terms_of_owned(ts: &[OwnedTerm]) -> Vec<Term> {
    ts.iter().map(term_of_owned).collect()
}

/// The library term of an `erltf` term: atoms, numbers and identifiers.
#[verifier::external_body]
fn term_of_owned(t: &OwnedTerm) -> Term {
    match t {
        OwnedTerm::Atom(a) => Term::Atom(a.name.to_string()),
        OwnedTerm::Integer(i) => Term::Integer(*i),
        OwnedTerm::Float(x) => Term::Float(x.to_bits()),
        OwnedTerm::Pid(p) => Term::Pid(pid_of_owned(p)),
        OwnedTerm::Port(p) => Term::Port(port_of_owned(p)),
        OwnedTerm::Reference(r) => Term::Reference(reference_of_owned(r)),
        _ => term_of_owned_data(t),
    }
}

/// The library term of an `erltf` term: binaries, strings and lists.
#[verifier::external_body]
fn term_of_owned_data(t: &OwnedTerm) -> Term {
    match t {
        OwnedTerm::Binary(b) => Term::Binary(b.clone()),
        OwnedTerm::BitBinary { bytes, bits } => Term::BitBinary { bytes: bytes.clone(), bits: *bits },
        OwnedTerm::String(s) => Term::Str(s.clone()),
        OwnedTerm::List(es) => Term::List(terms_of_owned(es)),
        OwnedTerm::ImproperList { elements, tail } => Term::ImproperList {
            elements: terms_of_owned(elements),
            tail: Box::new(term_of_owned(tail)),
        },
        _ => term_of_owned_compound(t),
    }
}

/// The library term of an `erltf` term: maps, tuples, big integers, funs, nil.
#[verifier::external_body]
fn term_of_owned_compound(t: &OwnedTerm) -> Term {
    match t {
        OwnedTerm::Map(m) => Term::ErlMap(
            m.iter().map(|(k, v)| (term_of_owned(k), term_of_owned(v))).collect(),
        ),
        OwnedTerm::Tuple(es) => Term::Tuple(terms_of_owned(es)),
        OwnedTerm::BigInt(b) => Term::BigInt {
            negative: matches!(b.sign, erltf::types::Sign::Negative),
            digits: b.digits.clone(),
        },
        _ => term_of_owned_fun(t),
    }
}

/// The library term of an `erltf` term: funs and nil.
#[verifier::external_body]
fn term_of_owned_fun(t: &OwnedTerm) -> Term {
    match t {
        OwnedTerm::ExternalFun(f) => Term::ExternalFun {
            module: f.module.name.to_string(),
            function: f.function.name.to_string(),
            arity: f.arity,
        },
        OwnedTerm::InternalFun(f) => Term::InternalFun(Box::new(InternalFun {
            arity: f.arity, uniq: f.uniq, index: f.index, num_free: f.num_free,
            module: f.module.name.to_string(), old_index: f.old_index, old_uniq: f.old_uniq,
            pid: pid_of_owned(&f.pid), free_vars: terms_of_owned(&f.free_vars),
        })),
        _ => Term::Nil,
    }
}

/// The `erltf` pid of a library pid.
#[verifier::external_body]
fn owned_pid(p: &Pid) -> ExternalPid {
    ExternalPid {
        node: erltf::Atom::new(&p.node),
        id: p.id,
        serial: p.serial,
        creation: p.creation,
        local_ext_bytes: p.local_ext_bytes.clone().map(bytes::Bytes::from),
    }
}

/// The `erltf` port of a library port.
#[verifier::external_body]
fn owned_port(p: &Port) -> ExternalPort {
    ExternalPort {
        node: erltf::Atom::new(&p.node),
        id: p.id,
        creation: p.creation,
        local_ext_bytes: p.local_ext_bytes.clone().map(bytes::Bytes::from),
    }
}

/// The `erltf` reference of a library reference.
#[verifier::external_body]
fn owned_reference(r: &Reference) -> ExternalReference {
    ExternalReference {
        node: erltf::Atom::new(&r.node),
        creation: r.creation,
        ids: r.ids.clone(),
        local_ext_bytes: r.local_ext_bytes.clone().map(bytes::Bytes::from),
    }
}

/// The `erltf` float that `erltf::decoder::decode` reads from a NEW_FLOAT_EXT
/// encoding (`Nil` if it could not be read).
#[verifier::external_body]
fn owned_float(ext: &[u8]) -> OwnedTerm {
    erltf::decoder::decode(ext).unwrap_or(OwnedTerm::Nil)
}

/// The `erltf` terms of a list of ready terms.
#[verifier::external_body]
fn owned_terms(ts: &[Ready]) -> Vec<OwnedTerm> {
    ts.iter().map(owned_term).collect()
}

/// The `erltf` term of a ready term: atoms, numbers and identifiers.
#[verifier::external_body]
fn owned_term(t: &Ready) -> OwnedTerm {
    match t {
        Ready::Atom(a) => OwnedTerm::Atom(erltf::Atom::new(a)),
        Ready::Integer(i) => OwnedTerm::Integer(*i),
        Ready::Float(ext) => owned_float(ext),
        Ready::Pid(p) => OwnedTerm::Pid(owned_pid(p)),
        Ready::Port(p) => OwnedTerm::Port(owned_port(p)),
        Ready::Reference(r) => OwnedTerm::Reference(owned_reference(r)),
        _ => owned_term_data(t),
    }
}

/// The `erltf` term of a ready term: binaries, strings and lists.
#[verifier::external_body]
fn owned_term_data(t: &Ready) -> OwnedTerm {
    match t {
        Ready::Binary(b) => OwnedTerm::Binary(b.clone()),
        Ready::BitBinary { bytes, bits } => OwnedTerm::BitBinary { bytes: bytes.clone(), bits: *bits },
        Ready::Str(s) => OwnedTerm::String(s.clone()),
        Ready::List(es) => OwnedTerm::List(owned_terms(es)),
        Ready::ImproperList { elements, tail } => OwnedTerm::ImproperList {
            elements: owned_terms(elements),
            tail: Box::new(owned_term(tail)),
        },
        _ => owned_term_compound(t),
    }
}

/// The `erltf` term of a ready term: maps, tuples, big integers.
#[verifier::external_body]
fn owned_term_compound(t: &Ready) -> OwnedTerm {
    match t {
        Ready::ErlMap(pairs) => OwnedTerm::Map(
            pairs.iter().map(|(k, v)| (owned_term(k), owned_term(v))).collect(),
        ),
        Ready::Tuple(es) => OwnedTerm::Tuple(owned_terms(es)),
        Ready::BigInt { negative, digits } => {
            OwnedTerm::BigInt(erltf::types::BigInt::new(*negative, digits.clone()))
        },
        _ => owned_term_fun(t),
    }
}

/// The `erltf` term of a ready term: funs and nil.
#[verifier::external_body]
fn owned_term_fun(t: &Ready) -> OwnedTerm {
    match t {
        Ready::ExternalFun { module, function, arity } => OwnedTerm::ExternalFun(
            erltf::types::ExternalFun::new(erltf::Atom::new(module), erltf::Atom::new(function), *arity),
        ),
        Ready::InternalFun(f) => OwnedTerm::InternalFun(Box::new(erltf::types::InternalFun::new(
            f.arity, f.uniq, f.index, f.num_free, erltf::Atom::new(&f.module),
            f.old_index, f.old_uniq, owned_pid(&f.pid), owned_terms(&f.free_vars),
        ))),
        _ => OwnedTerm::Nil,
    }
}

/// `erltf::decoder::decode_with_trailing`: reads the version byte and one term
/// from the start of `data` and hands back the rest, which is a suffix of
/// `data`. The result is named `etf_decoded`; which error it gives is not
/// stated.
#[verifier::external_body]
pub(crate) fn decode_term_prefix(data: &[u8]) -> (r: core::result::Result<
    (Term, usize),
    erltf::errors::DecodeError,
>)
    ensures
        r is Ok <==> etf_decoded(data@) is Some,
        r matches Ok((t, n)) ==> etf_decoded(data@) == Some((t@, n as nat)) && n <= data@.len(),
{
    match erltf::decoder::decode_with_trailing(data) {
        Ok((t, rest)) => Ok((term_of_owned(&t), data.len() - rest.len())),
        Err(e) => Err(e),
    }
}

/// `erltf::decoder::decode`: reads the version byte and one term, as
/// `decode_with_trailing` does, and fails when bytes are left after it.
#[verifier::external_body]
pub(crate) fn decode_term_whole(data: &[u8]) -> (r: core::result::Result<
    Term,
    erltf::errors::DecodeError,
>)
    ensures
        r is Ok <==> (etf_decoded(data@) matches Some((_, n)) && n == data@.len()),
        r matches Ok(t) ==> (etf_decoded(data@) matches Some((v, _)) && v == t@),
{
    match erltf::decoder::decode(data) {
        Ok(t) => Ok(term_of_owned(&t)),
        Err(e) => Err(e),
    }
}

/// `erltf::decoder::decode_with_atom_cache`: reads a message with a
/// distribution header, whose new atoms go into the cache and whose cache refs
/// are looked up in it, then the control term and the payload term if bytes
/// are left, refusing bytes after that. Its outcome and the atoms the cache
/// holds afterwards (also after a failure) depend on the bytes and the atoms
/// the cache held before; both are named `etf_dist_decoded`. Which error it
/// gives is not stated.
#[verifier::external_body]
pub(crate) fn decode_with_cache(data: &[u8], cache: &mut AtomCache) -> (r: core::result::Result<
    (Term, Option<Term>),
    erltf::errors::DecodeError,
>)
    ensures
        atom_cache_contents(*final(cache)) == etf_dist_decoded(
            data@,
            atom_cache_contents(*old(cache)),
        ).1,
        r is Ok <==> etf_dist_decoded(data@, atom_cache_contents(*old(cache))).0 is Some,
        r matches Ok((c, m)) ==> etf_dist_decoded(data@, atom_cache_contents(*old(cache))).0 == Some(
            (c@, opt_term_value(m)),
        ),
{
    match erltf::decoder::decode_with_atom_cache(data, cache) {
        Ok((c, m)) => Ok((term_of_owned(&c), m.as_ref().map(term_of_owned))),
        Err(e) => Err(e),
    }
}

/// `erltf::encode`: the version byte and the term a ready term stands for
/// (whose floats are read back from their encodings). The result is named
/// `etf_encoded`; as a `Vec<u8>`, it holds at most `isize::MAX` bytes.
#[verifier::external_body]
fn encode_ready(t: &Ready) -> (r: core::result::Result<Vec<u8>, erltf::errors::EncodeError>)
    requires
        t.ok(),
    ensures
        r is Ok <==> etf_encoded(t.value()) is Some,
        r matches Ok(b) ==> etf_encoded(t.value()) == Some(b@) && b@.len() <= isize::MAX,
{
    erltf::encode(&owned_term(t))
}

/// The external term format encoding of a term: the version byte and the
/// term, as `erltf::encode` writes it.
pub(crate) fn encode_term(t: &Term) -> (r: core::result::Result<
    Vec<u8>,
    erltf::errors::EncodeError,
>)
    ensures
        r is Ok <==> etf_encoded(t@) is Some,
        r matches Ok(b) ==> etf_encoded(t@) == Some(b@) && b@.len() <= isize::MAX,
{
    let ready = prepare(t);
    encode_ready(&ready)
}

/// Whether a term is an atom, or names one (a pid, port or reference names
/// its node, a fun its module).
pub open spec fn names_atom(t: TermV) -> bool {
    match t {
        TermV::Atom(_) | TermV::Pid(_) | TermV::Port(_) | TermV::Reference(_)
        | TermV::ExternalFun(..) | TermV::InternalFun(_) => true,
        _ => false,
    }
}

/// Whether a term names an atom itself or in one of its elements, when it is
/// a tuple.
pub open spec fn holds_atom(t: TermV) -> bool {
    names_atom(t) || (t matches TermV::Tuple(es) && exists|i: int|
        0 <= i < es.len() && #[trigger] names_atom(es[i]))
}

/// `erltf::encode_with_dist_header_multi` on one or two ready terms. The
/// bytes start with the version byte 131; when the terms the first stands for
/// holds an atom they go on with the distribution header tag 68 and the
/// number of atoms in the cache (at least one). The cache indices it gives
/// out follow the iteration order of a randomly seeded hash set, so the rest
/// is not stated. As a `Vec<u8>`, it holds at most `isize::MAX` bytes.
#[verifier::external_body]
fn encode_dist_ready(first: &Ready, second: Option<&Ready>) -> (r: core::result::Result<
    Vec<u8>,
    erltf::errors::EncodeError,
>)
    ensures
        r matches Ok(b) ==> b@.len() >= 1 && b@[0] == 131 && b@.len() <= isize::MAX,
        r matches Ok(b) ==> (holds_atom(first.value()) ==> b@.len() >= 3 && b@[1] == 68 && b@[2]
            >= 1),
{
    match second {
        Some(m) => erltf::encode_with_dist_header_multi(&[&owned_term(first), &owned_term(m)]),
        None => erltf::encode_with_dist_header_multi(&[&owned_term(first)]),
    }
}

/// The encoding of a control term, and a payload term if any, behind a
/// distribution header with an atom cache, as
/// `erltf::encode_with_dist_header_multi` writes it.
pub(crate) fn encode_dist(first: &Term, second: Option<&Term>) -> (r: core::result::Result<
    Vec<u8>,
    erltf::errors::EncodeError,
>)
    ensures
        r matches Ok(b) ==> b@.len() >= 1 && b@[0] == 131 && b@.len() <= isize::MAX,
        r matches Ok(b) ==> (holds_atom(first@) ==> b@.len() >= 3 && b@[1] == 68 && b@[2] >= 1),
{
    let f = prepare(first);
    match second {
        Some(m) => {
            let g = prepare(m);
            encode_dist_ready(&f, Some(&g))
        },
        None => encode_dist_ready(&f, None),
    }
}

} // verus!
