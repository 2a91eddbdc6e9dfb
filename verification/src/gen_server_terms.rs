//! The tuples of the GenServer protocol: calls, casts, callback replies and
//! init results, and their recognition.
use vstd::prelude::*;
use crate::term::{self, Pid, Term, TermV};

verus! {

fn tuple2(a: Term, b: Term) -> (r: Term)
    ensures
        r@ == TermV::Tuple(seq![a@, b@]),
{
    let es: Vec<Term> = vec![a, b];
    proof {
        term::lemma_values_index(es@);
        assert(Term::values(es@) =~= seq![a@, b@]);
    }
    Term::Tuple(es)
}

fn tuple3(a: Term, b: Term, c: Term) -> (r: Term)
    ensures
        r@ == TermV::Tuple(seq![a@, b@, c@]),
{
    let es: Vec<Term> = vec![a, b, c];
    proof {
        term::lemma_values_index(es@);
        assert(Term::values(es@) =~= seq![a@, b@, c@]);
    }
    Term::Tuple(es)
}

fn tuple4(a: Term, b: Term, c: Term, d: Term) -> (r: Term)
    ensures
        r@ == TermV::Tuple(seq![a@, b@, c@, d@]),
{
    let es: Vec<Term> = vec![a, b, c, d];
    proof {
        term::lemma_values_index(es@);
        assert(Term::values(es@) =~= seq![a@, b@, c@, d@]);
    }
    Term::Tuple(es)
}

pub open spec fn atom(name: Seq<char>) -> TermV {
    TermV::Atom(name)
}

/// `{:'$gen_call', {pid, ref}, request}`.
pub open spec fn gen_call_value(from_pid: TermV, from_ref: TermV, request: TermV) -> TermV {
    TermV::Tuple(seq![atom("$gen_call"@), TermV::Tuple(seq![from_pid, from_ref]), request])
}

/// `{:'$gen_cast', request}`.
pub open spec fn gen_cast_value(request: TermV) -> TermV {
    TermV::Tuple(seq![atom("$gen_cast"@), request])
}

/// `{:continue, arg}`.
pub open spec fn continue_value(arg: TermV) -> TermV {
    TermV::Tuple(seq![atom("continue"@), arg])
}

/// Whether a term is a tuple of `n` elements whose first is the atom `tag`.
pub open spec fn is_tagged(t: TermV, tag: Seq<char>, n: int) -> bool {
    match t {
        TermV::Tuple(es) => es.len() == n && es[0] == atom(tag),
        _ => false,
    }
}

/// Whether a term is a non-empty tuple whose first element is the atom `tag`.
pub open spec fn starts_with_tag(t: TermV, tag: Seq<char>) -> bool {
    match t {
        TermV::Tuple(es) => es.len() > 0 && es[0] == atom(tag),
        _ => false,
    }
}

/// The from-tuple and request of a `$gen_call` message.
pub open spec fn gen_call_parts(t: TermV) -> Option<(TermV, TermV)> {
    if is_tagged(t, "$gen_call"@, 3) {
        Some((t->Tuple_0[1], t->Tuple_0[2]))
    } else {
        None
    }
}

/// The second element of a pair tagged `tag`.
pub open spec fn tagged_pair_arg(t: TermV, tag: Seq<char>) -> Option<TermV> {
    if is_tagged(t, tag, 2) {
        Some(t->Tuple_0[1])
    } else {
        None
    }
}

/// Whether a term is a non-empty tuple whose last element is a
/// `{:continue, arg}` pair.
pub open spec fn ends_with_continue(t: TermV) -> bool {
    match t {
        TermV::Tuple(es) => es.len() > 0 && is_tagged(es[es.len() - 1], "continue"@, 2),
        _ => false,
    }
}

/// Builds and recognises GenServer message tuples.
pub struct GenServerTerms;

impl GenServerTerms {
    /// `{:'$gen_call', {from_pid, from_ref}, request}`.
    pub fn gen_call(from_pid: Term, from_ref: Term, request: Term) -> (r: Term)
        ensures
            r@ == gen_call_value(from_pid@, from_ref@, request@),
    {
        tuple3(Term::atom("$gen_call"), tuple2(from_pid, from_ref), request)
    }

    /// `{:'$gen_cast', request}`.
    pub fn gen_cast(request: Term) -> (r: Term)
        ensures
            r@ == gen_cast_value(request@),
    {
        tuple2(Term::atom("$gen_cast"), request)
    }

    /// `{:reply, reply, new_state}`.
    pub fn reply(reply: Term, new_state: Term) -> (r: Term)
        ensures
            r@ == TermV::Tuple(seq![atom("reply"@), reply@, new_state@]),
    {
        tuple3(Term::atom("reply"), reply, new_state)
    }

    /// `{:reply, reply, new_state, timeout}`.
    pub fn reply_with_timeout(reply: Term, new_state: Term, timeout: i64) -> (r: Term)
        ensures
            r@ == TermV::Tuple(
                seq![atom("reply"@), reply@, new_state@, TermV::Integer(timeout)],
            ),
    {
        tuple4(Term::atom("reply"), reply, new_state, Term::Integer(timeout))
    }

    /// `{:reply, reply, new_state, :hibernate}`.
    pub fn reply_hibernate(reply: Term, new_state: Term) -> (r: Term)
        ensures
            r@ == TermV::Tuple(seq![atom("reply"@), reply@, new_state@, atom("hibernate"@)]),
    {
        tuple4(Term::atom("reply"), reply, new_state, Term::atom("hibernate"))
    }

    /// `{:noreply, new_state}`.
    pub fn noreply(new_state: Term) -> (r: Term)
        ensures
            r@ == TermV::Tuple(seq![atom("noreply"@), new_state@]),
    {
        tuple2(Term::atom("noreply"), new_state)
    }

    /// `{:noreply, new_state, timeout}`.
    pub fn noreply_with_timeout(new_state: Term, timeout: i64) -> (r: Term)
        ensures
            r@ == TermV::Tuple(seq![atom("noreply"@), new_state@, TermV::Integer(timeout)]),
    {
        tuple3(Term::atom("noreply"), new_state, Term::Integer(timeout))
    }

    /// `{:noreply, new_state, :hibernate}`.
    pub fn noreply_hibernate(new_state: Term) -> (r: Term)
        ensures
            r@ == TermV::Tuple(seq![atom("noreply"@), new_state@, atom("hibernate"@)]),
    {
        tuple3(Term::atom("noreply"), new_state, Term::atom("hibernate"))
    }

    /// `{:noreply, new_state, {:continue, arg}}`.
    pub fn noreply_continue(new_state: Term, continue_arg: Term) -> (r: Term)
        ensures
            r@ == TermV::Tuple(
                seq![atom("noreply"@), new_state@, continue_value(continue_arg@)],
            ),
    {
        tuple3(Term::atom("noreply"), new_state, Self::continue_tuple(continue_arg))
    }

    /// `{:reply, reply, new_state, {:continue, arg}}`.
    pub fn reply_continue(reply: Term, new_state: Term, continue_arg: Term) -> (r: Term)
        ensures
            r@ == TermV::Tuple(
                seq![atom("reply"@), reply@, new_state@, continue_value(continue_arg@)],
            ),
    {
        tuple4(Term::atom("reply"), reply, new_state, Self::continue_tuple(continue_arg))
    }

    /// `{:continue, arg}`.
    pub fn continue_tuple(arg: Term) -> (r: Term)
        ensures
            r@ == continue_value(arg@),
    {
        tuple2(Term::atom("continue"), arg)
    }

    /// `{:stop, reason, reply, new_state}`.
    pub fn stop_with_reply(reason: Term, reply: Term, new_state: Term) -> (r: Term)
        ensures
            r@ == TermV::Tuple(seq![atom("stop"@), reason@, reply@, new_state@]),
    {
        tuple4(Term::atom("stop"), reason, reply, new_state)
    }

    /// `{:stop, reason, new_state}`.
    pub fn stop(reason: Term, new_state: Term) -> (r: Term)
        ensures
            r@ == TermV::Tuple(seq![atom("stop"@), reason@, new_state@]),
    {
        tuple3(Term::atom("stop"), reason, new_state)
    }

    /// `{:stop, :normal, state}`.
    pub fn stop_normal(state: Term) -> (r: Term)
        ensures
            r@ == TermV::Tuple(seq![atom("stop"@), atom("normal"@), state@]),
    {
        Self::stop(Term::atom("normal"), state)
    }

    /// `{:stop, :shutdown, state}`.
    pub fn stop_shutdown(state: Term) -> (r: Term)
        ensures
            r@ == TermV::Tuple(seq![atom("stop"@), atom("shutdown"@), state@]),
    {
        Self::stop(Term::atom("shutdown"), state)
    }

    /// `{:ok, state}`.
    pub fn init_ok(state: Term) -> (r: Term)
        ensures
            r@ == TermV::Tuple(seq![atom("ok"@), state@]),
    {
        tuple2(Term::atom("ok"), state)
    }

    /// `{:ok, state, timeout}`.
    pub fn init_ok_with_timeout(state: Term, timeout: i64) -> (r: Term)
        ensures
            r@ == TermV::Tuple(seq![atom("ok"@), state@, TermV::Integer(timeout)]),
    {
        tuple3(Term::atom("ok"), state, Term::Integer(timeout))
    }

    /// `{:ok, state, :hibernate}`.
    pub fn init_ok_hibernate(state: Term) -> (r: Term)
        ensures
            r@ == TermV::Tuple(seq![atom("ok"@), state@, atom("hibernate"@)]),
    {
        tuple3(Term::atom("ok"), state, Term::atom("hibernate"))
    }

    /// `{:ok, state, {:continue, arg}}`.
    pub fn init_ok_continue(state: Term, continue_arg: Term) -> (r: Term)
        ensures
            r@ == TermV::Tuple(seq![atom("ok"@), state@, continue_value(continue_arg@)]),
    {
        tuple3(Term::atom("ok"), state, Self::continue_tuple(continue_arg))
    }

    /// `{:stop, reason}`.
    pub fn init_stop(reason: Term) -> (r: Term)
        ensures
            r@ == TermV::Tuple(seq![atom("stop"@), reason@]),
    {
        tuple2(Term::atom("stop"), reason)
    }

    /// `:ignore`.
    pub fn init_ignore() -> (r: Term)
        ensures
            r@ == atom("ignore"@),
    {
        Term::atom("ignore")
    }

    /// Whether a term is a `{:'$gen_call', from, request}` message.
    pub fn is_gen_call(term: &Term) -> (r: bool)
        ensures
            r == is_tagged(term@, "$gen_call"@, 3),
    {
        match term.as_3_tuple() {
            Some((first, _, _)) => first.is_atom_with_name("$gen_call"),
            None => false,
        }
    }

    /// Whether a term is a `{:'$gen_cast', request}` message.
    pub fn is_gen_cast(term: &Term) -> (r: bool)
        ensures
            r == is_tagged(term@, "$gen_cast"@, 2),
    {
        match term.as_2_tuple() {
            Some((first, _)) => first.is_atom_with_name("$gen_cast"),
            None => false,
        }
    }

    /// The from-tuple and request of a `$gen_call` message.
    pub fn parse_gen_call(term: &Term) -> (r: Option<(&Term, &Term)>)
        ensures
            match gen_call_parts(term@) {
                Some((f, q)) => r matches Some(p) && p.0@ == f && p.1@ == q,
                None => r is None,
            },
    {
        match term.as_3_tuple() {
            Some((first, from, request)) => if first.is_atom_with_name("$gen_call") {
                Some((from, request))
            } else {
                None
            },
            None => None,
        }
    }

    /// The request of a `$gen_cast` message.
    pub fn parse_gen_cast(term: &Term) -> (r: Option<&Term>)
        ensures
            term::opt_value(r) == tagged_pair_arg(term@, "$gen_cast"@),
    {
        match term.as_2_tuple() {
            Some((first, request)) => if first.is_atom_with_name("$gen_cast") {
                Some(request)
            } else {
                None
            },
            None => None,
        }
    }

    /// The pid and reference of a `{pid, ref}` from-tuple.
    pub fn parse_from(from: &Term) -> (r: Option<(&Pid, &Term)>)
        ensures
            match from@ {
                TermV::Tuple(es) => if es.len() == 2 && es[0] is Pid {
                    r matches Some(p) && p.0@ == es[0]->Pid_0 && p.1@ == es[1]
                } else {
                    r is None
                },
                _ => r is None,
            },
    {
        match from.as_2_tuple() {
            Some((pid_term, ref_term)) => match pid_term {
                Term::Pid(pid) => Some((pid, ref_term)),
                _ => None,
            },
            None => None,
        }
    }

    /// Whether a term is a `{:reply, ...}` response.
    pub fn is_reply(term: &Term) -> (r: bool)
        ensures
            r == starts_with_tag(term@, "reply"@),
    {
        Self::first_is(term, "reply")
    }

    /// Whether a term is a `{:noreply, ...}` response.
    pub fn is_noreply(term: &Term) -> (r: bool)
        ensures
            r == starts_with_tag(term@, "noreply"@),
    {
        Self::first_is(term, "noreply")
    }

    /// Whether a term is a `{:stop, ...}` response.
    pub fn is_stop(term: &Term) -> (r: bool)
        ensures
            r == starts_with_tag(term@, "stop"@),
    {
        Self::first_is(term, "stop")
    }

    fn first_is(term: &Term, tag: &str) -> (r: bool)
        ensures
            r == starts_with_tag(term@, tag@),
    {
        match term.as_tuple() {
            Some(es) => {
                proof {
                    term::lemma_values_index(es@);
                }
                es.len() > 0 && es[0].is_atom_with_name(tag)
            },
            None => false,
        }
    }

    /// Whether a term is a `{:continue, arg}` pair.
    pub fn is_continue(term: &Term) -> (r: bool)
        ensures
            r == is_tagged(term@, "continue"@, 2),
    {
        match term.as_2_tuple() {
            Some((first, _)) => first.is_atom_with_name("continue"),
            None => false,
        }
    }

    /// The argument of a `{:continue, arg}` pair.
    pub fn parse_continue(term: &Term) -> (r: Option<&Term>)
        ensures
            term::opt_value(r) == tagged_pair_arg(term@, "continue"@),
    {
        match term.as_2_tuple() {
            Some((first, arg)) => if first.is_atom_with_name("continue") {
                Some(arg)
            } else {
                None
            },
            None => None,
        }
    }

    /// Whether a response tuple ends with a `{:continue, arg}` pair.
    pub fn has_continue(term: &Term) -> (r: bool)
        ensures
            r == ends_with_continue(term@),
    {
        match term.as_tuple() {
            Some(es) => {
                proof {
                    term::lemma_values_index(es@);
                }
                if es.len() == 0 {
                    false
                } else {
                    Self::is_continue(&es[es.len() - 1])
                }
            },
            None => false,
        }
    }
}

/// A call message reads back as its from-tuple and request.
pub proof fn lemma_gen_call_roundtrip(from_pid: TermV, from_ref: TermV, request: TermV)
    ensures
        gen_call_parts(gen_call_value(from_pid, from_ref, request)) == Some(
            (TermV::Tuple(seq![from_pid, from_ref]), request),
        ),
        !is_tagged(gen_call_value(from_pid, from_ref, request), "$gen_cast"@, 2),
{
}

/// A cast message reads back as its request, and is no call.
pub proof fn lemma_gen_cast_roundtrip(request: TermV)
    ensures
        tagged_pair_arg(gen_cast_value(request), "$gen_cast"@) == Some(request),
        gen_call_parts(gen_cast_value(request)) is None,
{
}

/// A continue pair reads back as its argument, and the responses that end in
/// one are recognised as such.
pub proof fn lemma_continue_roundtrip(arg: TermV, state: TermV, reply: TermV)
    ensures
        tagged_pair_arg(continue_value(arg), "continue"@) == Some(arg),
        ends_with_continue(TermV::Tuple(seq![atom("noreply"@), state, continue_value(arg)])),
        ends_with_continue(TermV::Tuple(seq![atom("reply"@), reply, state, continue_value(arg)])),
        ends_with_continue(TermV::Tuple(seq![atom("ok"@), state, continue_value(arg)])),
{
}

} // verus!
