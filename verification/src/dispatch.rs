//! How GenServer and GenEvent processes read the messages in their mailbox:
//! calls, casts and event notifications are told apart from other messages,
//! and a call is answered with `{ref, reply}`.
use vstd::prelude::*;
use crate::term::{self, Pid, PidV, Reference, ReferenceV, Term, TermV};

verus! {

/// The pid and reference of a `{pid, ref}` from-tuple.
pub open spec fn from_parts(t: TermV) -> Option<(PidV, ReferenceV)> {
    match t {
        TermV::Tuple(es) => if es.len() == 2 && es[0] is Pid && es[1] is Reference {
            Some((es[0]->Pid_0, es[1]->Reference_0))
        } else {
            None
        },
        _ => None,
    }
}

/// The elements of a tuple of at least two elements whose first is an atom,
/// and that atom's name.
pub open spec fn tagged_elements(t: TermV) -> Option<(Seq<char>, Seq<TermV>)> {
    match t {
        TermV::Tuple(es) => if es.len() >= 2 && es[0] is Atom {
            Some((es[0]->Atom_0, es))
        } else {
            None
        },
        _ => None,
    }
}

fn split_from(t: &Term) -> (r: Option<(&Pid, &Reference)>)
    ensures
        match from_parts(t@) {
            Some((p, rf)) => r matches Some(x) && x.0@ == p && x.1@ == rf,
            None => r is None,
        },
{
    match t.as_2_tuple() {
        Some((a, b)) => match (a, b) {
            (Term::Pid(p), Term::Reference(rf)) => Some((p, rf)),
            _ => None,
        },
        None => None,
    }
}

/// What a GenServer does with a message.
pub enum GenServerRequest<'a> {
    /// `{:'$gen_call', {pid, ref}, request}`: answer the caller.
    Call { from_pid: &'a Pid, reference: &'a Reference, request: &'a Term },
    /// `{:'$gen_cast', request}`: handle without answering.
    Cast { request: &'a Term },
    /// Anything else.
    Info,
}

/// Tells a GenServer call or cast from any other message.
pub fn classify_gen_server_message(body: &Term) -> (r: GenServerRequest<'_>)
    ensures
        match r {
            GenServerRequest::Call { from_pid, reference, request } => tagged_elements(body@)
                matches Some((tag, es)) && tag == "$gen_call"@ && es.len() == 3 && from_parts(es[1])
                == Some((from_pid@, reference@)) && request@ == es[2],
            GenServerRequest::Cast { request } => tagged_elements(body@) matches Some((tag, es))
                && tag == "$gen_cast"@ && es.len() == 2 && request@ == es[1],
            GenServerRequest::Info => !(tagged_elements(body@) matches Some((tag, es)) && ((tag
                == "$gen_call"@ && es.len() == 3 && from_parts(es[1]) is Some) || (tag
                == "$gen_cast"@ && es.len() == 2))),
        },
{
    let es = match body.as_tuple() {
        Some(es) => es,
        None => {
            return GenServerRequest::Info;
        },
    };
    proof {
        term::lemma_values_index(es@);
    }
    if es.len() < 2 {
        return GenServerRequest::Info;
    }
    if es.len() == 3 && es[0].is_atom_with_name("$gen_call") {
        match split_from(&es[1]) {
            Some((from_pid, reference)) => {
                return GenServerRequest::Call { from_pid, reference, request: &es[2] };
            },
            None => {
                return GenServerRequest::Info;
            },
        }
    }
    if es.len() == 2 && es[0].is_atom_with_name("$gen_cast") {
        return GenServerRequest::Cast { request: &es[1] };
    }
    GenServerRequest::Info
}

/// What a GenEvent manager does with a message.
pub enum GenEventRequest<'a> {
    /// `{:'$gen_notify', event}`.
    Notify { event: &'a Term },
    /// `{:'$gen_sync_notify', event}`: notify, then answer `:ok`.
    SyncNotify { event: &'a Term },
    /// `{:'$gen_call', {pid, ref}, handler_id, request}`.
    Call {
        from_pid: &'a Pid,
        reference: &'a Reference,
        handler_id: &'a Term,
        request: &'a Term,
    },
    /// `{:'$gen_which_handlers', {pid, ref}}`.
    WhichHandlers { from_pid: &'a Pid, reference: &'a Reference },
    /// Anything else, handed to every handler.
    Info,
}

/// Whether a GenEvent manager reads a message as one of its requests.
pub open spec fn is_gen_event_request(t: TermV) -> bool {
    tagged_elements(t) matches Some((tag, es)) && ((tag == "$gen_notify"@ && es.len() == 2) || (tag
        == "$gen_sync_notify"@ && es.len() == 2) || (tag == "$gen_call"@ && es.len() == 4
        && from_parts(es[1]) is Some) || (tag == "$gen_which_handlers"@ && es.len() == 2
        && from_parts(es[1]) is Some))
}

/// Tells the GenEvent requests from any other message.
pub fn classify_gen_event_message(body: &Term) -> (r: GenEventRequest<'_>)
    ensures
        match r {
            GenEventRequest::Notify { event } => tagged_elements(body@) matches Some((tag, es))
                && tag == "$gen_notify"@ && es.len() == 2 && event@ == es[1],
            GenEventRequest::SyncNotify { event } => tagged_elements(body@) matches Some((tag, es))
                && tag == "$gen_sync_notify"@ && es.len() == 2 && event@ == es[1],
            GenEventRequest::Call { from_pid, reference, handler_id, request } => tagged_elements(
                body@,
            ) matches Some((tag, es)) && tag == "$gen_call"@ && es.len() == 4 && from_parts(es[1])
                == Some((from_pid@, reference@)) && handler_id@ == es[2] && request@ == es[3],
            GenEventRequest::WhichHandlers { from_pid, reference } => tagged_elements(body@) matches Some(
                (tag, es),
            ) && tag == "$gen_which_handlers"@ && es.len() == 2 && from_parts(es[1]) == Some(
                (from_pid@, reference@),
            ),
            GenEventRequest::Info => !is_gen_event_request(body@),
        },
{
    let es = match body.as_tuple() {
        Some(es) => es,
        None => {
            return GenEventRequest::Info;
        },
    };
    proof {
        term::lemma_values_index(es@);
    }
    if es.len() < 2 {
        return GenEventRequest::Info;
    }
    if es.len() == 2 && es[0].is_atom_with_name("$gen_notify") {
        return GenEventRequest::Notify { event: &es[1] };
    }
    if es.len() == 2 && es[0].is_atom_with_name("$gen_sync_notify") {
        return GenEventRequest::SyncNotify { event: &es[1] };
    }
    if es.len() == 4 && es[0].is_atom_with_name("$gen_call") {
        match split_from(&es[1]) {
            Some((from_pid, reference)) => {
                return GenEventRequest::Call {
                    from_pid,
                    reference,
                    handler_id: &es[2],
                    request: &es[3],
                };
            },
            None => {},
        }
    }
    if es.len() == 2 && es[0].is_atom_with_name("$gen_which_handlers") {
        match split_from(&es[1]) {
            Some((from_pid, reference)) => {
                return GenEventRequest::WhichHandlers { from_pid, reference };
            },
            None => {},
        }
    }
    proof {
        reveal_strlit("$gen_notify");
        reveal_strlit("$gen_sync_notify");
        reveal_strlit("$gen_call");
        reveal_strlit("$gen_which_handlers");
    }
    GenEventRequest::Info
}

/// The answer to a call: `{ref, reply}`.
pub fn call_reply(reference: &Reference, reply: Term) -> (r: Term)
    ensures
        r@ == TermV::Tuple(seq![TermV::Reference(reference@), reply@]),
{
    let es: Vec<Term> = vec![Term::Reference(reference.duplicate()), reply];
    proof {
        term::lemma_values_index(es@);
        assert(Term::values(es@) =~= seq![TermV::Reference(reference@), reply@]);
    }
    Term::Tuple(es)
}


/// What a GenEvent handler answered to an event or a call.
#[derive(Debug, Clone, Copy, PartialEq, Eq, Structural)]
pub enum HandlerAnswer {
    /// It handled the event or answered the call, and stays.
    Done,
    /// It asked to be removed.
    Remove,
    /// It asked to be replaced by another handler.
    Swap,
    /// It failed.
    Failed,
}

/// Why a handler is terminated when it is dropped.
#[derive(Debug, Clone, Copy, PartialEq, Eq, Structural)]
pub enum DropReason {
    Normal,
    Error,
}

/// What the manager does with a handler after it answered.
#[derive(Debug, Clone, Copy, PartialEq, Eq, Structural)]
pub enum HandlerFate {
    Keep,
    /// Terminate it with reason `swap` and start the new handler in its place.
    Replace,
    /// Terminate it with this reason and remove it.
    Drop(DropReason),
}

/// After an event: a handler that asked to be removed, or failed, is
/// dropped with reason `error`.
pub open spec fn event_fate_of(a: HandlerAnswer) -> HandlerFate {
    match a {
        HandlerAnswer::Done => HandlerFate::Keep,
        HandlerAnswer::Remove => HandlerFate::Drop(DropReason::Error),
        HandlerAnswer::Swap => HandlerFate::Replace,
        HandlerAnswer::Failed => HandlerFate::Drop(DropReason::Error),
    }
}

/// After a call: a handler that asked to be removed is dropped with reason
/// `normal`, one that failed with reason `error`.
pub open spec fn call_fate_of(a: HandlerAnswer) -> HandlerFate {
    match a {
        HandlerAnswer::Done => HandlerFate::Keep,
        HandlerAnswer::Remove => HandlerFate::Drop(DropReason::Normal),
        HandlerAnswer::Swap => HandlerFate::Replace,
        HandlerAnswer::Failed => HandlerFate::Drop(DropReason::Error),
    }
}

/// What becomes of a handler after it answered an event.
pub fn event_fate(a: HandlerAnswer) -> (r: HandlerFate)
    ensures
        r == event_fate_of(a),
{
    match a {
        HandlerAnswer::Done => HandlerFate::Keep,
        HandlerAnswer::Remove => HandlerFate::Drop(DropReason::Error),
        HandlerAnswer::Swap => HandlerFate::Replace,
        HandlerAnswer::Failed => HandlerFate::Drop(DropReason::Error),
    }
}

/// What becomes of a handler after it answered a call.
pub fn call_fate(a: HandlerAnswer) -> (r: HandlerFate)
    ensures
        r == call_fate_of(a),
{
    match a {
        HandlerAnswer::Done => HandlerFate::Keep,
        HandlerAnswer::Remove => HandlerFate::Drop(DropReason::Normal),
        HandlerAnswer::Swap => HandlerFate::Replace,
        HandlerAnswer::Failed => HandlerFate::Drop(DropReason::Error),
    }
}

/// The atom name of a drop reason.
pub fn drop_reason_name(r: DropReason) -> (s: &'static str)
    ensures
        s@ == match r {
            DropReason::Normal => "normal"@,
            DropReason::Error => "error"@,
        },
{
    match r {
        DropReason::Normal => "normal",
        DropReason::Error => "error",
    }
}

/// Whether a handler leaves the manager after an event, and why: one whose
/// fate is to be dropped leaves with that reason; one that was replaced
/// leaves with reason `error` when the new handler failed to start; any other
/// stays.
pub open spec fn dropped_as(fate: HandlerFate, start_failed: bool) -> Option<DropReason> {
    match fate {
        HandlerFate::Keep => None,
        HandlerFate::Replace => if start_failed {
            Some(DropReason::Error)
        } else {
            None
        },
        HandlerFate::Drop(reason) => Some(reason),
    }
}

/// The handlers that leave after an event, by their position among
/// `outcomes` (each handler's fate and whether a handler swapped in for it
/// failed to start), in order, with the reason each is terminated with.
pub open spec fn drops_of(outcomes: Seq<(HandlerFate, bool)>) -> Seq<(usize, DropReason)>
    decreases outcomes.len(),
{
    if outcomes.len() == 0 {
        Seq::empty()
    } else {
        let last = outcomes.last();
        drops_of(outcomes.drop_last()) + match dropped_as(last.0, last.1) {
            Some(reason) => seq![((outcomes.len() - 1) as usize, reason)],
            None => Seq::empty(),
        }
    }
}

/// After an event went to every handler: which of them leave, by position,
/// and with what reason, in the order the handlers were asked.
pub fn notify_drops(outcomes: &Vec<(HandlerFate, bool)>) -> (r: Vec<(usize, DropReason)>)
    ensures
        r@ == drops_of(outcomes@),
{
    let mut drops: Vec<(usize, DropReason)> = Vec::new();
    let mut i: usize = 0;
    while i < outcomes.len()
        invariant
            i <= outcomes@.len(),
            drops@ == drops_of(outcomes@.subrange(0, i as int)),
        decreases outcomes@.len() - i,
    {
        let (fate, start_failed) = outcomes[i];
        proof {
            let s = outcomes@.subrange(0, i + 1);
            assert(s.drop_last() =~= outcomes@.subrange(0, i as int));
            assert(s.last() == outcomes@[i as int]);
        }
        match fate {
            HandlerFate::Keep => {},
            HandlerFate::Replace => {
                if start_failed {
                    drops.push((i, DropReason::Error));
                }
            },
            HandlerFate::Drop(reason) => {
                drops.push((i, reason));
            },
        }
        proof {
            assert(drops@ =~= drops_of(outcomes@.subrange(0, i + 1)));
        }
        i = i + 1;
    }
    assert(outcomes@.subrange(0, i as int) =~= outcomes@);
    drops
}

} // verus!
