//! Reassembly of fragmented distribution messages.
//!
//! A fragmented message starts with a header fragment that announces how many
//! fragments there are (its fragment id is that count) and continues with
//! fragments numbered down to 1. Fragments may arrive in any order; a
//! continuation may even arrive before its header. The reassembled message is
//! the atom cache data of the header followed by fragments 1, 2, ..., n.
use vstd::prelude::*;
use std::collections::HashMap;
use vstd::std_specs::iter::IteratorSpec;
use crate::errors::{Error, Result};
use crate::text::text_with_two_numbers;
use crate::types::SequenceId;
use crate::wire::put_slice;

verus! {

broadcast use vstd::std_specs::hash::group_hash_axioms;

pub const DIST_FRAG_HEADER: u8 = 69;

pub const DIST_FRAG_CONT: u8 = 70;

/// Default time after which an incomplete message is dropped, in seconds.
pub const DEFAULT_FRAGMENT_TIMEOUT_SECS: u64 = 30;

/// Largest fragment count for which fragments are kept in a vector; larger
/// messages are never reassembled.
pub const MAX_FRAGMENTS_VEC: u64 = 100_000;

/// Largest fragment count accepted at all.
pub const MAX_FRAGMENT_COUNT: u64 = 1_000_000;

#[verifier::external_type_specification]
#[verifier::external_body]
pub struct ExInstant(std::time::Instant);

/// The current instant, from `std::time::Instant::now`. Nothing is claimed
/// of the value.
#[verifier::external_body]
fn instant_now() -> std::time::Instant {
    std::time::Instant::now()
}

/// The whole nanoseconds elapsed since `origin`, by `Instant::elapsed` and
/// `Duration::as_nanos`: a reading of the clock. Nothing is claimed of the
/// value.
#[verifier::external_body]
fn nanos_since(origin: &std::time::Instant) -> u128 {
    origin.elapsed().as_nanos()
}

/// `Duration::as_nanos`: the whole nanoseconds of a duration. Of a duration
/// of whole seconds made by `Duration::from_secs` that is the seconds times
/// 10^9; of others, the duration being opaque here, nothing is stated.
#[verifier::external_body]
fn duration_nanos(d: &std::time::Duration) -> (r: u128)
    ensures
        forall|secs: u64|
            *d == #[trigger] crate::types::secs_duration(secs) ==> r == secs * 1_000_000_000,
{
    d.as_nanos()
}

#[derive(Debug, Clone)]
pub struct FragmentHeader {
    pub sequence_id: SequenceId,
    pub fragment_id: u64,
}

/// A validated fragment count: between 1 and `MAX_FRAGMENT_COUNT`.
#[derive(Debug, Clone, Copy, PartialEq, Eq, PartialOrd, Ord, Hash)]
pub struct FragmentCount(u64);

impl View for FragmentCount {
    type V = u64;

    closed spec fn view(&self) -> u64 {
        self.0
    }
}

impl FragmentCount {
    /// A count between 1 and `MAX_FRAGMENT_COUNT`; zero and larger counts are refused.
    pub fn new(count: u64) -> (r: Result<Self>)
        ensures
            r is Ok <==> 1 <= count <= MAX_FRAGMENT_COUNT,
            r matches Ok(c) ==> c@ == count,
            r matches Err(e) ==> e is InvalidStateMessage,
    {
        if count == 0 {
            return Err(Error::InvalidStateMessage(String::from_str("Fragment count cannot be zero")));
        }
        if count > MAX_FRAGMENT_COUNT {
            return Err(
                Error::InvalidStateMessage(
                    text_with_two_numbers(
                        "Fragment count ",
                        count as i128,
                        " exceeds maximum of ",
                        MAX_FRAGMENT_COUNT as i128,
                    ),
                ),
            );
        }
        Ok(FragmentCount(count))
    }

    pub fn get(self) -> (r: u64)
        ensures
            r == self@,
    {
        self.0
    }

    /// Whether the count is too large for the fragments to be kept.
    pub fn exceeds_vec_limit(self) -> (r: bool)
        ensures
            r == (self@ > MAX_FRAGMENTS_VEC),
    {
        self.0 > MAX_FRAGMENTS_VEC
    }
}

/// What is known of one message being reassembled.
pub struct FragmentedView {
    /// The fragment count, once the header has arrived.
    pub total: Option<u64>,
    /// Fragment `i + 1` is kept at index `i`.
    pub slots: Seq<Option<Seq<u8>>>,
    /// Fragments that arrived before the header, by fragment id.
    pub pending: Map<u64, Seq<u8>>,
    /// How many fragments were stored in slots.
    pub received: usize,
    /// Atom cache data that precedes the fragments.
    pub cache: Option<Seq<u8>>,
}

/// One more, unless already at the largest `usize`.
pub open spec fn sat_inc(n: usize) -> usize {
    if n < usize::MAX {
        (n + 1) as usize
    } else {
        n
    }
}

/// A message with nothing received yet.
pub open spec fn fresh_message(total: Option<u64>, cache: Option<Seq<u8>>) -> FragmentedView {
    FragmentedView {
        total,
        slots: match total {
            Some(c) => if c > MAX_FRAGMENTS_VEC {
                Seq::empty()
            } else {
                Seq::new(c as nat, |i: int| None)
            },
            None => Seq::empty(),
        },
        pending: Map::empty(),
        received: 0,
        cache,
    }
}

/// The message after fragment `id` with `data` arrives. Fragment 0, fragments
/// beyond the count or beyond the slots, and repeated fragments are ignored.
pub open spec fn with_fragment(m: FragmentedView, id: u64, data: Seq<u8>) -> FragmentedView {
    if id == 0 {
        m
    } else {
        match m.total {
            Some(c) => if id <= c && id - 1 < m.slots.len() && m.slots[id - 1] is None {
                FragmentedView {
                    slots: m.slots.update(id - 1, Some(data)),
                    received: sat_inc(m.received),
                    ..m
                }
            } else {
                m
            },
            None => if m.pending.contains_key(id) {
                m
            } else {
                FragmentedView { pending: m.pending.insert(id, data), ..m }
            },
        }
    }
}

/// The message `sequence_id` after its header fragment arrives, announcing
/// `count` fragments, with atom cache data `cache` and the payload of
/// fragment `count`: a message already pending (from continuations that came
/// first) gets the count and the cache data; otherwise a fresh one starts.
pub open spec fn header_arrival(
    pending: Map<u64, FragmentedView>,
    sequence_id: u64,
    count: u64,
    cache: Option<Seq<u8>>,
    payload: Seq<u8>,
) -> FragmentedView {
    if pending.contains_key(sequence_id) {
        with_fragment(
            FragmentedView { cache, ..with_total(pending[sequence_id], count) },
            count,
            payload,
        )
    } else {
        with_fragment(fresh_message(Some(count), cache), count, payload)
    }
}

/// The message `sequence_id` after continuation fragment `fragment_id`
/// arrives with `payload`; a continuation for an unknown sequence starts a
/// message that waits for its header.
pub open spec fn continuation_arrival(
    pending: Map<u64, FragmentedView>,
    sequence_id: u64,
    fragment_id: u64,
    payload: Seq<u8>,
) -> FragmentedView {
    if pending.contains_key(sequence_id) {
        with_fragment(pending[sequence_id], fragment_id, payload)
    } else {
        with_fragment(fresh_message(None, None), fragment_id, payload)
    }
}

/// The slots extended with empty slots, or cut, to length `n`.
pub open spec fn resized(slots: Seq<Option<Seq<u8>>>, n: nat) -> Seq<Option<Seq<u8>>> {
    Seq::new(n, |i: int| if i < slots.len() { slots[i] } else { None })
}

/// Buffered fragment `k` moves into an empty slot of the resized slots.
pub open spec fn placeable(r: Seq<Option<Seq<u8>>>, pending: Map<u64, Seq<u8>>, k: int) -> bool {
    &&& 1 <= k <= r.len()
    &&& pending.contains_key(k as u64)
    &&& r[k - 1] is None
}

/// The received count after moving buffered fragments 1..=upto.
pub open spec fn filled_count(
    base: usize,
    r: Seq<Option<Seq<u8>>>,
    pending: Map<u64, Seq<u8>>,
    upto: nat,
) -> usize
    decreases upto,
{
    if upto == 0 {
        base
    } else {
        let b = filled_count(base, r, pending, (upto - 1) as nat);
        if placeable(r, pending, upto as int) {
            sat_inc(b)
        } else {
            b
        }
    }
}

/// The message after its header announces `count` fragments: the slots are
/// resized to the count (when it is within the vector limit) and buffered
/// fragments move into their empty slots; fragments that do not fit are dropped.
pub open spec fn with_total(m: FragmentedView, count: u64) -> FragmentedView {
    if m.total == Some(count) {
        m
    } else if count > MAX_FRAGMENTS_VEC {
        FragmentedView { total: Some(count), ..m }
    } else {
        let r = resized(m.slots, count as nat);
        FragmentedView {
            total: Some(count),
            slots: Seq::new(
                count as nat,
                |i: int|
                    if placeable(r, m.pending, i + 1) {
                        Some(m.pending[(i + 1) as u64])
                    } else {
                        r[i]
                    },
            ),
            pending: Map::empty(),
            received: filled_count(m.received, r, m.pending, count as nat),
            ..m
        }
    }
}

/// The header has arrived and as many fragments were stored as it announced.
pub open spec fn is_complete(m: FragmentedView) -> bool {
    match m.total {
        Some(c) => m.received == c as usize,
        None => false,
    }
}

/// The stored fragments in slot order, concatenated.
pub open spec fn present_concat(slots: Seq<Option<Seq<u8>>>) -> Seq<u8>
    decreases slots.len(),
{
    if slots.len() == 0 {
        Seq::empty()
    } else {
        present_concat(slots.drop_last()) + cache_bytes(slots.last())
    }
}

/// The reassembled message: the atom cache data, then the fragments in order.
pub open spec fn reassembled(m: FragmentedView) -> Seq<u8> {
    cache_bytes(m.cache) + present_concat(m.slots)
}

/// The atom cache data, or nothing.
pub open spec fn cache_bytes(cache: Option<Seq<u8>>) -> Seq<u8> {
    match cache {
        Some(c) => c,
        None => Seq::empty(),
    }
}

struct FragmentedMessage {
    total_fragments: Option<FragmentCount>,
    fragments: Vec<Option<Vec<u8>>>,
    pending_fragments: HashMap<u64, Vec<u8>>,
    received_count: usize,
    atom_cache_data: Option<Vec<u8>>,
    last_update: u128,
}

/// The bytes held by an optional vector.
pub open spec fn opt_bytes_view(o: Option<Vec<u8>>) -> Option<Seq<u8>> {
    match o {
        Some(v) => Some(v@),
        None => None,
    }
}

impl View for FragmentedMessage {
    type V = FragmentedView;

    closed spec fn view(&self) -> FragmentedView {
        FragmentedView {
            total: match self.total_fragments {
                Some(c) => Some(c.0),
                None => None,
            },
            slots: self.fragments@.map_values(|o: Option<Vec<u8>>| opt_bytes_view(o)),
            pending: self.pending_fragments@.map_values(|v: Vec<u8>| v@),
            received: self.received_count,
            cache: opt_bytes_view(self.atom_cache_data),
        }
    }
}

impl FragmentedMessage {
    fn new(
        total_fragments: Option<FragmentCount>,
        atom_cache_data: Option<Vec<u8>>,
        now: u128,
    ) -> (r: Self)
        ensures
            r.last_update == now,
            r@ == fresh_message(
                match total_fragments {
                    Some(c) => Some(c@),
                    None => None,
                },
                opt_bytes_view(atom_cache_data),
            ),
    {
        let mut fragments: Vec<Option<Vec<u8>>> = Vec::new();
        match total_fragments {
            Some(count) => {
                if !count.exceeds_vec_limit() {
                    let n = count.get() as usize;
                    let mut i: usize = 0;
                    while i < n
                        invariant
                            i <= n,
                            fragments@.len() == i,
                            forall|k: int| 0 <= k < i ==> fragments@[k] is None,
                        decreases n - i,
                    {
                        fragments.push(None);
                        i = i + 1;
                    }
                }
            },
            None => {},
        }
        let r = FragmentedMessage {
            total_fragments,
            fragments,
            pending_fragments: HashMap::new(),
            received_count: 0,
            atom_cache_data,
            last_update: now,
        };
        assert(r@.slots =~= fresh_message(
            match total_fragments {
                Some(c) => Some(c@),
                None => None,
            },
            opt_bytes_view(atom_cache_data),
        ).slots);
        assert(r@.pending =~= Map::empty());
        r
    }

    fn add_fragment(&mut self, fragment_id: u64, data: Vec<u8>, now: u128)
        ensures
            final(self)@ == with_fragment(old(self)@, fragment_id, data@),
            final(self).last_update == now,
    {
        self.last_update = now;
        if fragment_id == 0 {
            return;
        }
        match self.total_fragments {
            Some(count) => {
                if fragment_id <= count.get() {
                    let idx64 = fragment_id - 1;
                    if idx64 < self.fragments.len() as u64 {
                        let idx = idx64 as usize;
                        let occupied = match &self.fragments[idx] {
                            Some(_) => true,
                            None => false,
                        };
                        if !occupied {
                            self.fragments.set(idx, Some(data));
                            if self.received_count < usize::MAX {
                                self.received_count = self.received_count + 1;
                            }
                            assert(self@.slots =~= old(self)@.slots.update(
                                fragment_id - 1,
                                Some(data@),
                            ));
                        }
                    }
                }
            },
            None => {
                if !self.pending_fragments.contains_key(&fragment_id) {
                    self.pending_fragments.insert(fragment_id, data);
                    assert(self@.pending =~= old(self)@.pending.insert(fragment_id, data@));
                }
            },
        }
    }

    fn set_total_fragments(&mut self, count: FragmentCount)
        ensures
            final(self)@ == with_total(old(self)@, count@),
            final(self).last_update == old(self).last_update,
    {
        let same = match self.total_fragments {
            Some(c) => c.get() == count.get(),
            None => false,
        };
        if same {
            return;
        }
        self.total_fragments = Some(count);
        if count.exceeds_vec_limit() {
            return;
        }
        let n = count.get() as usize;
        let ghost old_slots = old(self)@.slots;
        let ghost pend = old(self)@.pending;
        let ghost r = resized(old_slots, n as nat);
        self.fragments.truncate(n);
        while self.fragments.len() < n
            invariant
                n <= MAX_FRAGMENTS_VEC,
                count@ == n,
                r == resized(old_slots, n as nat),
                self.fragments@.len() <= n,
                old_slots.len() < n ==> self.fragments@.len() >= old_slots.len(),
                old_slots.len() >= n ==> self.fragments@.len() == n,
                self.total_fragments == Some(count),
                self.received_count == old(self)@.received,
                self.pending_fragments@ == old(self).pending_fragments@,
                pend == old(self)@.pending,
                self.atom_cache_data == old(self).atom_cache_data,
                self.last_update == old(self).last_update,
                forall|i: int|
                    0 <= i < self.fragments@.len() ==> opt_bytes_view(#[trigger] self.fragments@[i])
                        == r[i],
            decreases n - self.fragments@.len(),
        {
            self.fragments.push(None);
        }
        assert(self@.slots =~= r);
        let mut k: u64 = 1;
        while k <= count.get()
            invariant
                1 <= k <= count@ + 1,
                count@ == n,
                n <= MAX_FRAGMENTS_VEC,
                self.total_fragments == Some(count),
                self.fragments@.len() == n,
                self.last_update == old(self).last_update,
                forall|i: int|
                    0 <= i < n ==> opt_bytes_view(#[trigger] self.fragments@[i]) == if i + 1 < k
                        && placeable(r, pend, i + 1) {
                        Some(pend[(i + 1) as u64])
                    } else {
                        r[i]
                    },
                forall|j: u64|
                    k <= j ==> (#[trigger] self.pending_fragments@.contains_key(j) == pend.contains_key(j))
                        && (pend.contains_key(j) ==> self.pending_fragments@[j]@ == pend[j]),
                self.received_count == filled_count(old(self)@.received, r, pend, (k - 1) as nat),
                self.atom_cache_data == old(self).atom_cache_data,
                r == resized(old_slots, n as nat),
                pend == old(self)@.pending,
            decreases count@ + 1 - k,
        {
            let idx = (k - 1) as usize;
            let ghost before = self.fragments@;
            let ghost before_recv = self.received_count;
            let ghost before_pending = self.pending_fragments@;
            assert(opt_bytes_view(before[idx as int]) == r[idx as int]);
            if let Some(data) = self.pending_fragments.remove(&k) {
                let free = match &self.fragments[idx] {
                    Some(_) => false,
                    None => true,
                };
                if free {
                    self.fragments.set(idx, Some(data));
                    if self.received_count < usize::MAX {
                        self.received_count = self.received_count + 1;
                    }
                    assert(placeable(r, pend, k as int));
                } else {
                    assert(!placeable(r, pend, k as int));
                }
            } else {
                assert(!placeable(r, pend, k as int));
            }
            assert(self.pending_fragments@ == before_pending.remove(k));
            assert forall|j: u64| k + 1 <= j implies (#[trigger] self.pending_fragments@.contains_key(j)
                == pend.contains_key(j)) && (pend.contains_key(j) ==> self.pending_fragments@[j]@
                == pend[j]) by {
                assert(before_pending.contains_key(j) == pend.contains_key(j));
            }
            assert(filled_count(old(self)@.received, r, pend, k as nat) == if placeable(
                r,
                pend,
                k as int,
            ) {
                sat_inc(filled_count(old(self)@.received, r, pend, (k - 1) as nat))
            } else {
                filled_count(old(self)@.received, r, pend, (k - 1) as nat)
            });
            k = k + 1;
        }
        self.pending_fragments.clear();
        assert(self@.slots =~= with_total(old(self)@, count@).slots);
        assert(self@.pending =~= Map::empty());
    }

    fn is_complete(&self) -> (r: bool)
        ensures
            r == is_complete(self@),
    {
        match self.total_fragments {
            Some(count) => self.received_count == count.get() as usize,
            None => false,
        }
    }

    fn reassemble(self) -> (r: Option<Vec<u8>>)
        ensures
            r is Some <==> is_complete(self@),
            r matches Some(v) ==> v@ == reassembled(self@),
    {
        if !self.is_complete() {
            return None;
        }
        let mut result: Vec<u8> = Vec::new();
        match &self.atom_cache_data {
            Some(cache) => put_slice(&mut result, cache.as_slice()),
            None => {},
        }
        let ghost prefix = result@;
        let mut i: usize = 0;
        while i < self.fragments.len()
            invariant
                i <= self.fragments@.len(),
                result@ == prefix + present_concat(self@.slots.subrange(0, i as int)),
            decreases self.fragments@.len() - i,
        {
            match &self.fragments[i] {
                Some(frag) => put_slice(&mut result, frag.as_slice()),
                None => {},
            }
            proof {
                let s = self@.slots.subrange(0, i + 1);
                assert(s.drop_last() =~= self@.slots.subrange(0, i as int));
            }
            i = i + 1;
        }
        assert(self@.slots.subrange(0, i as int) =~= self@.slots);
        Some(result)
    }
}

/// Reassembles fragmented messages, one per sequence id.
pub struct FragmentAssembler {
    pending: HashMap<u64, FragmentedMessage>,
    /// The timeout, in nanoseconds.
    fragment_timeout: u128,
    /// The instant that clock readings count from.
    origin: std::time::Instant,
}

impl View for FragmentAssembler {
    type V = Map<u64, FragmentedView>;

    closed spec fn view(&self) -> Map<u64, FragmentedView> {
        self.pending@.map_values(|m: FragmentedMessage| m@)
    }
}

impl FragmentAssembler {
    /// When each pending message last received a fragment, as a clock
    /// reading in nanoseconds.
    pub closed spec fn last_updates(&self) -> Map<u64, u128> {
        self.pending@.map_values(|m: FragmentedMessage| m.last_update)
    }

    /// The timeout after which incomplete messages are dropped, in nanoseconds.
    pub closed spec fn timeout(&self) -> u128 {
        self.fragment_timeout
    }

    /// The pending messages that, at clock reading `now`, have gone more than
    /// the timeout without a fragment.
    pub open spec fn idle_at(&self, now: u128) -> Set<u64> {
        Set::new(
            |k: u64|
                self.last_updates().contains_key(k) && now > self.last_updates()[k] + self.timeout(),
        )
    }

    /// An empty assembler with the default timeout of 30 seconds.
    pub fn new() -> (r: Self)
        ensures
            r@ == Map::<u64, FragmentedView>::empty(),
            r.timeout() == DEFAULT_FRAGMENT_TIMEOUT_SECS * 1_000_000_000,
    {
        let r = FragmentAssembler {
            pending: HashMap::new(),
            fragment_timeout: DEFAULT_FRAGMENT_TIMEOUT_SECS as u128 * 1_000_000_000,
            origin: instant_now(),
        };
        assert(r@ =~= Map::<u64, FragmentedView>::empty());
        r
    }

    /// An empty assembler with the given timeout (kept in whole nanoseconds).
    pub fn with_timeout(timeout: std::time::Duration) -> (r: Self)
        ensures
            r@ == Map::<u64, FragmentedView>::empty(),
            forall|secs: u64|
                timeout == #[trigger] crate::types::secs_duration(secs) ==> r.timeout() == secs
                    * 1_000_000_000,
    {
        let r = FragmentAssembler {
            pending: HashMap::new(),
            fragment_timeout: duration_nanos(&timeout),
            origin: instant_now(),
        };
        assert(r@ =~= Map::<u64, FragmentedView>::empty());
        r
    }

    /// A reading of the assembler's clock: the nanoseconds since it was made.
    /// It depends on the clock; nothing is claimed of the value.
    pub fn now_nanos(&self) -> u128 {
        nanos_since(&self.origin)
    }

    /// Handles a header fragment, received at `now`, whose fragment id is the
    /// fragment count. Returns the reassembled message once every fragment is
    /// in; a message left pending was last updated at `now`.
    pub fn start_fragment_at(
        &mut self,
        sequence_id: u64,
        fragment_id: u64,
        atom_cache_data: Option<Vec<u8>>,
        payload: Vec<u8>,
        now: u128,
    ) -> (r: Option<Vec<u8>>)
        ensures
            (final(self)@, opt_bytes_view(r)) == header_step(
                old(self)@,
                sequence_id,
                fragment_id,
                opt_bytes_view(atom_cache_data),
                payload@,
            ),
            final(self).timeout() == old(self).timeout(),
            !(1 <= fragment_id <= MAX_FRAGMENT_COUNT) ==> final(self).last_updates()
                == old(self).last_updates(),
            1 <= fragment_id <= MAX_FRAGMENT_COUNT ==> (if r is Some {
                final(self).last_updates() == old(self).last_updates().remove(sequence_id)
            } else {
                final(self).last_updates() == old(self).last_updates().insert(sequence_id, now)
            }),
            !(1 <= fragment_id <= MAX_FRAGMENT_COUNT) ==> r is None && final(self)@ == old(self)@,
            1 <= fragment_id <= MAX_FRAGMENT_COUNT ==> ({
                let m = header_arrival(
                    old(self)@,
                    sequence_id,
                    fragment_id,
                    opt_bytes_view(atom_cache_data),
                    payload@,
                );
                if is_complete(m) {
                    r matches Some(v) && v@
                        == reassembled(m) && final(self)@ == old(self)@.remove(sequence_id)
                } else {
                    r is None && final(self)@ == old(self)@.insert(sequence_id, m)
                }
            }),
    {
        let count = match FragmentCount::new(fragment_id) {
            Ok(c) => c,
            Err(_) => {
                return None;
            },
        };
        match self.pending.remove(&sequence_id) {
            Some(mut msg) => {
                msg.set_total_fragments(count);
                msg.atom_cache_data = atom_cache_data;
                msg.add_fragment(fragment_id, payload, now);
                if msg.is_complete() {
                    assert(self@ =~= old(self)@.remove(sequence_id));
                    assert(self.last_updates() =~= old(self).last_updates().remove(sequence_id));
                    msg.reassemble()
                } else {
                    self.pending.insert(sequence_id, msg);
                    assert(self@ =~= old(self)@.insert(sequence_id, msg@));
                    assert(self.last_updates() =~= old(self).last_updates().insert(sequence_id, now));
                    None
                }
            },
            None => {
                let mut msg = FragmentedMessage::new(Some(count), atom_cache_data, now);
                msg.add_fragment(fragment_id, payload, now);
                if msg.is_complete() {
                    assert(old(self)@.remove(sequence_id) =~= old(self)@);
                    assert(old(self).last_updates().remove(sequence_id) =~= old(self).last_updates());
                    msg.reassemble()
                } else {
                    self.pending.insert(sequence_id, msg);
                    assert(self@ =~= old(self)@.insert(sequence_id, msg@));
                    assert(self.last_updates() =~= old(self).last_updates().insert(sequence_id, now));
                    None
                }
            },
        }
    }

    /// Handles a header fragment whose fragment id is the fragment count,
    /// received now. Returns the reassembled message once every fragment is in.
    pub fn start_fragment(
        &mut self,
        sequence_id: u64,
        fragment_id: u64,
        atom_cache_data: Option<Vec<u8>>,
        payload: Vec<u8>,
    ) -> (r: Option<Vec<u8>>)
        ensures
            (final(self)@, opt_bytes_view(r)) == header_step(
                old(self)@,
                sequence_id,
                fragment_id,
                opt_bytes_view(atom_cache_data),
                payload@,
            ),
            !(1 <= fragment_id <= MAX_FRAGMENT_COUNT) ==> r is None && final(self)@ == old(self)@,
            1 <= fragment_id <= MAX_FRAGMENT_COUNT ==> ({
                let m = header_arrival(
                    old(self)@,
                    sequence_id,
                    fragment_id,
                    opt_bytes_view(atom_cache_data),
                    payload@,
                );
                if is_complete(m) {
                    r matches Some(v) && v@
                        == reassembled(m) && final(self)@ == old(self)@.remove(sequence_id)
                } else {
                    r is None && final(self)@ == old(self)@.insert(sequence_id, m)
                }
            }),
            final(self).timeout() == old(self).timeout(),
            !(1 <= fragment_id <= MAX_FRAGMENT_COUNT) ==> final(self).last_updates()
                == old(self).last_updates(),
            1 <= fragment_id <= MAX_FRAGMENT_COUNT ==> final(self).last_updates().remove(sequence_id)
                == old(self).last_updates().remove(sequence_id),
            1 <= fragment_id <= MAX_FRAGMENT_COUNT ==> (r is Some <==> !final(self).last_updates().contains_key(sequence_id)),
    {
        let now = self.now_nanos();
        self.start_fragment_at(sequence_id, fragment_id, atom_cache_data, payload, now)
    }

    /// Handles a continuation fragment received at `now`. A continuation for an
    /// unknown sequence is buffered until its header arrives. Returns the
    /// reassembled message once every fragment is in; a message left pending
    /// was last updated at `now`.
    pub fn add_fragment_at(
        &mut self,
        sequence_id: u64,
        fragment_id: u64,
        payload: Vec<u8>,
        now: u128,
    ) -> (r: Option<Vec<u8>>)
        ensures
            (final(self)@, opt_bytes_view(r)) == continuation_step(
                old(self)@,
                sequence_id,
                fragment_id,
                payload@,
            ),
            final(self).timeout() == old(self).timeout(),
            if r is Some {
                final(self).last_updates() == old(self).last_updates().remove(sequence_id)
            } else {
                final(self).last_updates() == old(self).last_updates().insert(sequence_id, now)
            },
            ({
                let m = continuation_arrival(old(self)@, sequence_id, fragment_id, payload@);
                if is_complete(m) {
                    r matches Some(v) && v@ == reassembled(m) && final(self)@ == old(self)@.remove(
                        sequence_id,
                    )
                } else {
                    r is None && final(self)@ == old(self)@.insert(sequence_id, m)
                }
            }),
    {
        match self.pending.remove(&sequence_id) {
            Some(mut msg) => {
                msg.add_fragment(fragment_id, payload, now);
                if msg.is_complete() {
                    assert(self@ =~= old(self)@.remove(sequence_id));
                    assert(self.last_updates() =~= old(self).last_updates().remove(sequence_id));
                    msg.reassemble()
                } else {
                    self.pending.insert(sequence_id, msg);
                    assert(self@ =~= old(self)@.insert(sequence_id, msg@));
                    assert(self.last_updates() =~= old(self).last_updates().insert(sequence_id, now));
                    None
                }
            },
            None => {
                let mut msg = FragmentedMessage::new(None, None, now);
                msg.add_fragment(fragment_id, payload, now);
                self.pending.insert(sequence_id, msg);
                assert(self@ =~= old(self)@.insert(sequence_id, msg@));
                assert(self.last_updates() =~= old(self).last_updates().insert(sequence_id, now));
                None
            },
        }
    }

    /// Handles a continuation fragment received now. A continuation for an
    /// unknown sequence is buffered until its header arrives. Returns the
    /// reassembled message once every fragment is in.
    pub fn add_fragment(&mut self, sequence_id: u64, fragment_id: u64, payload: Vec<u8>) -> (r:
        Option<Vec<u8>>)
        ensures
            (final(self)@, opt_bytes_view(r)) == continuation_step(
                old(self)@,
                sequence_id,
                fragment_id,
                payload@,
            ),
            ({
                let m = continuation_arrival(old(self)@, sequence_id, fragment_id, payload@);
                if is_complete(m) {
                    r matches Some(v) && v@ == reassembled(m) && final(self)@ == old(self)@.remove(
                        sequence_id,
                    )
                } else {
                    r is None && final(self)@ == old(self)@.insert(sequence_id, m)
                }
            }),
            final(self).timeout() == old(self).timeout(),
            final(self).last_updates().remove(sequence_id) == old(self).last_updates().remove(
                sequence_id,
            ),
            r is Some <==> !final(self).last_updates().contains_key(sequence_id),
    {
        let now = self.now_nanos();
        self.add_fragment_at(sequence_id, fragment_id, payload, now)
    }

    /// Drops the messages with the given sequence ids and returns how many
    /// were dropped.
    pub fn remove_expired(&mut self, expired: &Vec<u64>) -> (r: usize)
        ensures
            final(self)@ == old(self)@.remove_keys(expired@.to_set()),
            final(self).last_updates() == old(self).last_updates().remove_keys(expired@.to_set()),
            r == old(self)@.dom().len() - final(self)@.dom().len(),
            final(self).timeout() == old(self).timeout(),
    {
        let before = self.pending.len();
        let mut i: usize = 0;
        while i < expired.len()
            invariant
                i <= expired@.len(),
                self@ == old(self)@.remove_keys(expired@.subrange(0, i as int).to_set()),
                self.last_updates() == old(self).last_updates().remove_keys(
                    expired@.subrange(0, i as int).to_set(),
                ),
                self.fragment_timeout == old(self).fragment_timeout,
                before == old(self).pending@.len(),
            decreases expired@.len() - i,
        {
            let key = expired[i];
            let ghost v0 = self@;
            let ghost u0 = self.last_updates();
            self.pending.remove(&key);
            proof {
                let s0 = expired@.subrange(0, i as int).to_set();
                let s1 = expired@.subrange(0, i + 1).to_set();
                assert(expired@.subrange(0, i + 1) =~= expired@.subrange(0, i as int).push(key));
                assert forall|x: u64| #[trigger] s1.contains(x) == s0.insert(key).contains(x) by {
                    vstd::seq_lib::lemma_seq_contains_after_push(
                        expired@.subrange(0, i as int),
                        key,
                        x,
                    );
                }
                assert(s1 =~= s0.insert(key));
                assert(self@ =~= v0.remove(key));
                assert(self@ =~= old(self)@.remove_keys(s1));
                assert(self.last_updates() =~= u0.remove(key));
                assert(self.last_updates() =~= old(self).last_updates().remove_keys(s1));
            }
            i = i + 1;
        }
        proof {
            assert(expired@.subrange(0, i as int) =~= expired@);
            assert(self@.dom() =~= self.pending@.dom());
            assert(old(self)@.dom() =~= old(self).pending@.dom());
            assert(self@.dom().subset_of(old(self)@.dom()));
            vstd::set_lib::lemma_len_subset(self@.dom(), old(self)@.dom());
        }
        before - self.pending.len()
    }

    /// The sequence ids of the pending messages.
    fn pending_keys(&self) -> (r: Vec<u64>)
        ensures
            r@.to_set() == self@.dom(),
    {
        let mut keys: Vec<u64> = Vec::new();
        for k in it: self.pending.keys()
            invariant
                keys@.len() == it.index(),
                it.seq() == vstd::std_specs::hash::spec_keys_iter(&self.pending).remaining(),
                forall|j: int| 0 <= j < keys@.len() ==> keys@[j] == *it.seq()[j],
        {
            keys.push(*k);
        }
        proof {
            let rem = vstd::std_specs::hash::spec_keys_iter(&self.pending).remaining();
            assert(keys@ =~= rem.unref());
            assert(self@.dom() =~= self.pending@.dom());
        }
        keys
    }

    /// Drops the messages that, at clock reading `now`, have gone more than
    /// the timeout without a fragment, and returns how many were dropped.
    pub fn cleanup_expired_at(&mut self, now: u128) -> (r: usize)
        ensures
            final(self)@ == old(self)@.remove_keys(old(self).idle_at(now)),
            final(self).last_updates() == old(self).last_updates().remove_keys(
                old(self).idle_at(now),
            ),
            r == old(self)@.dom().len() - final(self)@.dom().len(),
            final(self).timeout() == old(self).timeout(),
    {
        let keys = self.pending_keys();
        let timeout = self.fragment_timeout;
        let mut expired: Vec<u64> = Vec::new();
        let mut i: usize = 0;
        while i < keys.len()
            invariant
                i <= keys@.len(),
                keys@.to_set() == self@.dom(),
                self.pending@ == old(self).pending@,
                timeout == self.fragment_timeout,
                forall|k: u64|
                    #[trigger] expired@.contains(k) <==> (keys@.subrange(0, i as int).contains(k)
                        && self.idle_at(now).contains(k)),
            decreases keys@.len() - i,
        {
            let key = keys[i];
            assert(keys@.contains(key));
            assert(self.pending@.contains_key(key)) by {
                assert(self@.dom().contains(key));
            }
            let idle = match self.pending.get(&key) {
                Some(msg) => now > msg.last_update && now - msg.last_update > timeout,
                None => false,
            };
            proof {
                assert(self.last_updates()[key] == self.pending@[key].last_update);
                assert(idle == self.idle_at(now).contains(key));
                assert(keys@.subrange(0, i + 1) =~= keys@.subrange(0, i as int).push(key));
            }
            let ghost e0 = expired@;
            if idle {
                expired.push(key);
            }
            proof {
                assert forall|k: u64| #[trigger] expired@.contains(k) <==> (keys@.subrange(
                    0,
                    i + 1,
                ).contains(k) && self.idle_at(now).contains(k)) by {
                    vstd::seq_lib::lemma_seq_contains_after_push(
                        keys@.subrange(0, i as int),
                        key,
                        k,
                    );
                    if idle {
                        vstd::seq_lib::lemma_seq_contains_after_push(e0, key, k);
                    }
                }
            }
            i = i + 1;
        }
        proof {
            assert(keys@.subrange(0, i as int) =~= keys@);
            assert forall|k: u64| #[trigger] expired@.to_set().contains(k) <==> old(self).idle_at(
                now,
            ).contains(k) by {
                if old(self).idle_at(now).contains(k) {
                    assert(old(self).last_updates().contains_key(k));
                    assert(self@.dom().contains(k));
                    assert(keys@.to_set().contains(k));
                }
            }
            assert(expired@.to_set() =~= old(self).idle_at(now));
        }
        self.remove_expired(&expired)
    }

    /// Drops the messages that have gone more than the timeout without a
    /// fragment, by a reading of the assembler's clock, and returns how many
    /// were dropped. What the clock reads is not stated;
    /// `cleanup_expired_at` is exact for any reading.
    pub fn cleanup_expired(&mut self) -> (r: usize)
        ensures
            exists|now: u128|
                #![trigger old(self).idle_at(now)]
                final(self)@ == old(self)@.remove_keys(old(self).idle_at(now))
                    && final(self).last_updates() == old(self).last_updates().remove_keys(
                    old(self).idle_at(now),
                ),
            r == old(self)@.dom().len() - final(self)@.dom().len(),
            final(self).timeout() == old(self).timeout(),
    {
        let now = self.now_nanos();
        self.cleanup_expired_at(now)
    }

    /// Drops every message.
    pub fn clear(&mut self)
        ensures
            final(self)@ == Map::<u64, FragmentedView>::empty(),
            final(self).timeout() == old(self).timeout(),
    {
        self.pending.clear();
        assert(self@ =~= Map::<u64, FragmentedView>::empty());
    }

    /// How many messages are incomplete.
    pub fn pending_count(&self) -> (r: usize)
        ensures
            r == self@.dom().len(),
    {
        assert(self@.dom() =~= self.pending@.dom());
        self.pending.len()
    }
}

impl Default for FragmentAssembler {
    fn default() -> (r: Self)
        ensures
            r@ == Map::<u64, FragmentedView>::empty(),
    {
        Self::new()
    }
}

/// How many slots hold a fragment.
pub open spec fn present_count(slots: Seq<Option<Seq<u8>>>) -> nat
    decreases slots.len(),
{
    if slots.len() == 0 {
        0
    } else {
        present_count(slots.drop_last()) + if slots.last() is Some {
            1nat
        } else {
            0nat
        }
    }
}

/// The fragments concatenated in order.
pub open spec fn concat_all(frags: Seq<Seq<u8>>) -> Seq<u8>
    decreases frags.len(),
{
    if frags.len() == 0 {
        Seq::empty()
    } else {
        concat_all(frags.drop_last()) + frags.last()
    }
}

/// A message whose header has arrived, with a count within the vector limit,
/// whose received count is the number of stored fragments.
pub open spec fn well_formed_message(m: FragmentedView) -> bool {
    &&& m.total matches Some(c) && 1 <= c <= MAX_FRAGMENTS_VEC && m.slots.len() == c
    &&& m.received == present_count(m.slots)
}

proof fn lemma_present_count_bounds(s: Seq<Option<Seq<u8>>>)
    ensures
        present_count(s) <= s.len(),
        present_count(s) == s.len() <==> forall|i: int| 0 <= i < s.len() ==> #[trigger] s[i] is Some,
    decreases s.len(),
{
    if s.len() > 0 {
        lemma_present_count_bounds(s.drop_last());
        if present_count(s) == s.len() {
            assert forall|i: int| 0 <= i < s.len() implies #[trigger] s[i] is Some by {
                if i < s.len() - 1 {
                    assert(s.drop_last()[i] == s[i]);
                }
            }
        }
        if forall|i: int| 0 <= i < s.len() ==> #[trigger] s[i] is Some {
            assert forall|i: int| 0 <= i < s.drop_last().len() implies #[trigger] s.drop_last()[i] is Some by {
                assert(s[i] is Some);
            }
        }
    }
}

proof fn lemma_present_count_update(s: Seq<Option<Seq<u8>>>, i: int, d: Seq<u8>)
    requires
        0 <= i < s.len(),
        s[i] is None,
    ensures
        present_count(s.update(i, Some(d))) == present_count(s) + 1,
    decreases s.len(),
{
    let t = s.update(i, Some(d));
    if i == s.len() - 1 {
        assert(t.drop_last() =~= s.drop_last());
    } else {
        assert(t.drop_last() =~= s.drop_last().update(i, Some(d)));
        lemma_present_count_update(s.drop_last(), i, d);
    }
}

proof fn lemma_present_concat_all(s: Seq<Option<Seq<u8>>>, f: Seq<Seq<u8>>)
    requires
        s.len() == f.len(),
        forall|i: int| 0 <= i < s.len() ==> #[trigger] s[i] == Some(f[i]),
    ensures
        present_concat(s) == concat_all(f),
    decreases s.len(),
{
    if s.len() > 0 {
        lemma_present_concat_all(s.drop_last(), f.drop_last());
    }
}

/// A fresh message whose header announced at most the vector limit is well formed.
pub proof fn lemma_fresh_message_well_formed(count: u64, cache: Option<Seq<u8>>)
    requires
        1 <= count <= MAX_FRAGMENTS_VEC,
    ensures
        well_formed_message(fresh_message(Some(count), cache)),
{
    let m = fresh_message(Some(count), cache);
    lemma_present_count_bounds(m.slots);
    if present_count(m.slots) > 0 {
        assert(m.slots[0] is None);
    }
    lemma_present_count_zero(m.slots);
}

proof fn lemma_present_count_zero(s: Seq<Option<Seq<u8>>>)
    requires
        forall|i: int| 0 <= i < s.len() ==> #[trigger] s[i] is None,
    ensures
        present_count(s) == 0,
    decreases s.len(),
{
    if s.len() > 0 {
        lemma_present_count_zero(s.drop_last());
    }
}

/// Storing a fragment keeps a message well formed.
pub proof fn lemma_with_fragment_well_formed(m: FragmentedView, id: u64, data: Seq<u8>)
    requires
        well_formed_message(m),
    ensures
        well_formed_message(with_fragment(m, id, data)),
{
    let m2 = with_fragment(m, id, data);
    if m2 != m {
        lemma_present_count_bounds(m.slots);
        lemma_present_count_update(m.slots, id - 1, data);
    }
}

proof fn lemma_filled_count_from_buffer(
    r: Seq<Option<Seq<u8>>>,
    pending: Map<u64, Seq<u8>>,
    slots: Seq<Option<Seq<u8>>>,
    upto: nat,
)
    requires
        r.len() <= MAX_FRAGMENTS_VEC,
        upto <= r.len(),
        slots.len() == r.len(),
        forall|i: int| 0 <= i < r.len() ==> #[trigger] r[i] is None,
        forall|i: int|
            0 <= i < slots.len() ==> #[trigger] slots[i] == if placeable(r, pending, i + 1) {
                Some(pending[(i + 1) as u64])
            } else {
                r[i]
            },
    ensures
        filled_count(0, r, pending, upto) == present_count(slots.take(upto as int)),
        filled_count(0, r, pending, upto) <= upto,
    decreases upto,
{
    if upto > 0 {
        lemma_filled_count_from_buffer(r, pending, slots, (upto - 1) as nat);
        assert(slots.take(upto as int).drop_last() =~= slots.take(upto - 1));
    }
}

/// A message that only buffered continuations becomes well formed when its
/// header announces a count within the vector limit: each buffered fragment
/// that fits moves into its slot.
pub proof fn lemma_header_after_continuations(m: FragmentedView, count: u64)
    requires
        m.total is None,
        m.slots.len() == 0,
        m.received == 0,
        1 <= count <= MAX_FRAGMENTS_VEC,
    ensures
        well_formed_message(with_total(m, count)),
        forall|i: int|
            0 <= i < count ==> #[trigger] with_total(m, count).slots[i] == if m.pending.contains_key(
                (i + 1) as u64,
            ) {
                Some(m.pending[(i + 1) as u64])
            } else {
                None::<Seq<u8>>
            },
{
    let r = resized(m.slots, count as nat);
    let m2 = with_total(m, count);
    lemma_filled_count_from_buffer(r, m.pending, m2.slots, count as nat);
    assert(m2.slots.take(count as int) =~= m2.slots);
}

/// A well-formed message is complete exactly when every one of its fragments
/// is stored, and then it reassembles to the atom cache data followed by the
/// fragments 1, 2, ..., n in order, whatever order they arrived in.
pub proof fn lemma_complete_reassembly(m: FragmentedView, frags: Seq<Seq<u8>>)
    requires
        well_formed_message(m),
    ensures
        is_complete(m) <==> forall|i: int| 0 <= i < m.slots.len() ==> #[trigger] m.slots[i] is Some,
        frags.len() == m.slots.len() && (forall|i: int|
            0 <= i < m.slots.len() ==> #[trigger] m.slots[i] == Some(frags[i])) ==> is_complete(m)
            && reassembled(m) == cache_bytes(m.cache) + concat_all(frags),
{
    lemma_present_count_bounds(m.slots);
    if frags.len() == m.slots.len() && (forall|i: int|
        0 <= i < m.slots.len() ==> #[trigger] m.slots[i] == Some(frags[i])) {
        lemma_present_concat_all(m.slots, frags);
    }
}


/// A header announcing at most the vector limit leaves a well-formed message
/// with that count and the header's atom cache data, whether the sequence was
/// new or had only buffered continuations so far.
pub proof fn lemma_header_arrival_well_formed(
    pending: Map<u64, FragmentedView>,
    sequence_id: u64,
    count: u64,
    cache: Option<Seq<u8>>,
    payload: Seq<u8>,
)
    requires
        1 <= count <= MAX_FRAGMENTS_VEC,
        pending.contains_key(sequence_id) ==> ({
            let p = pending[sequence_id];
            p.total is None && p.slots.len() == 0 && p.received == 0
        }),
    ensures
        ({
            let m = header_arrival(pending, sequence_id, count, cache, payload);
            well_formed_message(m) && m.total == Some(count) && m.cache == cache
        }),
{
    if pending.contains_key(sequence_id) {
        let p = pending[sequence_id];
        lemma_header_after_continuations(p, count);
        let h = FragmentedView { cache, ..with_total(p, count) };
        lemma_with_fragment_well_formed(h, count, payload);
    } else {
        lemma_fresh_message_well_formed(count, cache);
        lemma_with_fragment_well_formed(fresh_message(Some(count), cache), count, payload);
    }
}

/// One continuation arriving for a pending message whose header announced at
/// most the vector limit: the fragment fills its slot when the id is within
/// the count and the slot is empty, and nothing else changes (an earlier
/// payload is never replaced). The message is then complete exactly when
/// every slot holds a fragment, and it reassembles to the atom cache data
/// followed by the slots' fragments in id order.
pub proof fn lemma_one_fragment_arrives(
    pending: Map<u64, FragmentedView>,
    sequence_id: u64,
    id: u64,
    data: Seq<u8>,
)
    requires
        pending.contains_key(sequence_id),
        well_formed_message(pending[sequence_id]),
    ensures
        ({
            let m = pending[sequence_id];
            let m2 = continuation_arrival(pending, sequence_id, id, data);
            &&& well_formed_message(m2)
            &&& m2.cache == m.cache && m2.total == m.total
            &&& m2.slots == if 1 <= id <= m.slots.len() && m.slots[id - 1] is None {
                m.slots.update(id - 1, Some(data))
            } else {
                m.slots
            }
            &&& is_complete(m2) <==> forall|i: int| 0 <= i < m2.slots.len() ==> #[trigger] m2.slots[i] is Some
            &&& is_complete(m2) ==> reassembled(m2) == cache_bytes(m.cache) + concat_all(
                Seq::new(m2.slots.len(), |i: int| m2.slots[i]->0),
            )
        }),
{
    let m = pending[sequence_id];
    let m2 = with_fragment(m, id, data);
    lemma_with_fragment_well_formed(m, id, data);
    let frags = Seq::new(m2.slots.len(), |i: int| m2.slots[i]->0);
    lemma_complete_reassembly(m2, frags);
}

/// The message after the fragments `arrivals` (id and payload) arrive, in
/// that order.
pub open spec fn delivered(m: FragmentedView, arrivals: Seq<(u64, Seq<u8>)>) -> FragmentedView
    decreases arrivals.len(),
{
    if arrivals.len() == 0 {
        m
    } else {
        let last = arrivals.last();
        with_fragment(delivered(m, arrivals.drop_last()), last.0, last.1)
    }
}

/// Whether fragment `id` is among `arrivals`.
pub open spec fn arrived(arrivals: Seq<(u64, Seq<u8>)>, id: u64) -> bool {
    exists|j: int| 0 <= j < arrivals.len() && #[trigger] arrivals[j].0 == id
}

/// Each of the ids `1..=count` arrives exactly once among `arrivals`, and no
/// other id arrives.
pub open spec fn each_id_once(arrivals: Seq<(u64, Seq<u8>)>, count: u64) -> bool {
    &&& forall|j: int| 0 <= j < arrivals.len() ==> 1 <= #[trigger] arrivals[j].0 <= count
    &&& forall|j: int, k: int|
        0 <= j < arrivals.len() && 0 <= k < arrivals.len() && j != k ==> #[trigger] arrivals[j].0
            != #[trigger] arrivals[k].0
    &&& forall|id: u64| 1 <= id <= count ==> #[trigger] arrived(arrivals, id)
}

/// The payload that arrived with fragment `id`.
pub open spec fn payload_of(arrivals: Seq<(u64, Seq<u8>)>, id: u64) -> Seq<u8> {
    arrivals[choose|j: int| 0 <= j < arrivals.len() && #[trigger] arrivals[j].0 == id].1
}

proof fn lemma_delivered_slots(
    count: u64,
    cache: Option<Seq<u8>>,
    arrivals: Seq<(u64, Seq<u8>)>,
)
    requires
        1 <= count <= MAX_FRAGMENTS_VEC,
        forall|j: int| 0 <= j < arrivals.len() ==> 1 <= #[trigger] arrivals[j].0 <= count,
        forall|j: int, k: int|
            0 <= j < arrivals.len() && 0 <= k < arrivals.len() && j != k ==> #[trigger] arrivals[j].0
                != #[trigger] arrivals[k].0,
    ensures
        well_formed_message(delivered(fresh_message(Some(count), cache), arrivals)),
        delivered(fresh_message(Some(count), cache), arrivals).cache == cache,
        delivered(fresh_message(Some(count), cache), arrivals).total == Some(count),
        delivered(fresh_message(Some(count), cache), arrivals).slots.len() == count,
        forall|i: int|
            0 <= i < count ==> #[trigger] delivered(fresh_message(Some(count), cache), arrivals).slots[i]
                == if arrived(arrivals, (i + 1) as u64) {
                Some(payload_of(arrivals, (i + 1) as u64))
            } else {
                None
            },
    decreases arrivals.len(),
{
    let m0 = fresh_message(Some(count), cache);
    if arrivals.len() == 0 {
        lemma_fresh_message_well_formed(count, cache);
    } else {
        let prev = arrivals.drop_last();
        let last = arrivals.last();
        let n = arrivals.len() - 1;
        assert forall|j: int, k: int|
            0 <= j < prev.len() && 0 <= k < prev.len() && j != k implies #[trigger] prev[j].0
                != #[trigger] prev[k].0 by {
            assert(prev[j] == arrivals[j] && prev[k] == arrivals[k]);
        }
        assert forall|j: int| 0 <= j < prev.len() implies 1 <= #[trigger] prev[j].0 <= count by {
            assert(prev[j] == arrivals[j]);
        }
        lemma_delivered_slots(count, cache, prev);
        let m = delivered(m0, prev);
        lemma_with_fragment_well_formed(m, last.0, last.1);
        assert(arrivals[n].0 == last.0);
        assert(1 <= last.0 <= count);
        let i0 = last.0 - 1;
        assert(!arrived(prev, last.0)) by {
            if arrived(prev, last.0) {
                let j = choose|j: int| 0 <= j < prev.len() && #[trigger] prev[j].0 == last.0;
                assert(arrivals[j].0 == arrivals[n].0);
            }
        }
        assert(m.slots[i0 as int] is None);
        let m2 = delivered(m0, arrivals);
        assert(m2.slots == m.slots.update(i0 as int, Some(last.1)));
        assert(m2 == with_fragment(m, last.0, last.1));
        assert forall|i: int| 0 <= i < count implies #[trigger] m2.slots[i] == if arrived(
            arrivals,
            (i + 1) as u64,
        ) {
            Some(payload_of(arrivals, (i + 1) as u64))
        } else {
            None
        } by {
            if i == i0 {
                assert(arrivals[n].0 == i + 1);
                let jj = choose|j: int| 0 <= j < arrivals.len() && #[trigger] arrivals[j].0 == (i + 1) as u64;
                if jj != n {
                    assert(arrivals[jj].0 != arrivals[n].0);
                }
                assert(payload_of(arrivals, (i + 1) as u64) == last.1);
            } else {
                assert(m.slots[i] == m2.slots[i]);
                if arrived(arrivals, (i + 1) as u64) {
                    let jj = choose|j: int| 0 <= j < arrivals.len() && #[trigger] arrivals[j].0 == (i + 1) as u64;
                    assert(jj != n);
                    assert(prev[jj] == arrivals[jj]);
                    let kk = choose|j: int| 0 <= j < prev.len() && #[trigger] prev[j].0 == (i + 1) as u64;
                    assert(prev[kk] == arrivals[kk]);
                    if kk != jj {
                        assert(arrivals[kk].0 == arrivals[jj].0);
                    }
                    assert(payload_of(prev, (i + 1) as u64) == payload_of(arrivals, (i + 1) as u64));
                } else {
                    assert(!arrived(prev, (i + 1) as u64)) by {
                        if arrived(prev, (i + 1) as u64) {
                            let j = choose|j: int| 0 <= j < prev.len() && #[trigger] prev[j].0 == (i + 1) as u64;
                            assert(arrivals[j] == prev[j]);
                        }
                    }
                }
            }
        }
    }
}

/// A message whose header announced `count` fragments (at most the vector
/// limit) and that then receives each fragment `1..=count` once, in any
/// order, is complete, and reassembles to the atom cache data followed by the
/// fragments' payloads in id order.
pub proof fn lemma_any_order_reassembly(
    count: u64,
    cache: Option<Seq<u8>>,
    arrivals: Seq<(u64, Seq<u8>)>,
)
    requires
        1 <= count <= MAX_FRAGMENTS_VEC,
        each_id_once(arrivals, count),
    ensures
        ({
            let m = delivered(fresh_message(Some(count), cache), arrivals);
            &&& is_complete(m)
            &&& reassembled(m) == cache_bytes(cache) + concat_all(
                Seq::new(count as nat, |i: int| payload_of(arrivals, (i + 1) as u64)),
            )
        }),
{
    lemma_delivered_slots(count, cache, arrivals);
    let m = delivered(fresh_message(Some(count), cache), arrivals);
    let frags = Seq::new(count as nat, |i: int| payload_of(arrivals, (i + 1) as u64));
    assert forall|i: int| 0 <= i < m.slots.len() implies #[trigger] m.slots[i] == Some(frags[i]) by {
        assert(1 <= i + 1 <= count);
        assert(arrived(arrivals, (i + 1) as u64));
    }
    lemma_complete_reassembly(m, frags);
}

/// The pending messages and the result after `start_fragment` for
/// `sequence_id` with fragment count `count`, atom cache data `cache` and
/// `payload`.
pub open spec fn header_step(
    pending: Map<u64, FragmentedView>,
    sequence_id: u64,
    count: u64,
    cache: Option<Seq<u8>>,
    payload: Seq<u8>,
) -> (Map<u64, FragmentedView>, Option<Seq<u8>>) {
    if !(1 <= count <= MAX_FRAGMENT_COUNT) {
        (pending, None)
    } else {
        let m = header_arrival(pending, sequence_id, count, cache, payload);
        if is_complete(m) {
            (pending.remove(sequence_id), Some(reassembled(m)))
        } else {
            (pending.insert(sequence_id, m), None)
        }
    }
}

/// The pending messages and the result after `add_fragment` for
/// `sequence_id` with fragment id `id` and `payload`.
pub open spec fn continuation_step(
    pending: Map<u64, FragmentedView>,
    sequence_id: u64,
    id: u64,
    payload: Seq<u8>,
) -> (Map<u64, FragmentedView>, Option<Seq<u8>>) {
    let m = continuation_arrival(pending, sequence_id, id, payload);
    if is_complete(m) {
        (pending.remove(sequence_id), Some(reassembled(m)))
    } else {
        (pending.insert(sequence_id, m), None)
    }
}

/// The pending messages and the result of each call after `add_fragment`
/// is called for `sequence_id` with each of `conts` (id and payload), in
/// order.
pub open spec fn continuation_run(
    pending: Map<u64, FragmentedView>,
    sequence_id: u64,
    conts: Seq<(u64, Seq<u8>)>,
) -> (Map<u64, FragmentedView>, Seq<Option<Seq<u8>>>)
    decreases conts.len(),
{
    if conts.len() == 0 {
        (pending, Seq::empty())
    } else {
        let (p, rs) = continuation_run(pending, sequence_id, conts.drop_last());
        let (p2, r) = continuation_step(p, sequence_id, conts.last().0, conts.last().1);
        (p2, rs.push(r))
    }
}

/// Fragments that arrived so far, with distinct ids within the count, leave a
/// message that is incomplete while some fragment is still to come.
proof fn lemma_prefix_incomplete(
    count: u64,
    cache: Option<Seq<u8>>,
    arrivals: Seq<(u64, Seq<u8>)>,
    j: int,
)
    requires
        1 <= count <= MAX_FRAGMENTS_VEC,
        each_id_once(arrivals, count),
        0 <= j < arrivals.len(),
    ensures
        !is_complete(delivered(fresh_message(Some(count), cache), arrivals.take(j))),
{
    let pre = arrivals.take(j);
    assert forall|a: int| 0 <= a < pre.len() implies 1 <= #[trigger] pre[a].0 <= count by {
        assert(pre[a] == arrivals[a]);
    }
    assert forall|a: int, b: int|
        0 <= a < pre.len() && 0 <= b < pre.len() && a != b implies #[trigger] pre[a].0
            != #[trigger] pre[b].0 by {
        assert(pre[a] == arrivals[a] && pre[b] == arrivals[b]);
    }
    lemma_delivered_slots(count, cache, pre);
    let m = delivered(fresh_message(Some(count), cache), pre);
    let x = arrivals[j].0;
    assert(1 <= x <= count);
    assert(!arrived(pre, x)) by {
        if arrived(pre, x) {
            let a = choose|a: int| 0 <= a < pre.len() && #[trigger] pre[a].0 == x;
            assert(arrivals[a].0 == arrivals[j].0);
        }
    }
    assert(m.slots[x - 1] is None);
    lemma_complete_reassembly(m, Seq::empty());
}

proof fn lemma_run_prefix(
    pending: Map<u64, FragmentedView>,
    sequence_id: u64,
    count: u64,
    cache: Option<Seq<u8>>,
    payload: Seq<u8>,
    conts: Seq<(u64, Seq<u8>)>,
    k: int,
)
    requires
        !pending.contains_key(sequence_id),
        1 <= count <= MAX_FRAGMENTS_VEC,
        each_id_once(seq![(count, payload)] + conts, count),
        conts.len() + 1 == count,
        0 <= k < conts.len(),
    ensures
        ({
            let arrivals = seq![(count, payload)] + conts;
            let (p1, r0) = header_step(pending, sequence_id, count, cache, payload);
            let (pk, rs) = continuation_run(p1, sequence_id, conts.take(k));
            &&& r0 is None
            &&& pk == pending.insert(
                sequence_id,
                delivered(fresh_message(Some(count), cache), arrivals.take(k + 1)),
            )
            &&& rs.len() == k
            &&& forall|i: int| 0 <= i < k ==> #[trigger] rs[i] is None
        }),
    decreases k,
{
    let arrivals = seq![(count, payload)] + conts;
    let f = fresh_message(Some(count), cache);
    if k == 0 {
        assert(arrivals.take(1).drop_last() =~= Seq::<(u64, Seq<u8>)>::empty());
        assert(arrivals.take(1).last() == (count, payload));
        assert(delivered(f, arrivals.take(1).drop_last()) == f);
        assert(delivered(f, arrivals.take(1)) == with_fragment(f, count, payload));
        assert(header_arrival(pending, sequence_id, count, cache, payload) == with_fragment(
            f,
            count,
            payload,
        ));
        lemma_prefix_incomplete(count, cache, arrivals, 1);
        assert(conts.take(0) =~= Seq::<(u64, Seq<u8>)>::empty());
        let (p1, r0) = header_step(pending, sequence_id, count, cache, payload);
        assert(r0 is None);
        assert(continuation_run(p1, sequence_id, conts.take(0)) == (p1, Seq::<Option<Seq<u8>>>::empty()));
    } else {
        lemma_run_prefix(pending, sequence_id, count, cache, payload, conts, k - 1);
        let (p1, r0) = header_step(pending, sequence_id, count, cache, payload);
        assert(conts.take(k).drop_last() =~= conts.take(k - 1));
        assert(conts.take(k).last() == conts[k - 1]);
        assert(arrivals.take(k + 1).drop_last() =~= arrivals.take(k));
        assert(arrivals.take(k + 1).last() == conts[k - 1]);
        lemma_prefix_incomplete(count, cache, arrivals, k + 1);
        let (pk1, rs1) = continuation_run(p1, sequence_id, conts.take(k - 1));
        let m = delivered(f, arrivals.take(k + 1));
        assert(pk1.insert(sequence_id, m) =~= pending.insert(sequence_id, m));
    }
}

/// A message sent in fragments, whose header announces `count` fragments (at
/// most the vector limit), arriving first with fragment `count` and then
/// with each other fragment exactly once, in any order: every call before
/// the last leaves the sequence pending and returns nothing; the last call
/// returns the atom cache data followed by the fragments' payloads in id
/// order, and the sequence is no longer pending.
pub proof fn lemma_fragment_history(
    pending: Map<u64, FragmentedView>,
    sequence_id: u64,
    count: u64,
    cache: Option<Seq<u8>>,
    payload: Seq<u8>,
    conts: Seq<(u64, Seq<u8>)>,
)
    requires
        !pending.contains_key(sequence_id),
        1 <= count <= MAX_FRAGMENTS_VEC,
        each_id_once(seq![(count, payload)] + conts, count),
        conts.len() + 1 == count,
    ensures
        ({
            let arrivals = seq![(count, payload)] + conts;
            let whole = cache_bytes(cache) + concat_all(
                Seq::new(count as nat, |i: int| payload_of(arrivals, (i + 1) as u64)),
            );
            let (p1, r0) = header_step(pending, sequence_id, count, cache, payload);
            let (pn, rs) = continuation_run(p1, sequence_id, conts);
            &&& conts.len() == 0 ==> r0 == Some(whole) && p1 == pending
            &&& conts.len() > 0 ==> {
                &&& r0 is None
                &&& rs.len() == conts.len()
                &&& forall|i: int| 0 <= i < conts.len() - 1 ==> #[trigger] rs[i] is None
                &&& rs.last() == Some(whole)
                &&& pn == pending
            }
        }),
{
    let arrivals = seq![(count, payload)] + conts;
    let f = fresh_message(Some(count), cache);
    lemma_any_order_reassembly(count, cache, arrivals);
    let whole = cache_bytes(cache) + concat_all(
        Seq::new(count as nat, |i: int| payload_of(arrivals, (i + 1) as u64)),
    );
    let m = delivered(f, arrivals);
    assert(is_complete(m) && reassembled(m) == whole);
    if conts.len() == 0 {
        assert(arrivals.drop_last() =~= Seq::<(u64, Seq<u8>)>::empty());
        assert(delivered(f, arrivals.drop_last()) == f);
        assert(arrivals.last() == (count, payload));
        assert(m == with_fragment(f, count, payload));
        assert(header_arrival(pending, sequence_id, count, cache, payload) == m);
        assert(pending.remove(sequence_id) =~= pending);
    } else {
        let k = conts.len() - 1;
        lemma_run_prefix(pending, sequence_id, count, cache, payload, conts, k);
        let (p1, r0) = header_step(pending, sequence_id, count, cache, payload);
        assert(conts.drop_last() =~= conts.take(k));
        assert(arrivals.take(k + 1) =~= arrivals.drop_last());
        assert(arrivals.last() == conts.last());
        let (pk, rs) = continuation_run(p1, sequence_id, conts.take(k));
        assert(pk == pending.insert(sequence_id, delivered(f, arrivals.drop_last())));
        assert(pk.contains_key(sequence_id));
        assert(m == with_fragment(delivered(f, arrivals.drop_last()), conts.last().0, conts.last().1));
        assert(continuation_arrival(pk, sequence_id, conts.last().0, conts.last().1) == m);
        assert(continuation_step(pk, sequence_id, conts.last().0, conts.last().1) == (pk.remove(sequence_id), Some(whole)));
        assert(pk.remove(sequence_id) =~= pending);
        let (pn, rsn) = continuation_run(p1, sequence_id, conts);
        assert(continuation_run(p1, sequence_id, conts.drop_last()) == (pk, rs));
        assert(rsn == rs.push(Some(whole)));
        assert(pn == pending);
        assert forall|i: int| 0 <= i < conts.len() - 1 implies #[trigger] rsn[i] is None by {
            assert(rsn[i] == rs[i]);
        }
    }
}

} // verus!
