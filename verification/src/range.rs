//! Elixir ranges `first..last//step`: inclusive runs of integers.
use vstd::prelude::*;
use vstd::string::*;
use crate::term::{self, Term, TermV};
use crate::text;

verus! {

/// An Elixir `Range`.
#[derive(Debug, Clone, Copy, PartialEq, Eq, Hash, Structural)]
pub struct ElixirRange {
    pub first: i64,
    pub last: i64,
    pub step: i64,
}

/// Whether a range holds no integer: a step of 0, or a step that points away
/// from `last`.
pub open spec fn range_is_empty(r: ElixirRange) -> bool {
    if r.step > 0 {
        r.first > r.last
    } else if r.step < 0 {
        r.first < r.last
    } else {
        true
    }
}

pub open spec fn abs(x: int) -> int {
    if x < 0 {
        -x
    } else {
        x
    }
}

/// How many integers a range holds.
pub open spec fn range_len(r: ElixirRange) -> int {
    if range_is_empty(r) {
        0
    } else {
        abs(r.last - r.first) / abs(r.step as int) + 1
    }
}

/// The integers of a range, in order: `first`, `first + step`, ... up to
/// `last`.
pub open spec fn range_elements(r: ElixirRange) -> Seq<int> {
    Seq::new(range_len(r) as nat, |k: int| r.first + k * r.step)
}

/// Whether a range holds `v`: between `first` and `last`, a whole number of
/// steps from `first`.
pub open spec fn range_contains(r: ElixirRange, v: int) -> bool {
    !range_is_empty(r) && if r.step > 0 {
        r.first <= v <= r.last && (v - r.first) % (r.step as int) == 0
    } else {
        r.last <= v <= r.first && (r.first - v) % (-r.step) == 0
    }
}

/// Whether the arithmetic of `len` stays within 64 bits.
pub open spec fn len_in_bounds(r: ElixirRange) -> bool {
    !range_is_empty(r) ==> {
        &&& r.step != i64::MIN
        &&& i64::MIN < r.last - r.first <= i64::MAX
        &&& abs(r.last - r.first) / abs(r.step as int) < i64::MAX
    }
}

/// Whether the arithmetic of `contains` on `v` stays within 64 bits: the
/// distance from `first` to a `v` between the bounds fits, and so does the
/// negated step.
pub open spec fn contains_in_bounds(r: ElixirRange, v: int) -> bool {
    !range_is_empty(r) ==> {
        &&& (r.step > 0 && r.first <= v <= r.last) ==> v - r.first <= i64::MAX
        &&& (r.step < 0 && r.last <= v <= r.first) ==> r.step != i64::MIN && r.first - v
            <= i64::MAX
    }
}

/// The struct term of a range.
pub open spec fn range_term(r: ElixirRange) -> TermV {
    TermV::ErlMap(
        seq![
            (TermV::Atom("__struct__"@), TermV::Atom("Elixir.Range"@)),
            (TermV::Atom("first"@), TermV::Integer(r.first)),
            (TermV::Atom("last"@), TermV::Integer(r.last)),
            (TermV::Atom("step"@), TermV::Integer(r.step)),
        ],
    )
}

/// The range a term holds: a `Range` struct with integer first, last and step.
pub open spec fn range_of_term(t: TermV) -> Option<ElixirRange> {
    if term::struct_module(t) != Some("Elixir.Range"@) {
        None
    } else {
        match (
            term::integer_field_of(t, "first"@),
            term::integer_field_of(t, "last"@),
            term::integer_field_of(t, "step"@),
        ) {
            (Some(f), Some(l), Some(s)) => Some(ElixirRange { first: f, last: l, step: s }),
            _ => None,
        }
    }
}

/// The text of a range: `first..last`, with `//step` unless the step is 1.
pub open spec fn range_text(r: ElixirRange) -> Seq<char> {
    text::signed_decimal_chars(r.first as int) + ".."@ + text::signed_decimal_chars(r.last as int)
        + if r.step == 1 {
        Seq::empty()
    } else {
        "//"@ + text::signed_decimal_chars(r.step as int)
    }
}

impl ElixirRange {
    pub fn new(first: i64, last: i64, step: i64) -> (r: Self)
        ensures
            r == (ElixirRange { first, last, step }),
    {
        ElixirRange { first, last, step }
    }

    /// `first..last` with step 1.
    pub fn ascending(first: i64, last: i64) -> (r: Self)
        ensures
            r == (ElixirRange { first, last, step: 1 }),
    {
        Self::new(first, last, 1)
    }

    /// `first..last//-1`.
    pub fn descending(first: i64, last: i64) -> (r: Self)
        ensures
            r == (ElixirRange { first, last, step: -1i64 }),
    {
        Self::new(first, last, -1)
    }

    pub fn is_empty(&self) -> (r: bool)
        ensures
            r == range_is_empty(*self),
    {
        if self.step > 0 {
            self.first > self.last
        } else if self.step < 0 {
            self.first < self.last
        } else {
            true
        }
    }

    /// The number of integers in the range.
    pub fn len(&self) -> (r: usize)
        requires
            len_in_bounds(*self),
        ensures
            r == range_len(*self) as usize,
    {
        if self.is_empty() {
            return 0;
        }
        let d = self.last - self.first;
        let diff = if d < 0 {
            -d
        } else {
            d
        };
        let step = if self.step < 0 {
            -self.step
        } else {
            self.step
        };
        ((diff / step) + 1) as usize
    }

    /// Whether the range holds `value`.
    pub fn contains(&self, value: i64) -> (r: bool)
        requires
            contains_in_bounds(*self, value as int),
        ensures
            r == range_contains(*self, value as int),
    {
        if self.is_empty() {
            return false;
        }
        if self.step > 0 {
            value >= self.first && value <= self.last && (value - self.first) % self.step == 0
        } else {
            value <= self.first && value >= self.last && (self.first - value) % (-self.step) == 0
        }
    }

    /// The range held by a `Range` struct term.
    pub fn from_term(term: &Term) -> (r: Option<Self>)
        ensures
            r == range_of_term(term@),
    {
        if !term.is_struct_of("Elixir.Range") {
            return None;
        }
        let first = match term.integer_field("first") {
            Some(v) => v,
            None => {
                return None;
            },
        };
        let last = match term.integer_field("last") {
            Some(v) => v,
            None => {
                return None;
            },
        };
        let step = match term.integer_field("step") {
            Some(v) => v,
            None => {
                return None;
            },
        };
        Some(ElixirRange { first, last, step })
    }

    /// The `Range` struct term: `__struct__`, first, last and step.
    pub fn to_term(&self) -> (r: Term)
        ensures
            r@ == range_term(*self),
    {
        let entries: Vec<(Term, Term)> = vec![
            term::atom_entry("__struct__", Term::atom("Elixir.Range")),
            term::atom_entry("first", Term::Integer(self.first)),
            term::atom_entry("last", Term::Integer(self.last)),
            term::atom_entry("step", Term::Integer(self.step)),
        ];
        proof {
            term::lemma_pair_values_index(entries@);
            assert(Term::pair_values(entries@) =~= range_term(*self)->ErlMap_0);
        }
        term::erl_map(entries)
    }

    /// `first..last`, or `first..last//step` when the step is not 1.
    pub fn to_string(&self) -> (r: String)
        ensures
            r@ == range_text(*self),
    {
        let mut s = text::number_text(self.first as i128);
        s.append("..");
        let l = text::number_text(self.last as i128);
        s.append(l.as_str());
        if self.step != 1 {
            s.append("//");
            let t = text::number_text(self.step as i128);
            s.append(t.as_str());
        }
        assert(s@ =~= range_text(*self));
        s
    }

    /// An iterator over the integers of the range.
    pub fn into_iter(self) -> (r: RangeIterator)
        ensures
            r@ == (RangeIteratorV { current: self.first, range: self, done: false }),
    {
        RangeIterator { current: self.first, range: self, done: false }
    }
}

/// Iterates over a range: from `first`, by `step`, until `last` is reached or
/// passed.
pub struct RangeIterator {
    current: i64,
    range: ElixirRange,
    done: bool,
}

pub struct RangeIteratorV {
    pub current: i64,
    pub range: ElixirRange,
    pub done: bool,
}

impl View for RangeIterator {
    type V = RangeIteratorV;

    closed spec fn view(&self) -> RangeIteratorV {
        RangeIteratorV { current: self.current, range: self.range, done: self.done }
    }
}

/// How many values are left from `current` on, by `step`, up to `last`.
pub open spec fn count_from(current: int, last: int, step: int) -> int {
    if step > 0 {
        if current > last {
            0
        } else {
            (last - current) / step + 1
        }
    } else if step < 0 {
        if current < last {
            0
        } else {
            (current - last) / (-step) + 1
        }
    } else {
        0
    }
}

/// The values an iterator has left to give.
pub open spec fn remaining(it: RangeIteratorV) -> Seq<int> {
    if it.done || range_is_empty(it.range) {
        Seq::empty()
    } else {
        Seq::new(
            count_from(it.current as int, it.range.last as int, it.range.step as int) as nat,
            |k: int| it.current + k * it.range.step,
        )
    }
}

/// The state after one step of the iterator, and the value it gives.
pub open spec fn iter_step(it: RangeIteratorV) -> (RangeIteratorV, Option<i64>) {
    if it.done || range_is_empty(it.range) {
        (it, None)
    } else if it.range.step > 0 {
        if it.current > it.range.last {
            (RangeIteratorV { done: true, ..it }, None)
        } else if it.current == it.range.last {
            (RangeIteratorV { done: true, ..it }, Some(it.current))
        } else {
            (next_position(it), Some(it.current))
        }
    } else {
        if it.current < it.range.last {
            (RangeIteratorV { done: true, ..it }, None)
        } else if it.current == it.range.last {
            (RangeIteratorV { done: true, ..it }, Some(it.current))
        } else {
            (next_position(it), Some(it.current))
        }
    }
}

/// The iterator moved on by one step; a step that would leave 64 bits has
/// passed `last`, so the iterator ends instead.
pub open spec fn next_position(it: RangeIteratorV) -> RangeIteratorV {
    if i64::MIN <= it.current + it.range.step <= i64::MAX {
        RangeIteratorV { current: (it.current + it.range.step) as i64, ..it }
    } else {
        RangeIteratorV { done: true, ..it }
    }
}

impl RangeIterator {
    /// Moves on by one step, or ends where the step would leave 64 bits.
    fn advance(&mut self)
        requires
            old(self)@.range.step != 0,
        ensures
            final(self)@ == next_position(old(self)@),
    {
        let step = self.range.step;
        if (step > 0 && self.current > i64::MAX - step) || (step < 0 && self.current < i64::MIN
            - step) {
            self.done = true;
        } else {
            self.current = self.current + step;
        }
    }

    /// The next integer of the range, if any.
    pub fn next(&mut self) -> (r: Option<i64>)
        ensures
            final(self)@ == iter_step(old(self)@).0,
            r == iter_step(old(self)@).1,
    {
        if self.done || self.range.is_empty() {
            return None;
        }
        let value = self.current;
        if self.range.step > 0 {
            if value > self.range.last {
                self.done = true;
                return None;
            }
            if value == self.range.last {
                self.done = true;
            } else {
                self.advance();
            }
        } else {
            if value < self.range.last {
                self.done = true;
                return None;
            }
            if value == self.range.last {
                self.done = true;
            } else {
                self.advance();
            }
        }
        Some(value)
    }

    /// The number of values left, as lower and upper bound.
    pub fn size_hint(&self) -> (r: (usize, Option<usize>))
        requires
            !self@.done && !range_is_empty(self@.range) ==> {
                &&& self@.range.step != i64::MIN
                &&& i64::MIN <= self@.range.last - self@.current <= i64::MAX
                &&& i64::MIN <= self@.current - self@.range.last <= i64::MAX
                &&& count_from(
                    self@.current as int,
                    self@.range.last as int,
                    self@.range.step as int,
                ) <= i64::MAX
            },
        ensures
            r.0 == remaining(self@).len() as usize,
            r.1 == Some(r.0),
    {
        if self.done || self.range.is_empty() {
            return (0, Some(0));
        }
        let remaining: usize = if self.range.step > 0 {
            if self.current > self.range.last {
                0
            } else {
                (((self.range.last - self.current) / self.range.step) + 1) as usize
            }
        } else if self.current < self.range.last {
            0
        } else {
            (((self.current - self.range.last) / (-self.range.step)) + 1) as usize
        };
        (remaining, Some(remaining))
    }
}

/// Reading back the struct term of a range gives the range.
pub proof fn lemma_range_term_roundtrip(r: ElixirRange)
    ensures
        range_of_term(range_term(r)) == Some(r),
{
    reveal_strlit("__struct__");
    reveal_strlit("first");
    reveal_strlit("last");
    reveal_strlit("step");
    assert("__struct__"@.len() == 10 && "first"@.len() == 5 && "last"@.len() == 4 && "step"@.len()
        == 4);
    assert("last"@[0] == 'l' && "step"@[0] == 's');
    reveal_with_fuel(term::lookup_atom_key, 5);
}

/// The integers of a range are exactly those it contains, and there are `len`
/// of them.
pub proof fn lemma_range_elements_are_contained(r: ElixirRange)
    ensures
        range_elements(r).len() == range_len(r),
        forall|k: int| 0 <= k < range_len(r) ==> range_contains(r, #[trigger] range_elements(r)[k]),
        forall|v: int| range_contains(r, v) ==> range_elements(r).contains(v),
{
    if !range_is_empty(r) {
        let m = abs(r.step as int);
        let d = abs(r.last - r.first);
        assert(m > 0);
        assert forall|k: int| 0 <= k < range_len(r) implies range_contains(
            r,
            #[trigger] range_elements(r)[k],
        ) by {
            let v = r.first + k * r.step;
            assert(0 <= k <= d / m);
            assert(k * m <= d) by (nonlinear_arith)
                requires
                    0 <= k <= d / m,
                    m > 0,
                    d >= 0,
            {
                vstd::arithmetic::div_mod::lemma_fundamental_div_mod(d, m);
                vstd::arithmetic::mul::lemma_mul_inequality(k, d / m, m);
            }
            if r.step > 0 {
                assert(v - r.first == k * r.step) by (nonlinear_arith)
                    requires
                        v == r.first + k * r.step,
                ;
                vstd::arithmetic::div_mod::lemma_mod_multiples_basic(k, r.step as int);
                assert(k * r.step >= 0) by (nonlinear_arith)
                    requires
                        k >= 0,
                        r.step > 0,
                ;
            } else {
                assert(r.first - v == k * (-r.step)) by (nonlinear_arith)
                    requires
                        v == r.first + k * r.step,
                ;
                vstd::arithmetic::div_mod::lemma_mod_multiples_basic(k, -r.step);
                assert(k * (-r.step) >= 0) by (nonlinear_arith)
                    requires
                        k >= 0,
                        r.step < 0,
                ;
            }
        }
        assert forall|v: int| range_contains(r, v) implies range_elements(r).contains(v) by {
            let x = if r.step > 0 {
                v - r.first
            } else {
                r.first - v
            };
            let k = x / m;
            vstd::arithmetic::div_mod::lemma_fundamental_div_mod(x, m);
            assert(x == m * k);
            assert(0 <= x <= d);
            assert(0 <= k <= d / m) by {
                vstd::arithmetic::div_mod::lemma_div_is_ordered(x, d, m);
                vstd::arithmetic::div_mod::lemma_div_pos_is_pos(x, m);
            }
            if r.step > 0 {
                assert(v == r.first + k * r.step) by (nonlinear_arith)
                    requires
                        x == v - r.first,
                        x == m * k,
                        m == r.step,
                ;
            } else {
                assert(v == r.first + k * r.step) by (nonlinear_arith)
                    requires
                        x == r.first - v,
                        x == m * k,
                        m == -r.step,
                ;
            }
            assert(range_elements(r)[k] == v);
        }
    }
}

/// A fresh iterator has the range's integers left to give.
pub proof fn lemma_iterator_starts_with_elements(r: ElixirRange)
    ensures
        remaining(RangeIteratorV { current: r.first, range: r, done: false }) == range_elements(r),
{
    assert(remaining(RangeIteratorV { current: r.first, range: r, done: false }) =~= range_elements(
        r,
    ));
}

/// Each step of an iterator gives the first value left and leaves the
/// others; once nothing is left it gives nothing. So an iterator over a range
/// gives exactly the range's integers, in order, never one past `last`.
pub proof fn lemma_iterator_step_follows_remaining(it: RangeIteratorV)
    ensures
        ({
            let (next, value) = iter_step(it);
            match value {
                Some(v) => remaining(it).len() > 0 && v == remaining(it)[0] && remaining(next)
                    =~= remaining(it).subrange(1, remaining(it).len() as int),
                None => remaining(it).len() == 0 && remaining(next).len() == 0,
            }
        }),
{
    let (next, value) = iter_step(it);
    if !(it.done || range_is_empty(it.range)) {
        let c = it.current as int;
        let l = it.range.last as int;
        let s = it.range.step as int;
        if s > 0 && c < l && c + s > i64::MAX {
            vstd::arithmetic::div_mod::lemma_basic_div(l - c, s);
            assert(remaining(it).len() == 1);
            assert(next.done);
        } else if s < 0 && c > l && c + s < i64::MIN {
            vstd::arithmetic::div_mod::lemma_basic_div(c - l, -s);
            assert(remaining(it).len() == 1);
            assert(next.done);
        } else if s > 0 && c < l {
            assert(next.current == c + s);
            let n = (l - c) / s;
            if c + s > l {
                assert(l - c < s);
                vstd::arithmetic::div_mod::lemma_basic_div(l - c, s);
                assert(n == 0);
            } else {
                assert((l - c - s) / s == n - 1) by {
                    vstd::arithmetic::div_mod::lemma_div_minus_one(l - c, s);
                }
            }
            assert forall|k: int| 0 <= k < remaining(next).len() implies remaining(next)[k]
                == remaining(it)[k + 1] by {
                assert(c + s + k * s == c + (k + 1) * s) by (nonlinear_arith);
            }
        } else if s < 0 && c > l {
            assert(next.current == c + s);
            let n = (c - l) / (-s);
            if c + s < l {
                vstd::arithmetic::div_mod::lemma_basic_div(c - l, -s);
                assert(n == 0);
            } else {
                assert((c - l + s) / (-s) == n - 1) by {
                    vstd::arithmetic::div_mod::lemma_div_minus_one(c - l, -s);
                }
            }
            assert forall|k: int| 0 <= k < remaining(next).len() implies remaining(next)[k]
                == remaining(it)[k + 1] by {
                assert(c + s + k * s == c + (k + 1) * s) by (nonlinear_arith);
            }
        } else if s > 0 && c == l {
            assert(remaining(it).len() == 1);
        } else if s < 0 && c == l {
            assert(remaining(it).len() == 1);
        }
    }
}

/// The values that `n` calls of `next` give, in order, starting from `it`.
pub open spec fn yielded(it: RangeIteratorV, n: nat) -> Seq<int>
    decreases n,
{
    if n == 0 {
        Seq::empty()
    } else {
        let (next, value) = iter_step(it);
        match value {
            Some(v) => seq![v as int] + yielded(next, (n - 1) as nat),
            None => yielded(next, (n - 1) as nat),
        }
    }
}

/// `n` calls of `next` give the first `n` values left, or all of them once
/// `n` reaches their number.
pub proof fn lemma_yielded_takes_remaining(it: RangeIteratorV, n: nat)
    ensures
        n >= remaining(it).len() ==> yielded(it, n) == remaining(it),
        n < remaining(it).len() ==> yielded(it, n) == remaining(it).take(n as int),
    decreases n,
{
    if n == 0 {
        assert(remaining(it).take(0) =~= Seq::<int>::empty());
        if remaining(it).len() == 0 {
            assert(remaining(it) =~= Seq::<int>::empty());
        }
    } else {
        let (next, value) = iter_step(it);
        lemma_iterator_step_follows_remaining(it);
        lemma_yielded_takes_remaining(next, (n - 1) as nat);
        let rem = remaining(it);
        match value {
            Some(v) => {
                if n >= rem.len() {
                    assert(yielded(it, n) =~= rem);
                } else {
                    assert(rem.subrange(1, rem.len() as int).take(n - 1) =~= rem.subrange(1, n as int));
                    assert(yielded(it, n) =~= rem.take(n as int));
                }
            },
            None => {
                assert(rem =~= Seq::<int>::empty());
                assert(remaining(next) =~= Seq::<int>::empty());
            },
        }
    }
}

/// Iterating over a range gives exactly its integers, in order: `first`,
/// `first + step`, ... and never one past `last`. There are `len` of them,
/// each is contained in the range, and further calls of `next` give nothing
/// more.
pub proof fn lemma_range_iteration(r: ElixirRange, n: nat)
    requires
        n >= range_len(r),
    ensures
        yielded(RangeIteratorV { current: r.first, range: r, done: false }, n) == range_elements(r),
        range_elements(r).len() == range_len(r),
        forall|k: int| 0 <= k < range_len(r) ==> range_contains(r, #[trigger] range_elements(r)[k]),
        forall|v: int| range_contains(r, v) <==> range_elements(r).contains(v),
{
    let it = RangeIteratorV { current: r.first, range: r, done: false };
    lemma_iterator_starts_with_elements(r);
    lemma_range_elements_are_contained(r);
    lemma_yielded_takes_remaining(it, n);
    assert forall|v: int| range_elements(r).contains(v) implies range_contains(r, v) by {
        let k = choose|k: int| 0 <= k < range_elements(r).len() && range_elements(r)[k] == v;
        assert(range_contains(r, range_elements(r)[k]));
    }
}

} // verus!
