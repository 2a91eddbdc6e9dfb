//! Rendering of integers as decimal text.
use vstd::prelude::*;
use vstd::string::*;

verus! {

/// The decimal digits of `n`, as ASCII bytes, most significant first.
pub open spec fn decimal_bytes(n: nat) -> Seq<u8>
    decreases n,
{
    if n < 10 {
        seq![(48 + n) as u8]
    } else {
        decimal_bytes(n / 10) + seq![(48 + n % 10) as u8]
    }
}

/// The shape of a decimal: one digit below ten, otherwise the digits of the
/// tenth followed by the last digit.
proof fn lemma_decimal_shape(n: nat)
    ensures
        decimal_bytes(n).len() >= 1,
        decimal_bytes(n).last() == (48 + n % 10) as u8,
        n < 10 ==> decimal_bytes(n).len() == 1,
        n >= 10 ==> decimal_bytes(n).len() >= 2 && decimal_bytes(n).drop_last() == decimal_bytes(n / 10),
    decreases n,
{
    if n >= 10 {
        lemma_decimal_shape(n / 10);
        assert(decimal_bytes(n).drop_last() =~= decimal_bytes(n / 10));
    }
}

/// Different numbers have different decimal digits.
pub proof fn lemma_decimal_injective(a: nat, b: nat)
    requires
        decimal_bytes(a) == decimal_bytes(b),
    ensures
        a == b,
    decreases a,
{
    lemma_decimal_shape(a);
    lemma_decimal_shape(b);
    if a >= 10 && b >= 10 {
        lemma_decimal_injective(a / 10, b / 10);
    }
}

/// The decimal digits of `n`, as characters.
pub open spec fn decimal_chars(n: nat) -> Seq<char> {
    decimal_bytes(n).map_values(|b: u8| b as char)
}

/// The decimal representation of `n` as ASCII bytes.
pub fn decimal_u64(n: u64) -> (r: Vec<u8>)
    ensures
        r@ == decimal_bytes(n as nat),
{
    let mut rev: Vec<u8> = Vec::new();
    let mut m: u64 = n;
    // digits of n below m, least significant first, are in `rev`
    let ghost mut low: Seq<u8> = Seq::empty();
    assert(decimal_bytes(n as nat) =~= decimal_bytes(m as nat) + low);
    loop
        invariant_except_break
            decimal_bytes(n as nat) == decimal_bytes(m as nat) + low,
        invariant
            rev@.len() == low.len(),
            forall|i: int| 0 <= i < low.len() ==> #[trigger] rev@[i] == low[low.len() - 1 - i],
        ensures
            decimal_bytes(n as nat) == low,
        decreases m,
    {
        let d: u8 = (m % 10) as u8;
        rev.push(48 + d);
        proof {
            assert(decimal_bytes(m as nat) == if m < 10 {
                seq![(48 + m) as u8]
            } else {
                decimal_bytes((m / 10) as nat) + seq![(48 + m % 10) as u8]
            });
            low = seq![(48 + d) as u8] + low;
        }
        if m < 10 {
            assert(decimal_bytes(n as nat) =~= low);
            break;
        }
        m = m / 10;
        assert(decimal_bytes(n as nat) =~= decimal_bytes(m as nat) + low);
    }
    let mut out: Vec<u8> = Vec::new();
    let mut i: usize = rev.len();
    while i > 0
        invariant
            i <= rev@.len(),
            rev@.len() == low.len(),
            forall|k: int| 0 <= k < low.len() ==> #[trigger] rev@[k] == low[low.len() - 1 - k],
            out@ == low.subrange(0, low.len() - i),
        decreases i,
    {
        i = i - 1;
        out.push(rev[i]);
        assert(out@ =~= low.subrange(0, low.len() - i));
    }
    assert(out@ =~= low);
    out
}

/// The decimal representation of `n` as characters, with a leading `-` when negative.
pub open spec fn signed_decimal_chars(n: int) -> Seq<char> {
    if n < 0 {
        seq!['-'] + decimal_chars((-n) as nat)
    } else {
        decimal_chars(n as nat)
    }
}

/// Every digit of a decimal is an ASCII digit.
proof fn lemma_decimal_digits(n: nat)
    ensures
        forall|i: int| 0 <= i < decimal_bytes(n).len() ==> 48 <= #[trigger] decimal_bytes(n)[i] <= 57,
    decreases n,
{
    if n >= 10 {
        lemma_decimal_digits(n / 10);
        assert forall|i: int| 0 <= i < decimal_bytes(n).len() implies 48 <= #[trigger] decimal_bytes(
            n,
        )[i] <= 57 by {
            if i < decimal_bytes(n / 10).len() {
                assert(decimal_bytes(n)[i] == decimal_bytes(n / 10)[i]);
            }
        }
    }
}

/// The decimal representation of `n` as ASCII bytes.
fn decimal_u128(n: u128) -> (r: Vec<u8>)
    ensures
        r@ == decimal_bytes(n as nat),
{
    let mut rev: Vec<u8> = Vec::new();
    let mut m: u128 = n;
    let ghost mut low: Seq<u8> = Seq::empty();
    assert(decimal_bytes(n as nat) =~= decimal_bytes(m as nat) + low);
    loop
        invariant_except_break
            decimal_bytes(n as nat) == decimal_bytes(m as nat) + low,
        invariant
            rev@.len() == low.len(),
            forall|i: int| 0 <= i < low.len() ==> #[trigger] rev@[i] == low[low.len() - 1 - i],
        ensures
            decimal_bytes(n as nat) == low,
        decreases m,
    {
        let d: u8 = (m % 10) as u8;
        rev.push(48 + d);
        proof {
            assert(decimal_bytes(m as nat) == if m < 10 {
                seq![(48 + m) as u8]
            } else {
                decimal_bytes((m / 10) as nat) + seq![(48 + m % 10) as u8]
            });
            low = seq![(48 + d) as u8] + low;
        }
        if m < 10 {
            assert(decimal_bytes(n as nat) =~= low);
            break;
        }
        m = m / 10;
        assert(decimal_bytes(n as nat) =~= decimal_bytes(m as nat) + low);
    }
    let mut out: Vec<u8> = Vec::new();
    let mut i: usize = rev.len();
    while i > 0
        invariant
            i <= rev@.len(),
            rev@.len() == low.len(),
            forall|k: int| 0 <= k < low.len() ==> #[trigger] rev@[k] == low[low.len() - 1 - k],
            out@ == low.subrange(0, low.len() - i),
        decreases i,
    {
        i = i - 1;
        out.push(rev[i]);
        assert(out@ =~= low.subrange(0, low.len() - i));
    }
    assert(out@ =~= low);
    out
}

/// The one-character text of an ASCII digit byte.
fn digit_text(b: u8) -> (r: &'static str)
    requires
        48 <= b <= 57,
    ensures
        r@ == seq![b as char],
{
    proof {
        reveal_strlit("0");
        reveal_strlit("1");
        reveal_strlit("2");
        reveal_strlit("3");
        reveal_strlit("4");
        reveal_strlit("5");
        reveal_strlit("6");
        reveal_strlit("7");
        reveal_strlit("8");
        reveal_strlit("9");
    }
    match b {
        48 => "0",
        49 => "1",
        50 => "2",
        51 => "3",
        52 => "4",
        53 => "5",
        54 => "6",
        55 => "7",
        56 => "8",
        _ => "9",
    }
}

/// The decimal text of `n`, preceded by `-` when it is negative.
pub(crate) fn number_text(n: i128) -> (r: String)
    ensures
        r@ == signed_decimal_chars(n as int),
{
    let magnitude: u128 = if n < 0 {
        ((-(n + 1)) as u128) + 1
    } else {
        n as u128
    };
    let digits = decimal_u128(magnitude);
    proof {
        lemma_decimal_digits(magnitude as nat);
    }
    let mut s = if n < 0 {
        String::from_str("-")
    } else {
        String::from_str("")
    };
    let ghost start = s@;
    proof {
        reveal_strlit("-");
        reveal_strlit("");
        assert(start == if n < 0 { seq!['-'] } else { Seq::<char>::empty() });
    }
    let mut i: usize = 0;
    while i < digits.len()
        invariant
            i <= digits@.len(),
            digits@ == decimal_bytes(magnitude as nat),
            forall|k: int| 0 <= k < digits@.len() ==> 48 <= #[trigger] digits@[k] <= 57,
            s@ == start + digits@.subrange(0, i as int).map_values(|b: u8| b as char),
        decreases digits@.len() - i,
    {
        s.append(digit_text(digits[i]));
        assert(digits@.subrange(0, i + 1).map_values(|b: u8| b as char) =~= digits@.subrange(
            0,
            i as int,
        ).map_values(|b: u8| b as char).push(digits@[i as int] as char));
        i = i + 1;
    }
    assert(digits@.subrange(0, i as int) =~= digits@);
    assert(magnitude as int == if n < 0 { -(n as int) } else { n as int });
    assert(s@ =~= signed_decimal_chars(n as int));
    s
}

/// `prefix` followed by the decimal text of `n`.
pub fn text_with_number(prefix: &str, n: i128) -> (r: String)
    ensures
        r@ == prefix@ + signed_decimal_chars(n as int),
{
    let mut s = String::from_str(prefix);
    let t = number_text(n);
    s.append(t.as_str());
    s
}

/// `p1`, the decimal text of `n1`, `p2`, the decimal text of `n2`.
pub fn text_with_two_numbers(p1: &str, n1: i128, p2: &str, n2: i128) -> (r: String)
    ensures
        r@ == p1@ + signed_decimal_chars(n1 as int) + p2@ + signed_decimal_chars(n2 as int),
{
    let mut s = text_with_number(p1, n1);
    s.append(p2);
    let t = number_text(n2);
    s.append(t.as_str());
    s
}

/// Decodes `bytes` as UTF-8 through `std::str::from_utf8`, which succeeds
/// exactly when the bytes are valid UTF-8 and then yields the text they encode.
#[verifier::external_body]
pub(crate) fn utf8_to_string(bytes: &[u8]) -> (r: Option<String>)
    ensures
        r is Some <==> vstd::utf8::valid_utf8(bytes@),
        r matches Some(s) ==> s@ == vstd::utf8::decode_utf8(bytes@),
{
    match std::str::from_utf8(bytes) {
        Ok(s) => Some(s.to_string()),
        Err(_) => None,
    }
}

/// The UTF-8 bytes of a string.
pub fn string_bytes(s: &String) -> (r: &[u8])
    ensures
        r@ == vstd::utf8::encode_utf8(s@),
{
    s.as_str().as_bytes()
}

/// Whether two byte strings are equal.
pub fn bytes_equal(a: &[u8], b: &[u8]) -> (r: bool)
    ensures
        r == (a@ == b@),
{
    if a.len() != b.len() {
        return false;
    }
    let mut i: usize = 0;
    while i < a.len()
        invariant
            a@.len() == b@.len(),
            i <= a@.len(),
            forall|k: int| 0 <= k < i ==> a@[k] == b@[k],
        decreases a@.len() - i,
    {
        if a[i] != b[i] {
            return false;
        }
        i = i + 1;
    }
    assert(a@ =~= b@);
    true
}

/// Whether two strings are equal.
pub fn str_equal(a: &str, b: &str) -> (r: bool)
    ensures
        r == (a@ == b@),
{
    let r = bytes_equal(a.as_bytes(), b.as_bytes());
    proof {
        vstd::utf8::encode_utf8_decode_utf8(a@);
        vstd::utf8::encode_utf8_decode_utf8(b@);
    }
    r
}

/// `digits` preceded by as many `0` as it takes to reach `width` characters.
pub open spec fn zero_pad(digits: Seq<char>, width: nat) -> Seq<char> {
    if digits.len() >= width {
        digits
    } else {
        Seq::new((width - digits.len()) as nat, |i: int| '0') + digits
    }
}

/// An integer in decimal as `{:0width$}` writes it: a `-` for a negative value,
/// then the digits with leading zeros, the sign counting toward the width.
pub open spec fn padded_decimal(n: int, width: nat) -> Seq<char> {
    if n < 0 {
        seq!['-'] + zero_pad(decimal_chars((-n) as nat), if width >= 1 {
            (width - 1) as nat
        } else {
            0
        })
    } else {
        zero_pad(decimal_chars(n as nat), width)
    }
}

/// Appends `n` in decimal with leading zeros up to `width` characters, the
/// sign counting toward the width.
pub fn push_padded(s: &mut String, n: i64, width: usize)
    ensures
        final(s)@ == old(s)@ + padded_decimal(n as int, width as nat),
{
    let negative = n < 0;
    let magnitude: i128 = if negative {
        -(n as i128)
    } else {
        n as i128
    };
    let digits = number_text(magnitude);
    let w: usize = if negative {
        s.append("-");
        if width >= 1 {
            width - 1
        } else {
            0
        }
    } else {
        width
    };
    proof {
        reveal_strlit("-");
        reveal_strlit("0");
    }
    let ghost before = s@;
    let len = digits.as_str().unicode_len();
    let mut k: usize = len;
    while k < w
        invariant
            len == digits@.len(),
            len <= k <= w || (w < len && k == len),
            s@ == before + Seq::new((k - len) as nat, |i: int| '0'),
        decreases w - k,
    {
        s.append("0");
        proof {
            reveal_strlit("0");
        }
        k = k + 1;
        assert(s@ =~= before + Seq::new((k - len) as nat, |i: int| '0'));
    }
    s.append(digits.as_str());
    assert(s@ =~= before + zero_pad(digits@, w as nat));
}

} // verus!
