//! Hex quantities of the relay's wire format: "0x" and the digits of a
//! number, lowercase, without leading zeros ("0x0" for zero).
use vstd::prelude::*;
use vstd::string::{StrSliceExecFns, StringExecFns};
use crate::hex_text::{hex_digit, hex_value, lemma_digit_value};

verus! {

/// Lowercase hex digits of `n`, most significant first, without leading zeros.
pub open spec fn quantity_digits(n: nat) -> Seq<char>
    decreases n,
{
    if n < 16 {
        seq![hex_digit(n as int)]
    } else {
        quantity_digits(n / 16).push(hex_digit((n % 16) as int))
    }
}

/// The wire text of a quantity.
pub open spec fn quantity_text_of(n: nat) -> Seq<char> {
    seq!['0', 'x'] + quantity_digits(n)
}

/// The number that hex digits (either case) denote.
pub open spec fn digits_value(d: Seq<char>) -> int
    decreases d.len(),
{
    if d.len() == 0 {
        0
    } else {
        digits_value(d.drop_last()) * 16 + hex_value(d.last())->Some_0
    }
}

/// Whether every character is a hex digit.
pub open spec fn all_hex(d: Seq<char>) -> bool {
    forall|i: int| 0 <= i < d.len() ==> (#[trigger] hex_value(d[i])) is Some
}

/// What reading a quantity text gives: "0x" and one to sixteen hex digits,
/// either case, denote their value; any other text is refused.
pub open spec fn parse_quantity_of(s: Seq<char>) -> Option<int> {
    if 3 <= s.len() <= 18 && s[0] == '0' && s[1] == 'x' && all_hex(s.subrange(2, s.len() as int)) {
        Some(digits_value(s.subrange(2, s.len() as int)))
    } else {
        None
    }
}

/// Sixteen to the power `k`.
pub open spec fn pow16(k: nat) -> int
    decreases k,
{
    if k == 0 {
        1
    } else {
        16 * pow16((k - 1) as nat)
    }
}

/// Relies on String::push: appends one character.
#[verifier::external_body]
pub(crate) fn push_char(s: &mut String, c: char)
    ensures
        final(s)@ == old(s)@.push(c),
{
    s.push(c)
}

/// The lowercase digit of a nibble.
fn digit_char(n: u64) -> (c: char)
    requires
        n < 16,
    ensures
        c == hex_digit(n as int),
{
    let b: u8 = n as u8;
    if b < 10 {
        (b + 48) as char
    } else {
        (b + 87) as char
    }
}

fn push_quantity_digits(s: &mut String, n: u64)
    ensures
        final(s)@ == old(s)@ + quantity_digits(n as nat),
    decreases n,
{
    if n >= 16 {
        push_quantity_digits(s, n / 16);
    }
    push_char(s, digit_char(n % 16));
    proof {
        if n >= 16 {
            assert(final(s)@ =~= old(s)@ + quantity_digits(n as nat));
        } else {
            assert(final(s)@ =~= old(s)@ + quantity_digits(n as nat));
        }
    }
}

/// The wire text of a number, e.g. "0x100" for 256.
pub fn quantity_text(n: u64) -> (r: String)
    ensures
        r@ == quantity_text_of(n as nat),
{
    let mut r = String::from_str("0x");
    proof {
        reveal_strlit("0x");
    }
    push_quantity_digits(&mut r, n);
    assert(r@ =~= quantity_text_of(n as nat));
    r
}

/// Reads a quantity text; `None` where it is no quantity of at most sixteen digits.
pub fn parse_quantity(s: &str) -> (r: Option<u64>)
    ensures
        r is Some <==> parse_quantity_of(s@) is Some,
        r is Some ==> r->Some_0 as int == parse_quantity_of(s@)->Some_0,
{
    let n = s.unicode_len();
    if n < 3 || n > 18 || s.get_char(0) != '0' || s.get_char(1) != 'x' {
        return None;
    }
    let ghost d = s@.subrange(2, n as int);
    let mut acc: u64 = 0;
    let mut i: usize = 2;
    while i < n
        invariant
            3 <= n <= 18,
            n == s@.len(),
            d == s@.subrange(2, n as int),
            2 <= i <= n,
            all_hex(d.subrange(0, i - 2)),
            acc as int == digits_value(d.subrange(0, i - 2)),
            (acc as int) < pow16((i - 2) as nat),
        decreases n - i,
    {
        let c = s.get_char(i);
        let v: u64 = if '0' <= c && c <= '9' {
            (c as u64) - 48
        } else if 'a' <= c && c <= 'f' {
            (c as u64) - 87
        } else if 'A' <= c && c <= 'F' {
            (c as u64) - 55
        } else {
            assert(d[i - 2] == c);
            assert(hex_value(d[i - 2]) is None);
            assert(!all_hex(d));
            return None;
        };
        proof {
            lemma_pow16_bound((i - 2) as nat);
            lemma_pow16_bound((i - 1) as nat);
            assert(d.subrange(0, i - 1).drop_last() =~= d.subrange(0, i - 2));
            assert(d.subrange(0, i - 1).last() == c);
            assert((acc as int) * 16 + (v as int) < pow16((i - 1) as nat)) by (nonlinear_arith)
                requires
                    (acc as int) < pow16((i - 2) as nat),
                    v < 16,
                    pow16((i - 1) as nat) == 16 * pow16((i - 2) as nat),
            ;
        }
        acc = acc * 16 + v;
        i = i + 1;
    }
    assert(d.subrange(0, n - 2) =~= d);
    Some(acc)
}

pub proof fn lemma_pow16_bound(k: nat)
    requires
        k <= 16,
    ensures
        pow16(k) <= pow16(16),
        pow16(16) == 0x1_0000_0000_0000_0000,
        pow16(k + 1) == 16 * pow16(k),
    decreases 16 - k,
{
    reveal_with_fuel(pow16, 17);
    if k < 16 {
        lemma_pow16_bound(k + 1);
    }
}

/// The digits of a number are hex digits, at most `k` of them below `pow16(k)`,
/// and they denote the number.
pub proof fn lemma_quantity_digits(n: nat, k: nat)
    requires
        1 <= k,
        (n as int) < pow16(k),
    ensures
        1 <= quantity_digits(n).len() <= k,
        all_hex(quantity_digits(n)),
        digits_value(quantity_digits(n)) == n,
    decreases n,
{
    let d = quantity_digits(n);
    if n < 16 {
        lemma_digit_value(n as int);
        assert(d.drop_last() =~= Seq::<char>::empty());
        assert(digits_value(d.drop_last()) == 0);
        assert(d.last() == hex_digit(n as int));
    } else {
        reveal_with_fuel(pow16, 2);
        assert(k >= 2) by {
            if k == 1 {
                assert(pow16(1) == 16);
            }
        }
        assert(((n / 16) as int) < pow16((k - 1) as nat)) by (nonlinear_arith)
            requires
                (n as int) < pow16(k),
                pow16(k) == 16 * pow16((k - 1) as nat),
        ;
        lemma_quantity_digits(n / 16, (k - 1) as nat);
        lemma_digit_value((n % 16) as int);
        assert(d.drop_last() =~= quantity_digits(n / 16));
        assert(d.last() == hex_digit((n % 16) as int));
        assert(digits_value(d) == digits_value(quantity_digits(n / 16)) * 16 + (n % 16) as int);
        assert((n / 16) * 16 + n % 16 == n);
    }
}

/// Reading the wire text of a number gives the number back.
pub proof fn lemma_quantity_round_trip(n: u64)
    ensures
        parse_quantity_of(quantity_text_of(n as nat)) == Some(n as int),
{
    lemma_pow16_bound(16);
    lemma_quantity_digits(n as nat, 16);
    let t = quantity_text_of(n as nat);
    assert(t.subrange(2, t.len() as int) =~= quantity_digits(n as nat));
}

} // verus!
