//! Decimal and hexadecimal text for immediates and displacements.
//!
//! The disassembly sink prints immediates either in decimal or, for the
//! short-form register moves, as `0x`-prefixed lower-case hexadecimal of
//! the operand-width bit pattern.  The assembler reads both spellings
//! back; the round-trip lemmas here state that reading what was printed
//! yields the printed value again.

use vstd::prelude::*;

verus! {

/// Whether `b` is an ASCII decimal digit.
pub open spec fn spec_is_digit(b: u8) -> bool {
    0x30 <= b <= 0x39
}

/// Whether `b` is a lower-case ASCII hexadecimal digit.
pub open spec fn spec_is_hex_digit(b: u8) -> bool {
    spec_is_digit(b) || (0x61 <= b <= 0x66)
}

/// The numeric value of a hexadecimal digit.
pub open spec fn spec_hex_digit_val(b: u8) -> int {
    if spec_is_digit(b) {
        b - 0x30
    } else {
        b - 0x61 + 10
    }
}

/// The decimal spelling of `n`, most significant digit first.
pub open spec fn spec_dec_u64(n: u64) -> Seq<u8>
    decreases n,
{
    if n < 10 {
        seq![(0x30 + n) as u8]
    } else {
        spec_dec_u64(n / 10).push((0x30 + n % 10) as u8)
    }
}

/// The decimal spelling of a signed value: a minus sign before the
/// magnitude when negative.
pub open spec fn spec_dec_i64(n: i64) -> Seq<u8> {
    if n >= 0 {
        spec_dec_u64(n as u64)
    } else {
        seq![0x2du8] + spec_dec_u64((-(n as int)) as u64)
    }
}

/// The lower-case hexadecimal spelling of `n`, without a prefix.
pub open spec fn spec_hex_u64(n: u64) -> Seq<u8>
    decreases n,
{
    if n < 16 {
        seq![spec_hex_digit(n % 16)]
    } else {
        spec_hex_u64(n / 16).push(spec_hex_digit(n % 16))
    }
}

/// The digit character for a value below 16.
pub open spec fn spec_hex_digit(d: u64) -> u8 {
    if d < 10 {
        (0x30 + d) as u8
    } else {
        (0x61 + (d - 10)) as u8
    }
}

/// The `0x`-prefixed hexadecimal spelling that the sink prints.
pub open spec fn spec_hex0x(n: u64) -> Seq<u8> {
    seq![0x30u8, 0x78u8] + spec_hex_u64(n)
}

/// The numeric value of a digit string (most significant digit first),
/// as an unbounded integer.
pub open spec fn spec_dec_val(s: Seq<u8>) -> int
    decreases s.len(),
{
    if s.len() == 0 {
        0
    } else {
        spec_dec_val(s.drop_last()) * 10 + (s.last() - 0x30)
    }
}

/// Whether `s` is a non-empty run of decimal digits.
pub open spec fn spec_all_digits(s: Seq<u8>) -> bool {
    s.len() > 0 && forall|i: int| 0 <= i < s.len() ==> spec_is_digit(#[trigger] s[i])
}

/// The numeric value of a hexadecimal digit string.
pub open spec fn spec_hex_val(s: Seq<u8>) -> int
    decreases s.len(),
{
    if s.len() == 0 {
        0
    } else {
        spec_hex_val(s.drop_last()) * 16 + spec_hex_digit_val(s.last())
    }
}

/// Whether `s` is a non-empty run of lower-case hexadecimal digits.
pub open spec fn spec_all_hex_digits(s: Seq<u8>) -> bool {
    s.len() > 0 && forall|i: int| 0 <= i < s.len() ==> spec_is_hex_digit(#[trigger] s[i])
}

/// Appends the decimal spelling of `n`.
pub fn dec_u64_into(n: u64, out: &mut Vec<u8>)
    ensures
        final(out)@ == old(out)@ + spec_dec_u64(n),
    decreases n,
{
    if n < 10 {
        out.push(0x30 + n as u8);
    } else {
        dec_u64_into(n / 10, out);
        out.push(0x30 + (n % 10) as u8);
    }
}

/// Appends the decimal spelling of a signed value.
pub fn dec_i64_into(n: i64, out: &mut Vec<u8>)
    ensures
        final(out)@ == old(out)@ + spec_dec_i64(n),
{
    if n >= 0 {
        dec_u64_into(n as u64, out);
    } else {
        out.push(0x2d);
        let mag: u64 = if n == i64::MIN {
            0x8000_0000_0000_0000
        } else {
            (-n) as u64
        };
        proof {
            assert(out@ == old(out)@ + seq![0x2du8]);
            assert(mag == (-(n as int)) as u64);
        }
        dec_u64_into(mag, out);
        proof {
            assert(out@ == old(out)@ + seq![0x2du8] + spec_dec_u64(mag));
            assert(seq![0x2du8] + spec_dec_u64(mag) == spec_dec_i64(n));
            assert(out@ == old(out)@ + (seq![0x2du8] + spec_dec_u64(mag)));
        }
    }
}

/// Appends the `0x`-prefixed hexadecimal spelling of `n`.
pub fn hex0x_into(n: u64, out: &mut Vec<u8>)
    ensures
        final(out)@ == old(out)@ + spec_hex0x(n),
{
    out.push(0x30);
    out.push(0x78);
    hex_u64_into(n, out);
    proof {
        assert(out@ == old(out)@ + seq![0x30u8, 0x78u8] + spec_hex_u64(n));
        assert(out@ == old(out)@ + (seq![0x30u8, 0x78u8] + spec_hex_u64(n)));
    }
}

fn hex_u64_into(n: u64, out: &mut Vec<u8>)
    ensures
        final(out)@ == old(out)@ + spec_hex_u64(n),
    decreases n,
{
    let d = (n % 16) as u8;
    let c = if d < 10 {
        0x30 + d
    } else {
        0x61 + (d - 10)
    };
    if n < 16 {
        out.push(c);
    } else {
        hex_u64_into(n / 16, out);
        out.push(c);
    }
}

/// Reads a non-empty run of decimal digits as an unsigned value.
///
/// Returns the value exactly when `s` is all digits and the value fits in
/// 64 bits; `None` otherwise.
pub fn parse_dec_u64(s: &[u8]) -> (r: Option<u64>)
    ensures
        match r {
            Some(v) => spec_all_digits(s@) && spec_dec_val(s@) == v as int,
            None => !spec_all_digits(s@) || spec_dec_val(s@) > u64::MAX,
        },
{
    if s.len() == 0 {
        return None;
    }
    let mut acc: u64 = 0;
    let mut i: usize = 0;
    while i < s.len()
        invariant
            i <= s.len(),
            acc as int == spec_dec_val(s@.take(i as int)),
            forall|j: int| 0 <= j < i ==> spec_is_digit(#[trigger] s@[j]),
        decreases s.len() - i,
    {
        let b = s[i];
        if b < 0x30 || b > 0x39 {
            return None;
        }
        let d = (b - 0x30) as u64;
        if acc > (u64::MAX - d) / 10 {
            proof {
                assert(s@.take(i as int + 1).drop_last() == s@.take(i as int));
                assert(spec_dec_val(s@.take(i as int + 1)) == acc * 10 + d);
                assert(acc * 10 + d > u64::MAX) by (nonlinear_arith)
                    requires
                        acc > (u64::MAX - d) / 10,
                        d < 10,
                ;
                if spec_all_digits(s@) {
                    lemma_dec_val_grows(s@, i as int + 1);
                }
            }
            return None;
        }
        proof {
            assert(acc * 10 + d <= u64::MAX) by (nonlinear_arith)
                requires
                    acc <= (u64::MAX - d) / 10,
                    d < 10,
            ;
            assert(s@.take(i as int + 1).drop_last() == s@.take(i as int));
            assert(s@.take(i as int + 1).last() == s@[i as int]);
        }
        acc = acc * 10 + d;
        i = i + 1;
    }
    proof {
        assert(s@.take(s@.len() as int) == s@);
    }
    Some(acc)
}

/// If every byte of `s` up to `upto` is a digit, the value of the whole
/// digit string is at least the value of that prefix.
proof fn lemma_dec_val_grows(s: Seq<u8>, upto: int)
    requires
        0 <= upto <= s.len(),
        forall|j: int| 0 <= j < s.len() ==> spec_is_digit(#[trigger] s[j]),
    ensures
        spec_dec_val(s) >= spec_dec_val(s.take(upto)),
        spec_dec_val(s) >= 0,
    decreases s.len() - upto,
{
    if upto == s.len() {
        assert(s.take(upto) == s);
        lemma_dec_val_nonneg(s);
    } else {
        lemma_dec_val_grows(s, upto + 1);
        let t = s.take(upto + 1);
        assert(t.drop_last() == s.take(upto));
        lemma_dec_val_nonneg(s.take(upto));
        assert(spec_dec_val(t) == spec_dec_val(s.take(upto)) * 10 + (t.last() - 0x30));
        assert(spec_dec_val(s.take(upto)) * 10 >= spec_dec_val(s.take(upto))) by (nonlinear_arith)
            requires
                spec_dec_val(s.take(upto)) >= 0,
        ;
    }
}

proof fn lemma_dec_val_nonneg(s: Seq<u8>)
    requires
        forall|j: int| 0 <= j < s.len() ==> spec_is_digit(#[trigger] s[j]),
    ensures
        spec_dec_val(s) >= 0,
    decreases s.len(),
{
    if s.len() > 0 {
        assert(forall|j: int| 0 <= j < s.drop_last().len() ==> spec_is_digit(
            #[trigger] s.drop_last()[j],
        ));
        lemma_dec_val_nonneg(s.drop_last());
        assert(spec_dec_val(s.drop_last()) * 10 >= 0) by (nonlinear_arith)
            requires
                spec_dec_val(s.drop_last()) >= 0,
        ;
    }
}

/// Reads a run of lower-case hexadecimal digits as an unsigned value.
pub fn parse_hex_u64(s: &[u8]) -> (r: Option<u64>)
    ensures
        match r {
            Some(v) => spec_all_hex_digits(s@) && spec_hex_val(s@) == v as int,
            None => !spec_all_hex_digits(s@) || spec_hex_val(s@) > u64::MAX,
        },
{
    if s.len() == 0 {
        return None;
    }
    let mut acc: u64 = 0;
    let mut i: usize = 0;
    while i < s.len()
        invariant
            i <= s.len(),
            acc as int == spec_hex_val(s@.take(i as int)),
            forall|j: int| 0 <= j < i ==> spec_is_hex_digit(#[trigger] s@[j]),
        decreases s.len() - i,
    {
        let b = s[i];
        let d: u64 = if b >= 0x30 && b <= 0x39 {
            (b - 0x30) as u64
        } else if b >= 0x61 && b <= 0x66 {
            (b - 0x61 + 10) as u64
        } else {
            return None;
        };
        if acc > (u64::MAX - d) / 16 {
            proof {
                assert(s@.take(i as int + 1).drop_last() == s@.take(i as int));
                assert(spec_hex_val(s@.take(i as int + 1)) == acc * 16 + d);
                assert(acc * 16 + d > u64::MAX) by (nonlinear_arith)
                    requires
                        acc > (u64::MAX - d) / 16,
                        d < 16,
                ;
                if spec_all_hex_digits(s@) {
                    lemma_hex_val_grows(s@, i as int + 1);
                }
            }
            return None;
        }
        proof {
            assert(acc * 16 + d <= u64::MAX) by (nonlinear_arith)
                requires
                    acc <= (u64::MAX - d) / 16,
                    d < 16,
            ;
            assert(s@.take(i as int + 1).drop_last() == s@.take(i as int));
            assert(s@.take(i as int + 1).last() == s@[i as int]);
        }
        acc = acc * 16 + d;
        i = i + 1;
    }
    proof {
        assert(s@.take(s@.len() as int) == s@);
    }
    Some(acc)
}

proof fn lemma_hex_val_grows(s: Seq<u8>, upto: int)
    requires
        0 <= upto <= s.len(),
        forall|j: int| 0 <= j < s.len() ==> spec_is_hex_digit(#[trigger] s[j]),
    ensures
        spec_hex_val(s) >= spec_hex_val(s.take(upto)),
        spec_hex_val(s) >= 0,
    decreases s.len() - upto,
{
    if upto == s.len() {
        assert(s.take(upto) == s);
        lemma_hex_val_nonneg(s);
    } else {
        lemma_hex_val_grows(s, upto + 1);
        let t = s.take(upto + 1);
        assert(t.drop_last() == s.take(upto));
        lemma_hex_val_nonneg(s.take(upto));
        assert(spec_hex_val(t) == spec_hex_val(s.take(upto)) * 16 + spec_hex_digit_val(t.last()));
        assert(spec_hex_val(s.take(upto)) * 16 >= spec_hex_val(s.take(upto))) by (nonlinear_arith)
            requires
                spec_hex_val(s.take(upto)) >= 0,
        ;
    }
}

proof fn lemma_hex_val_nonneg(s: Seq<u8>)
    requires
        forall|j: int| 0 <= j < s.len() ==> spec_is_hex_digit(#[trigger] s[j]),
    ensures
        spec_hex_val(s) >= 0,
    decreases s.len(),
{
    if s.len() > 0 {
        assert(forall|j: int| 0 <= j < s.drop_last().len() ==> spec_is_hex_digit(
            #[trigger] s.drop_last()[j],
        ));
        lemma_hex_val_nonneg(s.drop_last());
        assert(spec_hex_val(s.drop_last()) * 16 >= 0) by (nonlinear_arith)
            requires
                spec_hex_val(s.drop_last()) >= 0,
        ;
    }
}

/// Reading the printed decimal spelling of `n` yields `n` again: the
/// spelling is all digits and its value is `n`.
pub proof fn lemma_dec_roundtrip(n: u64)
    ensures
        spec_all_digits(spec_dec_u64(n)),
        spec_dec_val(spec_dec_u64(n)) == n as int,
        spec_dec_u64(n)[0] != 0x30 || n < 10,
    decreases n,
{
    if n < 10 {
        let s = spec_dec_u64(n);
        assert(s.drop_last() =~= Seq::<u8>::empty());
        assert(spec_dec_val(s.drop_last()) == 0);
        assert(spec_dec_val(s) == n);
    } else {
        lemma_dec_roundtrip(n / 10);
        let s = spec_dec_u64(n);
        let p = spec_dec_u64(n / 10);
        assert(s == p.push((0x30 + n % 10) as u8));
        assert(s.drop_last() =~= p);
        assert(spec_dec_val(s) == spec_dec_val(p) * 10 + (n % 10));
        assert((n / 10) * 10 + n % 10 == n) by (nonlinear_arith);
        assert(forall|i: int| 0 <= i < s.len() ==> spec_is_digit(#[trigger] s[i])) by {
            assert(forall|i: int| 0 <= i < p.len() ==> spec_is_digit(#[trigger] p[i]));
            assert(s[s.len() - 1] == (0x30 + n % 10) as u8);
            assert(forall|i: int| 0 <= i < s.len() - 1 ==> s[i] == p[i]);
        }
    }
}

/// Reading the printed hexadecimal digits of `n` yields `n` again.
pub proof fn lemma_hex_roundtrip(n: u64)
    ensures
        spec_all_hex_digits(spec_hex_u64(n)),
        spec_hex_val(spec_hex_u64(n)) == n as int,
    decreases n,
{
    assert(spec_is_hex_digit(spec_hex_digit(n % 16)) && spec_hex_digit_val(spec_hex_digit(n % 16))
        == n % 16);
    if n < 16 {
        let s = spec_hex_u64(n);
        assert(s.drop_last() =~= Seq::<u8>::empty());
        assert(spec_hex_val(s.drop_last()) == 0);
        assert(spec_hex_val(s) == n);
    } else {
        lemma_hex_roundtrip(n / 16);
        let s = spec_hex_u64(n);
        let p = spec_hex_u64(n / 16);
        assert(s == p.push(spec_hex_digit(n % 16)));
        assert(s.drop_last() =~= p);
        assert(spec_hex_val(s) == spec_hex_val(p) * 16 + spec_hex_digit_val(spec_hex_digit(n % 16)));
        assert((n / 16) * 16 + n % 16 == n) by (nonlinear_arith);
        assert(forall|i: int| 0 <= i < s.len() ==> spec_is_hex_digit(#[trigger] s[i])) by {
            assert(forall|i: int| 0 <= i < p.len() ==> spec_is_hex_digit(#[trigger] p[i]));
            assert(s[s.len() - 1] == spec_hex_digit(n % 16));
            assert(forall|i: int| 0 <= i < s.len() - 1 ==> s[i] == p[i]);
        }
    }
}

} // verus!
