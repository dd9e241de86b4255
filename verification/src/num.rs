//! Decimal formatting and parsing of unsigned 64-bit integers, used for
//! version strings, `Range` header values and `Content-Length` values.

use vstd::prelude::*;

verus! {

/// Whether `c` is an ASCII decimal digit.
pub open spec fn is_dec_digit(c: char) -> bool {
    48 <= c as u32 <= 57
}

/// Numeric value of an ASCII decimal digit.
pub open spec fn digit_val(c: char) -> nat {
    (c as u32 - 48) as nat
}

/// The ASCII digit character for a value below ten.
pub open spec fn digit_char(d: nat) -> char {
    ((d + 48) as u32) as char
}

/// The decimal digit string of `n`, most significant digit first.
pub open spec fn spec_dec_digits(n: nat) -> Seq<char>
    decreases n,
{
    if n < 10 {
        seq![digit_char(n)]
    } else {
        spec_dec_digits(n / 10).push(digit_char(n % 10))
    }
}

/// The numeric value of a digit string, read most significant digit first.
pub open spec fn dec_seq_val(s: Seq<char>) -> nat
    decreases s.len(),
{
    if s.len() == 0 {
        0
    } else {
        dec_seq_val(s.drop_last()) * 10 + digit_val(s.last())
    }
}

/// A non-empty string made of decimal digits only.
pub open spec fn is_dec_string(s: Seq<char>) -> bool {
    s.len() > 0 && forall|i: int| 0 <= i < s.len() ==> is_dec_digit(#[trigger] s[i])
}

/// Why a decimal string failed to parse.
#[derive(Clone, Copy, Debug, PartialEq, Eq, Structural)]
pub enum NumParseError {
    /// The input was empty.
    Empty,
    /// The input held a character that is not a decimal digit.
    InvalidDigit,
    /// The value does not fit in 64 bits.
    Overflow,
}

/// Appends the single ASCII digit `d` to `s`.
fn append_digit(s: &mut String, d: u64)
    requires
        d < 10,
    ensures
        final(s)@ == old(s)@ + seq![digit_char(d as nat)],
{
    if d == 0 {
        proof { reveal_strlit("0"); }
        s.append("0");
    } else if d == 1 {
        proof { reveal_strlit("1"); }
        s.append("1");
    } else if d == 2 {
        proof { reveal_strlit("2"); }
        s.append("2");
    } else if d == 3 {
        proof { reveal_strlit("3"); }
        s.append("3");
    } else if d == 4 {
        proof { reveal_strlit("4"); }
        s.append("4");
    } else if d == 5 {
        proof { reveal_strlit("5"); }
        s.append("5");
    } else if d == 6 {
        proof { reveal_strlit("6"); }
        s.append("6");
    } else if d == 7 {
        proof { reveal_strlit("7"); }
        s.append("7");
    } else if d == 8 {
        proof { reveal_strlit("8"); }
        s.append("8");
    } else {
        proof { reveal_strlit("9"); }
        s.append("9");
    }
    proof {
        assert(final(s)@ =~= old(s)@ + seq![digit_char(d as nat)]);
    }
}

/// Appends one decimal digit character to `s` unchanged.
pub fn append_digit_char(s: &mut String, c: char)
    requires
        is_dec_digit(c),
    ensures
        final(s)@ == old(s)@ + seq![c],
{
    let u = c as u32;
    append_digit(s, (u - 48) as u64);
    proof {
        assert(digit_char((u - 48) as nat) == c);
    }
}

/// Appends the decimal representation of `n` to `s`.
pub fn append_dec_u64(s: &mut String, n: u64)
    ensures
        final(s)@ == old(s)@ + spec_dec_digits(n as nat),
    decreases n,
{
    if n >= 10 {
        append_dec_u64(s, n / 10);
    }
    append_digit(s, n % 10);
    proof {
        assert(final(s)@ =~= old(s)@ + spec_dec_digits(n as nat));
    }
}

/// The decimal representation of `n`.
pub fn u64_to_dec_string(n: u64) -> (r: String)
    ensures
        r@ == spec_dec_digits(n as nat),
{
    let mut s = String::new();
    append_dec_u64(&mut s, n);
    proof {
        assert(s@ =~= spec_dec_digits(n as nat));
    }
    s
}

/// Round-trip law: the decimal rendering of `n` is a digit string whose
/// value is `n` again, so parsing what was rendered always succeeds.
pub proof fn lemma_dec_digits_round_trip(n: nat)
    ensures
        is_dec_string(spec_dec_digits(n)),
        dec_seq_val(spec_dec_digits(n)) == n,
    decreases n,
{
    let s = spec_dec_digits(n);
    if n < 10 {
        assert(digit_char(n) as u32 == n + 48);
        assert(digit_val(digit_char(n)) == n);
        assert(s.drop_last() =~= Seq::<char>::empty());
        assert(s.last() == digit_char(n));
        assert(dec_seq_val(s) == dec_seq_val(s.drop_last()) * 10 + digit_val(s.last()));
        assert(dec_seq_val(s.drop_last()) == 0);
    } else {
        lemma_dec_digits_round_trip(n / 10);
        vstd::arithmetic::div_mod::lemma_fundamental_div_mod(n as int, 10);
        assert(s.drop_last() =~= spec_dec_digits(n / 10));
        assert(dec_seq_val(s.drop_last()) == n / 10);
        assert(digit_char(n % 10) as u32 == n % 10 + 48);
        assert(digit_val(digit_char(n % 10)) == n % 10);
        assert(forall|i: int|
            0 <= i < s.len() - 1 ==> #[trigger] s[i] == spec_dec_digits(n / 10)[i]);
    }
}

/// A digit prefix never exceeds the value of the whole digit string.
pub proof fn lemma_dec_prefix_le(s: Seq<char>, j: int)
    requires
        0 <= j <= s.len(),
    ensures
        dec_seq_val(s.subrange(0, j)) <= dec_seq_val(s),
    decreases s.len() - j,
{
    if j < s.len() {
        let t = s.subrange(0, j + 1);
        assert(t.drop_last() =~= s.subrange(0, j));
        assert(dec_seq_val(s.subrange(0, j)) <= dec_seq_val(t)) by {
            assert(dec_seq_val(t) == dec_seq_val(t.drop_last()) * 10 + digit_val(t.last()));
            assert(dec_seq_val(t.drop_last()) * 10 >= dec_seq_val(t.drop_last())) by (nonlinear_arith);
        }
        lemma_dec_prefix_le(s, j + 1);
        assert(s.subrange(0, s.len() as int) =~= s);
    } else {
        assert(s.subrange(0, j) =~= s);
    }
}

/// The characters of `s`, one by one.
pub fn str_chars(s: &str) -> (r: Vec<char>)
    ensures
        r@ == s@,
{
    let n = s.unicode_len();
    let mut out: Vec<char> = Vec::new();
    let mut i: usize = 0;
    while i < n
        invariant
            n == s@.len(),
            0 <= i <= n,
            out@ =~= s@.subrange(0, i as int),
        decreases n - i,
    {
        out.push(s.get_char(i));
        proof {
            assert(out@ =~= s@.subrange(0, i + 1 as int));
        }
        i = i + 1;
    }
    proof {
        assert(out@ =~= s@);
    }
    out
}

/// Parses a non-empty all-digit string as an unsigned 64-bit value.
///
/// Succeeds exactly on non-empty digit-only inputs whose value fits in 64
/// bits; the error says which of the three conditions failed.
pub fn parse_dec_u64(s: &str) -> (r: Result<u64, NumParseError>)
    ensures
        match r {
            Ok(v) => is_dec_string(s@) && v == dec_seq_val(s@) && dec_seq_val(s@) <= u64::MAX,
            Err(NumParseError::Empty) => s@.len() == 0,
            Err(NumParseError::InvalidDigit) => s@.len() > 0 && !is_dec_string(s@),
            Err(NumParseError::Overflow) => is_dec_string(s@) && dec_seq_val(s@) > u64::MAX,
        },
        r is Ok <==> is_dec_string(s@) && dec_seq_val(s@) <= u64::MAX,
        r == Err::<u64, NumParseError>(NumParseError::Empty) <==> s@.len() == 0,
{
    let chars = str_chars(s);
    parse_dec_chars(&chars)
}

/// Parses a non-empty all-digit character sequence as an unsigned 64-bit
/// value, with the same success and error conditions as [`parse_dec_u64`].
pub fn parse_dec_chars(s: &Vec<char>) -> (r: Result<u64, NumParseError>)
    ensures
        match r {
            Ok(v) => is_dec_string(s@) && v == dec_seq_val(s@) && dec_seq_val(s@) <= u64::MAX,
            Err(NumParseError::Empty) => s@.len() == 0,
            Err(NumParseError::InvalidDigit) => s@.len() > 0 && !is_dec_string(s@),
            Err(NumParseError::Overflow) => is_dec_string(s@) && dec_seq_val(s@) > u64::MAX,
        },
        r is Ok <==> is_dec_string(s@) && dec_seq_val(s@) <= u64::MAX,
        r == Err::<u64, NumParseError>(NumParseError::Empty) <==> s@.len() == 0,
{
    let n = s.len();
    if n == 0 {
        return Err(NumParseError::Empty);
    }
    let mut i: usize = 0;
    while i < n
        invariant
            n == s@.len(),
            0 <= i <= n,
            forall|k: int| 0 <= k < i ==> is_dec_digit(#[trigger] s@[k]),
        decreases n - i,
    {
        let c = s[i];
        let u = c as u32;
        if u < 48 || u > 57 {
            return Err(NumParseError::InvalidDigit);
        }
        i = i + 1;
    }
    let mut acc: u64 = 0;
    let mut j: usize = 0;
    while j < n
        invariant
            n == s@.len(),
            0 <= j <= n,
            is_dec_string(s@),
            acc == dec_seq_val(s@.subrange(0, j as int)),
        decreases n - j,
    {
        let c = s[j];
        let d = (c as u32 - 48) as u64;
        let shifted = match acc.checked_mul(10) {
            Some(v) => v,
            None => {
                proof {
                    let t = s@.subrange(0, j + 1);
                    assert(t.drop_last() =~= s@.subrange(0, j as int));
                    assert(dec_seq_val(t) > u64::MAX);
                    lemma_dec_prefix_le(s@, j + 1);
                    assert(s@.subrange(0, s@.len() as int) =~= s@);
                }
                return Err(NumParseError::Overflow);
            },
        };
        let next = match shifted.checked_add(d) {
            Some(v) => v,
            None => {
                proof {
                    let t = s@.subrange(0, j + 1);
                    assert(t.drop_last() =~= s@.subrange(0, j as int));
                    assert(dec_seq_val(t) > u64::MAX);
                    lemma_dec_prefix_le(s@, j + 1);
                    assert(s@.subrange(0, s@.len() as int) =~= s@);
                }
                return Err(NumParseError::Overflow);
            },
        };
        proof {
            let t = s@.subrange(0, j + 1);
            assert(t.drop_last() =~= s@.subrange(0, j as int));
            assert(t.last() == s@[j as int]);
        }
        acc = next;
        j = j + 1;
    }
    proof {
        assert(s@.subrange(0, n as int) =~= s@);
    }
    Ok(acc)
}

} // verus!
