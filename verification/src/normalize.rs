//! Numeric normalization: provider-supplied decimal strings become
//! fixed-width integers, with overflow detected rather than truncated.
//!
//! A magnitude string is parsed as a non-negative 128-bit value first, so
//! upstream values beyond 64 bits survive the parse, and is narrowed to the
//! 64-bit signed storage range in a second, separately reported step.

use vstd::prelude::*;

use crate::errors::TooLargeError;
use crate::errors::TooLargeV;
use crate::errors::tl_res_view;

verus! {

/// A decimal digit character.
pub open spec fn is_digit_char(c: char) -> bool {
    48 <= c as u32 <= 57
}

/// The numeric value of one digit character.
pub open spec fn digit_val(c: char) -> nat {
    (c as u32 - 48) as nat
}

pub open spec fn all_digits(s: Seq<char>) -> bool {
    forall|i: int| 0 <= i < s.len() ==> is_digit_char(#[trigger] s[i])
}

/// A well-formed magnitude string: non-empty and decimal digits only.
pub open spec fn is_dec_string(s: Seq<char>) -> bool {
    s.len() > 0 && all_digits(s)
}

/// The integer a digit string denotes, most significant digit first.
pub open spec fn dec_value(s: Seq<char>) -> nat
    decreases s.len(),
{
    if s.len() == 0 {
        0
    } else {
        dec_value(s.drop_last()) * 10 + digit_val(s.last())
    }
}

/// Extending a digit string by one character never shrinks its value.
proof fn lemma_dec_value_extend(s: Seq<char>, i: int)
    requires
        0 <= i < s.len(),
    ensures
        dec_value(s.take(i)) <= dec_value(s.take(i + 1)),
{
    assert(s.take(i + 1).drop_last() =~= s.take(i));
    assert(dec_value(s.take(i + 1)) == dec_value(s.take(i)) * 10 + digit_val(s.take(i + 1).last()));
}

/// The value of a digit string dominates the value of each of its prefixes.
pub proof fn lemma_dec_value_prefix(s: Seq<char>, i: int)
    requires
        0 <= i <= s.len(),
    ensures
        dec_value(s.take(i)) <= dec_value(s),
    decreases s.len() - i,
{
    if i == s.len() {
        assert(s.take(i) =~= s);
    } else {
        lemma_dec_value_extend(s, i);
        lemma_dec_value_prefix(s, i + 1);
    }
}

/// Parses a magnitude string. Returns the denoted value exactly when the
/// string is non-empty, all digits, and denotes at most `u128::MAX`;
/// returns `None` otherwise.
pub fn parse_magnitude(s: &str) -> (r: Option<u128>)
    ensures
        r is Some <==> is_dec_string(s@) && dec_value(s@) <= u128::MAX,
        r matches Some(v) ==> v == dec_value(s@),
{
    let n = s.unicode_len();
    if n == 0 {
        return None;
    }
    let mut acc: u128 = 0;
    let mut i: usize = 0;
    while i < n
        invariant
            0 <= i <= n,
            n == s@.len(),
            all_digits(s@.take(i as int)),
            acc == dec_value(s@.take(i as int)),
        decreases n - i,
    {
        let c = s.get_char(i);
        let d32 = c as u32;
        if d32 < 48 || d32 > 57 {
            assert(!is_digit_char(s@[i as int]));
            return None;
        }
        let d = (d32 - 48) as u128;
        if acc > u128::MAX / 10 || (acc == u128::MAX / 10 && d > u128::MAX % 10) {
            proof {
                assert(s@.take(i + 1).drop_last() =~= s@.take(i as int));
                assert(dec_value(s@.take(i + 1)) == acc * 10 + digit_val(s@[i as int]));
                assert(acc * 10 + digit_val(s@[i as int]) > u128::MAX);
                lemma_dec_value_prefix(s@, i + 1);
            }
            return None;
        }
        proof {
            assert(acc * 10 + d <= u128::MAX);
            assert(s@.take(i + 1).drop_last() =~= s@.take(i as int));
        }
        acc = acc * 10 + d;
        i = i + 1;
    }
    proof {
        assert(s@.take(n as int) =~= s@);
    }
    Some(acc)
}

/// A fractional wire field held as a fixed-precision decimal: the value
/// scaled by `10^8`, digits beyond the eighth fractional place dropped.
/// Eight fractional digits is the storage precision of the pipeline's
/// ratio and price columns.
#[derive(Clone, Copy, PartialEq, Eq, Structural, Debug)]
pub struct FixedDec {
    pub scaled: i64,
}

/// `10^k`.
pub open spec fn pow10(k: nat) -> nat
    decreases k,
{
    if k == 0 {
        1
    } else {
        10 * pow10((k - 1) as nat)
    }
}

/// Index of the first `.` in `s`, or `s.len()` when there is none.
pub open spec fn first_dot(s: Seq<char>) -> int
    decreases s.len(),
{
    if s.len() == 0 {
        0
    } else if s[0] == '.' {
        0
    } else {
        1 + first_dot(s.skip(1))
    }
}

/// The scaled value of a fractional digit string: the first eight digits,
/// padded with zeros up to eight places.
pub open spec fn frac_scaled(fr: Seq<char>) -> nat {
    let fd = if fr.len() >= 8 {
        fr.take(8)
    } else {
        fr
    };
    dec_value(fd) * pow10((8 - fd.len()) as nat)
}

/// The grammar and value of a fractional wire field: an optional minus
/// sign, a non-empty run of digits, and optionally a dot followed by
/// digits. `None` for anything else, and for a value whose scaled
/// magnitude exceeds `i64::MAX`.
pub open spec fn fixed_of(s: Seq<char>) -> Option<FixedDec> {
    let neg = s.len() > 0 && s[0] == '-';
    let body = if neg {
        s.skip(1)
    } else {
        s
    };
    let d = first_dot(body);
    let int_part = body.take(d);
    let frac = if d == body.len() {
        Seq::<char>::empty()
    } else {
        body.skip(d + 1)
    };
    if is_dec_string(int_part) && all_digits(frac) {
        let scaled = dec_value(int_part) * 100000000 + frac_scaled(frac);
        if scaled <= i64::MAX {
            Some(
                FixedDec {
                    scaled: if neg {
                        (-(scaled as int)) as i64
                    } else {
                        scaled as i64
                    },
                },
            )
        } else {
            None
        }
    } else {
        None
    }
}

/// When no dot stands among the first `i` characters, the first dot of the
/// whole string is `i` positions past the first dot of the rest.
proof fn lemma_first_dot_skip(body: Seq<char>, i: int)
    requires
        0 <= i <= body.len(),
        forall|j: int| 0 <= j < i ==> body[j] != '.',
    ensures
        first_dot(body) == i + first_dot(body.skip(i)),
    decreases i,
{
    if i == 0 {
        assert(body.skip(0) =~= body);
    } else {
        lemma_first_dot_skip(body, i - 1);
        assert(body.skip(i - 1)[0] == body[i - 1]);
        assert(body.skip(i - 1).skip(1) =~= body.skip(i));
    }
}

/// A run of digits values strictly under `10^len`.
pub proof fn lemma_dec_value_digits_bound(s: Seq<char>)
    requires
        all_digits(s),
    ensures
        dec_value(s) < pow10(s.len()),
    decreases s.len(),
{
    if s.len() > 0 {
        assert(all_digits(s.drop_last())) by {
            assert(forall|i: int|
                0 <= i < s.len() - 1 ==> s.drop_last()[i] == #[trigger] s[i]);
        }
        lemma_dec_value_digits_bound(s.drop_last());
        assert(digit_val(s.last()) <= 9);
    }
}

/// Finds the first dot at or past `off`, as an absolute index; `s@.len()`
/// stands in when there is none.
fn find_first_dot(s: &str, off: usize) -> (r: usize)
    requires
        off <= s@.len(),
    ensures
        off <= r <= s@.len(),
        r - off == first_dot(s@.skip(off as int)),
        r < s@.len() ==> s@[r as int] == '.',
{
    let ghost body = s@.skip(off as int);
    let n = s.unicode_len();
    let mut i: usize = off;
    while i < n
        invariant
            off <= i <= n,
            n == s@.len(),
            body == s@.skip(off as int),
            forall|j: int| 0 <= j < i - off ==> body[j] != '.',
        decreases n - i,
    {
        let c = s.get_char(i);
        proof {
            assert(body[i - off] == s@[i as int]);
        }
        if c == '.' {
            proof {
                lemma_first_dot_skip(body, i - off);
                assert(body.skip(i - off)[0] == body[i - off]);
            }
            return i;
        }
        i = i + 1;
    }
    proof {
        lemma_first_dot_skip(body, n - off);
        assert(body.skip(n - off) =~= Seq::<char>::empty());
    }
    n
}

/// Parses the digit run `s@.subrange(from, to)` under an overflow bound.
/// `Some` exactly when the run is all digits and values at most `bound`.
fn parse_digit_run(s: &str, from: usize, to: usize, bound: u64) -> (r: Option<u64>)
    requires
        from <= to <= s@.len(),
    ensures
        r is Some <==> all_digits(s@.subrange(from as int, to as int)) && dec_value(
            s@.subrange(from as int, to as int),
        ) <= bound,
        r matches Some(v) ==> v == dec_value(s@.subrange(from as int, to as int)),
{
    let ghost sub = s@.subrange(from as int, to as int);
    let mut acc: u64 = 0;
    let mut i: usize = from;
    while i < to
        invariant
            from <= i <= to <= s@.len(),
            sub == s@.subrange(from as int, to as int),
            all_digits(sub.take(i - from)),
            acc == dec_value(sub.take(i - from)),
            acc <= bound,
        decreases to - i,
    {
        let c = s.get_char(i);
        proof {
            assert(sub[i - from] == s@[i as int]);
        }
        let d32 = c as u32;
        if d32 < 48 || d32 > 57 {
            assert(!is_digit_char(sub[i - from]));
            return None;
        }
        let d = (d32 - 48) as u64;
        proof {
            assert(sub.take(i - from + 1).drop_last() =~= sub.take(i - from));
            assert(dec_value(sub.take(i - from + 1)) == acc * 10 + digit_val(sub[i - from]));
        }
        if d > bound || acc > (bound - d) / 10 {
            proof {
                assert(acc * 10 + d > bound);
                lemma_dec_value_prefix(sub, i - from + 1);
            }
            return None;
        }
        proof {
            assert(acc * 10 + d <= bound);
        }
        acc = acc * 10 + d;
        i = i + 1;
    }
    proof {
        assert(sub.take(to - from) =~= sub);
    }
    Some(acc)
}

/// Checks that `s@.subrange(from, to)` is digits throughout.
fn check_digits(s: &str, from: usize, to: usize) -> (r: bool)
    requires
        from <= to <= s@.len(),
    ensures
        r == all_digits(s@.subrange(from as int, to as int)),
{
    let ghost sub = s@.subrange(from as int, to as int);
    let mut i: usize = from;
    while i < to
        invariant
            from <= i <= to <= s@.len(),
            sub == s@.subrange(from as int, to as int),
            all_digits(sub.take(i - from)),
        decreases to - i,
    {
        let c = s.get_char(i);
        proof {
            assert(sub[i - from] == s@[i as int]);
        }
        let d32 = c as u32;
        if d32 < 48 || d32 > 57 {
            assert(!is_digit_char(sub[i - from]));
            return false;
        }
        proof {
            assert(forall|j: int|
                0 <= j < i - from + 1 ==> sub.take(i - from + 1)[j] == #[trigger] sub.take(
                    i - from + 1,
                )[j] && sub.take(i - from + 1)[j] == sub[j]);
        }
        i = i + 1;
    }
    proof {
        assert(sub.take(to - from) =~= sub);
    }
    true
}

/// Parses the fractional digit run `s@.subrange(from, s@.len())` and scales
/// it to eight places; `Some` exactly when the run is digits throughout.
fn parse_frac_run(s: &str, from: usize) -> (r: Option<u64>)
    requires
        from <= s@.len(),
    ensures
        r is Some <==> all_digits(s@.subrange(from as int, s@.len() as int)),
        r matches Some(v) ==> v == frac_scaled(s@.subrange(from as int, s@.len() as int)) && v
            < 100000000,
{
    let ghost fr = s@.subrange(from as int, s@.len() as int);
    let n = s.unicode_len();
    let fe = if n - from >= 8 {
        from + 8
    } else {
        n
    };
    let ghost fd: Seq<char> = if fr.len() >= 8 {
        fr.take(8)
    } else {
        fr
    };
    proof {
        assert(fd =~= s@.subrange(from as int, fe as int));
    }
    let facc0 = match parse_digit_run(s, from, fe, 99999999u64) {
        Some(v) => v,
        None => {
            proof {
                if all_digits(fd) {
                    lemma_dec_value_digits_bound(fd);
                    lemma_pow10_le(fd.len() as nat, 8);
                    assert(pow10(8) == 100000000) by {
                        reveal_with_fuel(pow10, 9);
                    }
                    assert(false);
                }
                let k = choose|k: int| 0 <= k < fd.len() && !is_digit_char(fd[k]);
                assert(fr[k] == fd[k]);
                assert(!all_digits(fr));
            }
            return None;
        },
    };
    if !check_digits(s, fe, n) {
        proof {
            let tail = s@.subrange(fe as int, n as int);
            let k = choose|k: int| 0 <= k < tail.len() && !is_digit_char(tail[k]);
            assert(fr[k + (fe - from)] == tail[k]);
            assert(!all_digits(fr));
        }
        return None;
    }
    let fd_len = fe - from;
    proof {
        let tail = s@.subrange(fe as int, n as int);
        assert forall|j: int| 0 <= j < fr.len() implies is_digit_char(#[trigger] fr[j]) by {
            if j < fd_len {
                assert(fr[j] == fd[j]);
            } else {
                assert(fr[j] == tail[j - fd_len]);
            }
        }
        assert(facc0 == dec_value(fd));
        lemma_dec_value_digits_bound(fd);
        lemma_pow10_le(fd.len() as nat, 8);
        assert(pow10(8) == 100000000) by {
            reveal_with_fuel(pow10, 9);
        }
        assert(pow10(0) == 1);
        assert(facc0 == dec_value(fd) * pow10(0));
    }
    let mut facc: u64 = facc0;
    let mut k: usize = fd_len;
    while k < 8
        invariant
            fd_len <= k <= 8,
            fd.len() == fd_len,
            facc == dec_value(fd) * pow10((k - fd_len) as nat),
            facc < pow10(k as nat),
            pow10(k as nat) <= pow10(8),
            pow10(8) == 100000000,
        decreases 8 - k,
    {
        proof {
            lemma_pow10_le((k + 1) as nat, 8);
            assert(pow10((k + 1) as nat) == 10 * pow10(k as nat));
            assert(pow10((k + 1 - fd_len) as nat) == 10 * pow10((k - fd_len) as nat));
            assert(dec_value(fd) * (10 * pow10((k - fd_len) as nat)) == (dec_value(fd) * pow10(
                (k - fd_len) as nat,
            )) * 10) by (nonlinear_arith);
        }
        facc = facc * 10;
        k = k + 1;
    }
    proof {
        assert(facc == frac_scaled(fr));
    }
    Some(facc)
}

/// Parses a fractional wire field into its fixed-precision image, exactly
/// as `fixed_of` lays the grammar down.
pub fn parse_fixed(s: &str) -> (r: Option<FixedDec>)
    ensures
        r == fixed_of(s@),
{
    let n = s.unicode_len();
    let neg = n > 0 && s.get_char(0) == '-';
    let off: usize = if neg {
        1
    } else {
        0
    };
    let ghost body: Seq<char> = if neg {
        s@.skip(1)
    } else {
        s@
    };
    proof {
        assert(body =~= s@.skip(off as int));
    }
    let d_abs = find_first_dot(s, off);
    let ghost d = first_dot(body);
    proof {
        assert(d == d_abs - off);
        assert(body.take(d) =~= s@.subrange(off as int, d_abs as int));
    }
    let int_acc = match parse_digit_run(s, off, d_abs, 92233720368u64) {
        Some(v) => v,
        None => {
            proof {
                let ip = body.take(d);
                if all_digits(ip) {
                    assert(dec_value(ip) >= 92233720369);
                    assert(dec_value(ip) * 100000000 >= 92233720369u64 * 100000000) by (nonlinear_arith)
                        requires
                            dec_value(ip) >= 92233720369,
                    ;
                }
            }
            return None;
        },
    };
    if d_abs == off {
        proof {
            assert(body.take(0) =~= Seq::<char>::empty());
        }
        return None;
    }
    let ghost frac: Seq<char> = if d == body.len() {
        Seq::<char>::empty()
    } else {
        body.skip(d + 1)
    };
    let mut fval: u64 = 0;
    if d_abs < n {
        proof {
            assert(frac =~= s@.subrange(d_abs + 1, n as int));
        }
        fval = match parse_frac_run(s, d_abs + 1) {
            Some(v) => v,
            None => {
                return None;
            },
        };
    } else {
        proof {
            assert(frac =~= Seq::<char>::empty());
            lemma_frac_scaled_empty();
        }
    }
    proof {
        assert(fval == frac_scaled(frac));
        assert(fval < 100000000);
    }
    let scaled_u: u64 = int_acc * 100000000 + fval;
    if scaled_u > 9223372036854775807u64 {
        return None;
    }
    let sc: i64 = scaled_u as i64;
    if neg {
        Some(FixedDec { scaled: -sc })
    } else {
        Some(FixedDec { scaled: sc })
    }
}

/// An absent fractional part scales to zero.
proof fn lemma_frac_scaled_empty()
    ensures
        frac_scaled(Seq::<char>::empty()) == 0,
{
    let e = Seq::<char>::empty();
    assert(e.len() < 8);
    assert(dec_value(e) == 0);
    assert(frac_scaled(e) == dec_value(e) * pow10((8 - e.len()) as nat));
}

/// `pow10` is monotone.
pub proof fn lemma_pow10_le(a: nat, b: nat)
    requires
        a <= b,
    ensures
        pow10(a) <= pow10(b),
    decreases b,
{
    if a < b {
        lemma_pow10_le(a, (b - 1) as nat);
    }
}

/// Narrows a decoded magnitude to the 64-bit signed storage range; a value
/// above `i64::MAX` is a hard failure naming the field, never a truncation.
pub fn narrow_magnitude(v: u128, field: &str) -> (r: Result<i64, TooLargeError>)
    ensures
        tl_res_view(r) == spec_narrow(v, field@),
{
    if v <= i64::MAX as u128 {
        Ok(v as i64)
    } else {
        Err(TooLargeError { field: field.to_owned(), value: v })
    }
}

/// What narrowing yields: the same value as a 64-bit signed integer, or a
/// too-large report carrying the field name and the offending value.
pub open spec fn spec_narrow(v: u128, field: Seq<char>) -> Result<i64, TooLargeV> {
    if v <= i64::MAX {
        Ok(v as i64)
    } else {
        Err(TooLargeV { field, value: v })
    }
}

} // verus!
