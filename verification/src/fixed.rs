//! Fixed-point quantities in hundredths of a unit ("centi" values).
//!
//! The engine's sensor readings and reference results are exact multiples of
//! 0.01, held as integers, so two-decimal rendering, parsing and tolerance
//! comparison are exact integer work.

use vstd::prelude::*;

use crate::text::{dec_seq, digit_char, u64_to_string};

verus! {

/// The two-decimal rendering of `r` hundredths: the integer part in decimal,
/// a dot, then exactly two fraction digits.
pub open spec fn centi_seq(r: nat) -> Seq<char> {
    dec_seq(r / 100) + seq!['.', digit_char(((r / 10) % 10) as int), digit_char((r % 10) as int)]
}

/// The two-decimal rendering of a signed count of hundredths.
pub open spec fn centi_seq_signed(v: int) -> Seq<char> {
    if v < 0 {
        seq!['-'] + centi_seq((-v) as nat)
    } else {
        centi_seq(v as nat)
    }
}

/// Renders `r` hundredths with exactly two decimals, e.g. 450 as "4.50".
pub fn format_centi(r: u64) -> (s: String)
    ensures
        s@ == centi_seq(r as nat),
{
    let mut s = u64_to_string(r / 100);
    proof {
        reveal_strlit(".");
    }
    s.append(".");
    let tens = u64_to_string((r / 10) % 10);
    s.append(tens.as_str());
    let ones = u64_to_string(r % 10);
    s.append(ones.as_str());
    proof {
        assert(s@ =~= centi_seq(r as nat));
    }
    s
}

/// Renders a signed count of hundredths, with a leading minus when negative.
pub fn format_centi_signed(v: i64) -> (s: String)
    requires
        v != i64::MIN,
    ensures
        s@ == centi_seq_signed(v as int),
{
    if v < 0 {
        proof {
            reveal_strlit("-");
        }
        let mut s = String::from_str("-");
        let rest = format_centi((-v) as u64);
        s.append(rest.as_str());
        proof {
            assert(s@ =~= centi_seq_signed(v as int));
        }
        s
    } else {
        format_centi(v as u64)
    }
}

/// A decimal digit character.
pub open spec fn is_digit(c: char) -> bool {
    48 <= c as u32 <= 57
}

/// The value of a decimal digit character.
pub open spec fn digit_val(c: char) -> int {
    c as u32 - 48
}

/// Every character of `s` is a decimal digit.
pub open spec fn all_digits(s: Seq<char>) -> bool {
    forall|k: int| 0 <= k < s.len() ==> is_digit(#[trigger] s[k])
}

/// The value of a string of decimal digits, most significant first.
pub open spec fn dec_val(s: Seq<char>) -> int
    decreases s.len(),
{
    if s.len() == 0 {
        0
    } else {
        dec_val(s.drop_last()) * 10 + digit_val(s.last())
    }
}

/// How many decimal digits `s` starts with.
pub open spec fn leading_digits(s: Seq<char>) -> nat
    decreases s.len(),
{
    if s.len() > 0 && is_digit(s[0]) {
        (1 + leading_digits(s.drop_first())) as nat
    } else {
        0
    }
}

proof fn lemma_leading_digits_from_scan(s: Seq<char>, i: int)
    requires
        0 <= i <= s.len(),
        forall|k: int| 0 <= k < i ==> is_digit(#[trigger] s[k]),
        i < s.len() ==> !is_digit(s[i]),
    ensures
        leading_digits(s) == i,
    decreases s.len(),
{
    if i == 0 {
    } else {
        lemma_leading_digits_from_scan(s.drop_first(), i - 1);
    }
}

proof fn lemma_leading_digits_props(s: Seq<char>)
    ensures
        leading_digits(s) <= s.len(),
        forall|k: int| 0 <= k < leading_digits(s) ==> is_digit(#[trigger] s[k]),
        leading_digits(s) < s.len() ==> !is_digit(s[leading_digits(s) as int]),
    decreases s.len(),
{
    if s.len() > 0 && is_digit(s[0]) {
        lemma_leading_digits_props(s.drop_first());
        assert forall|k: int| 0 <= k < leading_digits(s) implies is_digit(#[trigger] s[k]) by {
            if k > 0 {
                assert(s.drop_first()[k - 1] == s[k]);
            }
        }
        if leading_digits(s) < s.len() {
            assert(s.drop_first()[leading_digits(s) as int - 1] == s[leading_digits(s) as int]);
        }
    }
}

proof fn lemma_leading_digits_at_least(s: Seq<char>, m: int)
    requires
        0 <= m <= s.len(),
        forall|k: int| 0 <= k < m ==> is_digit(#[trigger] s[k]),
    ensures
        leading_digits(s) >= m,
    decreases s.len(),
{
    if m > 0 {
        lemma_leading_digits_at_least(s.drop_first(), m - 1);
    }
}

proof fn lemma_dec_val_nonneg(s: Seq<char>)
    requires
        all_digits(s),
    ensures
        dec_val(s) >= 0,
    decreases s.len(),
{
    if s.len() > 0 {
        assert(all_digits(s.drop_last()));
        lemma_dec_val_nonneg(s.drop_last());
    }
}

proof fn lemma_dec_val_prefix(s: Seq<char>, m: int)
    requires
        all_digits(s),
        0 <= m <= s.len(),
    ensures
        dec_val(s) >= dec_val(s.take(m)),
    decreases s.len(),
{
    lemma_dec_val_nonneg(s);
    if m < s.len() {
        assert(all_digits(s.drop_last()));
        lemma_dec_val_prefix(s.drop_last(), m);
        assert(s.drop_last().take(m) =~= s.take(m));
        lemma_dec_val_nonneg(s.drop_last());
    } else {
        assert(s.take(m) =~= s);
    }
}

/// The digits of the unsigned body before the dot (or all of them).
pub open spec fn int_part(s: Seq<char>) -> Seq<char> {
    s.take(leading_digits(s) as int)
}

/// The characters of the unsigned body after the dot; empty when there is no
/// dot.
pub open spec fn frac_part(s: Seq<char>) -> Seq<char> {
    if leading_digits(s) == s.len() {
        Seq::<char>::empty()
    } else {
        s.skip(leading_digits(s) as int + 1)
    }
}

/// A plain decimal numeral without sign: digits, optionally followed by a dot
/// and further digits, with at least one digit in all.
pub open spec fn unsigned_shape(s: Seq<char>) -> bool {
    let k = leading_digits(s) as int;
    if k == s.len() {
        k >= 1
    } else {
        s[k] == '.' && all_digits(s.skip(k + 1)) && (k >= 1 || s.len() > k + 1)
    }
}

/// The `k`-th fraction digit, taking absent digits as zero.
pub open spec fn frac_digit(f: Seq<char>, k: int) -> int {
    if 0 <= k < f.len() {
        digit_val(f[k])
    } else {
        0
    }
}

/// The value of the unsigned body in hundredths, rounded half-up at the
/// second fraction digit.
pub open spec fn unsigned_centi_val(s: Seq<char>) -> int {
    let f = frac_part(s);
    dec_val(int_part(s)) * 100 + frac_digit(f, 0) * 10 + frac_digit(f, 1) + (
    if f.len() > 2 && frac_digit(f, 2) >= 5 {
        1int
    } else {
        0int
    })
}

/// The largest integer part the parser accepts.
pub open spec fn parse_limit() -> int {
    1000000000000000
}

/// What parsing a decimal numeral into hundredths yields: `Some` exactly for
/// an optional sign followed by a well-shaped numeral whose integer part is
/// at most `parse_limit()`, rounded half-up at two decimals.
pub open spec fn parse_centi_spec(s: Seq<char>) -> Option<int> {
    let neg = s.len() > 0 && s[0] == '-';
    let body = if s.len() > 0 && (s[0] == '-' || s[0] == '+') {
        s.drop_first()
    } else {
        s
    };
    if unsigned_shape(body) && dec_val(int_part(body)) <= parse_limit() {
        if neg {
            Some(-unsigned_centi_val(body))
        } else {
            Some(unsigned_centi_val(body))
        }
    } else {
        None
    }
}

fn is_digit_char(c: char) -> (r: bool)
    ensures
        r == is_digit(c),
{
    let u = c as u32;
    48 <= u && u <= 57
}

fn char_digit_val(c: char) -> (d: u64)
    requires
        is_digit(c),
    ensures
        d as int == digit_val(c),
        d < 10,
{
    (c as u32 - 48) as u64
}

/// Parses a decimal numeral into hundredths of a unit, exactly as
/// `parse_centi_spec` describes: an optional sign, digits, an optional dot
/// and fraction digits, rounded half-up at two decimals.
#[verifier::loop_isolation(false)]
pub fn parse_centi(s: &str) -> (r: Option<i64>)
    ensures
        r is Some <==> parse_centi_spec(s@) is Some,
        r matches Some(v) ==> parse_centi_spec(s@) == Some(v as int),
        r matches Some(v) ==> -100000000000000100 <= v <= 100000000000000100,
{
    let len = s.unicode_len();
    let mut pos: usize = 0;
    let mut neg = false;
    if len > 0 {
        let c0 = s.get_char(0);
        if c0 == '-' {
            neg = true;
            pos = 1;
        } else if c0 == '+' {
            pos = 1;
        }
    }
    let ghost body = s@.skip(pos as int);
    proof {
        if pos == 1 {
            assert(body =~= s@.drop_first());
            assert(body == s@.drop_first());
        } else {
            assert(body =~= s@);
            assert(body == s@);
        }
        assert(forall|j: int| 0 <= j < body.len() ==> body[j] == s@[j + pos]);
        assert(body.take(0) =~= Seq::<char>::empty());
    }
    // scan the integer part
    let mut idx = pos;
    let mut acc: u64 = 0;
    while idx < len && is_digit_char(s.get_char(idx))
        invariant
            pos <= idx <= len,
            len == s@.len(),
            body == s@.skip(pos as int),
            forall|j: int| 0 <= j < body.len() ==> body[j] == s@[j + pos],
            forall|j: int| 0 <= j < idx - pos ==> is_digit(#[trigger] body[j]),
            acc <= 10000000000000009,
            acc as int == dec_val(body.take(idx - pos)),
        decreases len - idx,
    {
        let c = s.get_char(idx);
        proof {
            assert(body[idx - pos] == s@[idx as int]);
            assert(is_digit(body[idx - pos]));
            lemma_leading_digits_at_least(body, idx + 1 - pos);
            lemma_leading_digits_props(body);
        }
        if acc > 1000000000000000 {
            proof {
                let ip = int_part(body);
                assert(all_digits(ip)) by {
                    assert(forall|j: int|
                        0 <= j < ip.len() ==> #[trigger] ip[j] == body[j] && is_digit(body[j]));
                }
                assert(ip.take(idx - pos) =~= body.take(idx - pos));
                lemma_dec_val_prefix(ip, idx - pos);
                assert(dec_val(int_part(body)) > parse_limit());
                assert(parse_centi_spec(s@) is None);
            }
            return None;
        }
        let d = char_digit_val(c);
        proof {
            let m = idx - pos;
            assert(body.take(m + 1).drop_last() =~= body.take(m));
            assert(body.take(m + 1).last() == body[m]);
        }
        acc = acc * 10 + d;
        idx = idx + 1;
    }
    let ghost k = idx - pos;
    proof {
        if idx < len {
            assert(!is_digit(body[k]));
        }
        lemma_leading_digits_from_scan(body, k);
        assert(int_part(body) =~= body.take(k));
    }
    if acc > 1000000000000000 {
        return None;
    }
    // scan the fraction part, if a dot follows
    let mut f0: u64 = 0;
    let mut f1: u64 = 0;
    let mut round_up = false;
    let ghost mut frac = Seq::<char>::empty();
    if idx < len {
        let c = s.get_char(idx);
        proof {
            assert(body[k] == s@[idx as int]);
        }
        if c != '.' {
            return None;
        }
        let int_digits = idx - pos;
        idx = idx + 1;
        let ghost fstart = idx as int;
        proof {
            frac = body.skip(k + 1);
            assert(frac =~= frac_part(body));
            assert forall|j: int| 0 <= j < frac.len() implies frac[j] == s@[j + fstart] by {
                assert(frac[j] == body[j + k + 1]);
            }
        }
        let mut fcount: usize = 0;
        while idx < len
            invariant
                fstart <= idx <= len,
                len == s@.len(),
                fcount == idx - fstart,
                frac.len() == len - fstart,
                forall|j: int| 0 <= j < frac.len() ==> frac[j] == s@[j + fstart],
                forall|j: int| 0 <= j < fcount ==> is_digit(#[trigger] frac[j]),
                if fcount >= 1 {
                    f0 as int == digit_val(frac[0])
                } else {
                    f0 == 0
                },
                if fcount >= 2 {
                    f1 as int == digit_val(frac[1])
                } else {
                    f1 == 0
                },
                round_up == (fcount >= 3 && digit_val(frac[2]) >= 5),
                f0 < 10,
                f1 < 10,
            decreases len - idx,
        {
            let c = s.get_char(idx);
            proof {
                assert(frac[fcount as int] == s@[idx as int]);
            }
            if !is_digit_char(c) {
                proof {
                    assert(!all_digits(frac));
                    assert(!unsigned_shape(body));
                }
                return None;
            }
            let d = char_digit_val(c);
            if fcount == 0 {
                f0 = d;
            } else if fcount == 1 {
                f1 = d;
            } else if fcount == 2 {
                round_up = d >= 5;
            }
            fcount = fcount + 1;
            idx = idx + 1;
        }
        if int_digits == 0 && fcount == 0 {
            // a dot with no digits on either side
            proof {
                assert(!unsigned_shape(body));
            }
            return None;
        }
        proof {
            assert(all_digits(frac));
            assert(unsigned_shape(body));
        }
    } else {
        if idx == pos {
            // no digits at all
            proof {
                assert(!unsigned_shape(body));
            }
            return None;
        }
        proof {
            assert(k == body.len());
            assert(unsigned_shape(body));
            assert(frac =~= frac_part(body));
        }
    }
    let mag: u64 = acc * 100 + f0 * 10 + f1 + (
    if round_up {
        1
    } else {
        0
    });
    let v: i64 = if neg {
        -(mag as i64)
    } else {
        mag as i64
    };
    proof {
        assert(mag as int == unsigned_centi_val(body));
    }
    Some(v)
}

/// Whether two counts of hundredths differ by less than a tenth of a unit.
pub fn within_tolerance(a: i64, b: i64) -> (r: bool)
    ensures
        r == (-10 < a - b < 10),
{
    let d: i128 = a as i128 - b as i128;
    -10 < d && d < 10
}

} // verus!
