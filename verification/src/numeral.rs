use vstd::prelude::*;
use vstd::string::StrSliceExecFns;
use crate::model::{UNIT, DEC_CAP};

verus! {

pub open spec fn is_digit(c: char) -> bool {
    48 <= c as u32 && c as u32 <= 57
}

pub open spec fn digit_val(c: char) -> int {
    c as u32 - 48
}

pub open spec fn all_digits(s: Seq<char>) -> bool {
    forall|i: int| 0 <= i < s.len() ==> is_digit(#[trigger] s[i])
}

/// The value of a digit string read as a base-ten numeral.
pub open spec fn digits_val(s: Seq<char>) -> int
    decreases s.len(),
{
    if s.len() == 0 {
        0
    } else {
        10 * digits_val(s.drop_last()) + digit_val(s.last())
    }
}

/// The index of the first `.` in `s`, or `s.len()` when there is none.
pub open spec fn dot_index(s: Seq<char>) -> int
    decreases s.len(),
{
    if s.len() == 0 {
        0
    } else if s[0] == '.' {
        0
    } else {
        1 + dot_index(s.skip(1))
    }
}

pub open spec fn int_part(s: Seq<char>) -> Seq<char> {
    s.take(dot_index(s))
}

pub open spec fn frac_part(s: Seq<char>) -> Seq<char> {
    if dot_index(s) < s.len() {
        s.skip(dot_index(s) + 1)
    } else {
        Seq::<char>::empty()
    }
}

/// A plain decimal numeral: at least one digit, then optionally a dot and
/// further digits. No sign, no exponent.
pub open spec fn valid_numeral(s: Seq<char>) -> bool {
    &&& int_part(s).len() > 0
    &&& all_digits(int_part(s))
    &&& all_digits(frac_part(s))
}

pub open spec fn pow10(n: nat) -> int
    decreases n,
{
    if n == 0 {
        1
    } else {
        10 * pow10((n - 1) as nat)
    }
}

/// The first nine fractional digits, scaled to fixed-point steps.
pub open spec fn frac_val(f: Seq<char>) -> int {
    if f.len() >= 9 {
        digits_val(f.take(9))
    } else {
        digits_val(f) * pow10((9 - f.len()) as nat)
    }
}

/// What a numeral denotes in fixed-point steps, truncated beyond nine
/// fractional digits. Anything but a plain numeral counts as zero (this
/// swallows a negative zero), and a value of a billion units or more is
/// capped at `DEC_CAP`.
pub open spec fn dec_to_fixed(s: Seq<char>) -> int {
    if !valid_numeral(s) {
        0
    } else if int_part(s).len() > 9 {
        DEC_CAP as int
    } else {
        digits_val(int_part(s)) * (UNIT as int) + frac_val(frac_part(s))
    }
}

pub proof fn lemma_dot_index(s: Seq<char>)
    ensures
        0 <= dot_index(s) <= s.len(),
        forall|j: int| 0 <= j < dot_index(s) ==> s[j] != '.',
        dot_index(s) < s.len() ==> s[dot_index(s)] == '.',
    decreases s.len(),
{
    if s.len() == 0 {
    } else if s[0] == '.' {
    } else {
        lemma_dot_index(s.skip(1));
        assert forall|j: int| 0 <= j < dot_index(s) implies s[j] != '.' by {
            if j > 0 {
                assert(s.skip(1)[j - 1] == s[j]);
            }
        }
        if dot_index(s) < s.len() {
            assert(s.skip(1)[dot_index(s) - 1] == s[dot_index(s)]);
        }
    }
}

pub proof fn lemma_digits_val_bound(s: Seq<char>)
    requires
        all_digits(s),
    ensures
        0 <= digits_val(s) < pow10(s.len()),
    decreases s.len(),
{
    if s.len() == 0 {
    } else {
        assert(is_digit(s[s.len() - 1]));
        lemma_digits_val_bound(s.drop_last());
    }
}

pub proof fn lemma_digits_val_step(s: Seq<char>, k: int)
    requires
        0 <= k < s.len(),
    ensures
        digits_val(s.take(k + 1)) == 10 * digits_val(s.take(k)) + digit_val(s[k]),
{
    assert(s.take(k + 1).drop_last() =~= s.take(k));
    assert(s.take(k + 1).last() == s[k]);
}

/// Locates the first dot and checks that every other character is a digit.
fn scan_numeral(s: &str) -> (r: (usize, bool))
    ensures
        r.0 as int == dot_index(s@),
        r.0 <= s@.len(),
        r.1 <==> valid_numeral(s@),
{
    let n = s.unicode_len();
    let mut j: usize = 0;
    let mut dot: usize = n;
    let mut ok = true;
    while j < n
        invariant
            n == s@.len(),
            j <= n,
            dot == n || (dot < j && s@[dot as int] == '.'),
            forall|t: int| 0 <= t < j && t < dot && t < n ==> s@[t] != '.',
            ok <==> (forall|t: int| 0 <= t < j && t != dot ==> is_digit(#[trigger] s@[t])),
        decreases n - j,
    {
        let c = s.get_char(j);
        if c == '.' {
            if dot == n {
                dot = j;
            } else {
                proof {
                    assert(!is_digit(s@[j as int]));
                }
                ok = false;
            }
        } else {
            let d = c as u32;
            if 48 <= d && d <= 57 {
            } else {
                proof {
                    assert(!is_digit(s@[j as int]));
                    assert(j != dot);
                }
                ok = false;
            }
        }
        j += 1;
    }
    proof {
        lemma_dot_index(s@);
        if dot < n {
            assert(dot_index(s@) == dot);
        } else {
            assert(forall|t: int| 0 <= t < n ==> s@[t] != '.');
            assert(dot_index(s@) == n);
        }
        if ok && dot > 0 {
            assert forall|t: int| 0 <= t < int_part(s@).len() implies is_digit(
                #[trigger] int_part(s@)[t],
            ) by {
                assert(int_part(s@)[t] == s@[t]);
            }
            assert forall|t: int| 0 <= t < frac_part(s@).len() implies is_digit(
                #[trigger] frac_part(s@)[t],
            ) by {
                assert(frac_part(s@)[t] == s@[t + dot + 1]);
            }
            assert(valid_numeral(s@));
        }
        if ok && dot == 0 {
            assert(int_part(s@).len() == 0);
        }
        if !ok && valid_numeral(s@) {
            assert forall|t: int| 0 <= t < n && t != dot implies is_digit(s@[t]) by {
                if t < dot {
                    assert(int_part(s@)[t] == s@[t]);
                } else {
                    assert(frac_part(s@)[t - dot - 1] == s@[t]);
                }
            }
        }
    }
    (dot, ok && dot > 0)
}

/// The base-ten value of the digits at `from..to`, at most nine of them.
fn digits_range_val(s: &str, from: usize, to: usize) -> (acc: i64)
    requires
        from <= to <= s@.len(),
        to - from <= 9,
        forall|t: int| from <= t < to ==> is_digit(#[trigger] s@[t]),
    ensures
        acc == digits_val(s@.subrange(from as int, to as int)),
        0 <= acc < pow10((to - from) as nat),
{
    let ghost part = s@.subrange(from as int, to as int);
    let mut k: usize = from;
    let mut acc: i64 = 0;
    while k < to
        invariant
            from <= k <= to <= s@.len(),
            to - from <= 9,
            part == s@.subrange(from as int, to as int),
            forall|t: int| from <= t < to ==> is_digit(#[trigger] s@[t]),
            acc == digits_val(part.take(k - from)),
            0 <= acc < pow10((k - from) as nat),
        decreases to - k,
    {
        let c = s.get_char(k);
        proof {
            assert(part[k - from] == s@[k as int]);
        }
        let d = (c as u32 - 48) as i64;
        proof {
            lemma_digits_val_step(part, k - from);
            lemma_digits_val_bound(part.take(k - from + 1));
            reveal_with_fuel(pow10, 11);
            assert(part.take(k - from + 1).drop_last() =~= part.take(k - from));
        }
        acc = acc * 10 + d;
        k += 1;
    }
    proof {
        assert(part.take(to - from) =~= part);
    }
    acc
}

proof fn lemma_pow10_mono(a: nat, b: nat)
    requires
        a <= b,
    ensures
        pow10(a) <= pow10(b),
    decreases b,
{
    if a < b {
        lemma_pow10_mono(a, (b - 1) as nat);
        assert(pow10(b) == 10 * pow10((b - 1) as nat));
        assert(pow10(a) >= 1) by {
            lemma_pow10_pos(a);
        }
    }
}

proof fn lemma_pow10_pos(n: nat)
    ensures
        pow10(n) >= 1,
    decreases n,
{
    if n > 0 {
        lemma_pow10_pos((n - 1) as nat);
    }
}

proof fn lemma_scaled_parts_bound(acc: int, facc: int, pad: int, ilen: int, flen: int)
    requires
        0 <= ilen <= 9,
        0 <= flen <= 9,
        0 <= acc < pow10(ilen as nat),
        0 <= facc < pow10(flen as nat),
        pad == pow10((9 - flen) as nat),
    ensures
        acc <= 999_999_999,
        0 <= facc * pad <= 999_999_999,
{
    reveal_with_fuel(pow10, 11);
    lemma_pow10_mono(ilen as nat, 9);
    lemma_pow10_mono(flen as nat, 9);
    lemma_pow10_pos((9 - flen) as nat);
    assert(facc <= pow10(flen as nat) - 1);
    assert(facc * pad <= 999_999_999) by (nonlinear_arith)
        requires
            0 <= flen <= 9,
            0 <= facc <= pow10(flen as nat) - 1,
            pad == pow10((9 - flen) as nat),
            pow10(0) == 1 && pow10(1) == 10 && pow10(2) == 100 && pow10(3) == 1000
                && pow10(4) == 10_000 && pow10(5) == 100_000 && pow10(6) == 1_000_000
                && pow10(7) == 10_000_000 && pow10(8) == 100_000_000 && pow10(9) == 1_000_000_000,
    {
        if flen == 0 { assert(facc * pad == 0); }
        else if flen == 1 { assert(facc * pad <= 9 * 100_000_000); }
        else if flen == 2 { assert(facc * pad <= 99 * 10_000_000); }
        else if flen == 3 { assert(facc * pad <= 999 * 1_000_000); }
        else if flen == 4 { assert(facc * pad <= 9_999 * 100_000); }
        else if flen == 5 { assert(facc * pad <= 99_999 * 10_000); }
        else if flen == 6 { assert(facc * pad <= 999_999 * 1_000); }
        else if flen == 7 { assert(facc * pad <= 9_999_999 * 100); }
        else if flen == 8 { assert(facc * pad <= 99_999_999 * 10); }
        else { assert(facc * pad <= 999_999_999 * 1); }
    }
    assert(facc * pad >= 0) by (nonlinear_arith)
        requires
            facc >= 0,
            pad >= 1,
    ;
}

/// Reads a decimal numeral into fixed-point steps; exactly `dec_to_fixed`
/// of the text, so anything but a plain numeral reads as zero.
pub fn parse_numeral(s: &str) -> (v: i64)
    ensures
        v == dec_to_fixed(s@),
        0 <= v <= DEC_CAP,
{
    let n = s.unicode_len();
    let (dot, valid) = scan_numeral(s);
    if !valid {
        return 0;
    }
    if dot > 9 {
        proof {
            assert(int_part(s@).len() == dot);
        }
        return DEC_CAP;
    }
    let ghost ip = int_part(s@);
    let ghost fp = frac_part(s@);
    proof {
        lemma_dot_index(s@);
        assert forall|t: int| 0 <= t < dot implies is_digit(#[trigger] s@[t]) by {
            assert(ip[t] == s@[t]);
        }
        assert(ip =~= s@.subrange(0, dot as int));
    }
    let acc = digits_range_val(s, 0, dot);
    let fstart = dot + 1;
    let flen = if fstart >= n {
        0
    } else if n - fstart > 9 {
        9
    } else {
        n - fstart
    };
    proof {
        if fstart <= n {
            assert(fp.len() == n - fstart);
        } else {
            assert(dot == n);
            assert(fp.len() == 0);
        }
        if flen > 0 {
            assert forall|t: int| fstart <= t < fstart + flen implies is_digit(
                #[trigger] s@[t],
            ) by {
                assert(fp[t - fstart] == s@[t]);
            }
            assert(fp.take(flen as int) =~= s@.subrange(fstart as int, (fstart + flen) as int));
        }
    }
    let facc = if flen == 0 {
        0
    } else {
        digits_range_val(s, fstart, fstart + flen)
    };
    proof {
        assert(facc == digits_val(fp.take(flen as int)));
        reveal_with_fuel(pow10, 11);
    }
    let pad: i64 = if flen == 0 {
        1_000_000_000
    } else if flen == 1 {
        100_000_000
    } else if flen == 2 {
        10_000_000
    } else if flen == 3 {
        1_000_000
    } else if flen == 4 {
        100_000
    } else if flen == 5 {
        10_000
    } else if flen == 6 {
        1_000
    } else if flen == 7 {
        100
    } else if flen == 8 {
        10
    } else {
        1
    };
    proof {
        reveal_with_fuel(pow10, 11);
        assert(pad == pow10((9 - flen) as nat));
        if fp.len() >= 9 {
            assert(flen == 9);
        } else {
            assert(flen == fp.len());
            assert(fp.take(flen as int) =~= fp);
        }
        lemma_digits_val_bound(ip);
        lemma_scaled_parts_bound(acc as int, facc as int, pad as int, dot as int, flen as int);
    }
    let v = acc * UNIT + facc * pad;
    proof {
        assert(frac_val(fp) == facc * pad);
        assert(v == dec_to_fixed(s@));
    }
    v
}

} // verus!
