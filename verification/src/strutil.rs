//! Small verified string utilities: character-wise comparison, prefix
//! handling, and decimal printing and parsing, used by the supervisor to
//! scan argument lists and to build command lines and diagnostic messages.

use vstd::prelude::*;
use vstd::string::StrSliceExecFns;
use vstd::string::StringExecFns;

verus! {

/// Character-wise equality of two string slices.
pub fn str_eq(a: &str, b: &str) -> (r: bool)
    ensures
        r == (a@ == b@),
{
    let alen = a.unicode_len();
    let blen = b.unicode_len();
    if alen != blen {
        return false;
    }
    let mut i: usize = 0;
    while i < alen
        invariant
            alen == a@.len(),
            blen == b@.len(),
            alen == blen,
            0 <= i <= alen,
            forall|j: int| 0 <= j < i ==> a@[j] == b@[j],
        decreases alen - i,
    {
        if a.get_char(i) != b.get_char(i) {
            return false;
        }
        i = i + 1;
    }
    proof {
        assert(a@ =~= b@);
    }
    true
}

/// `p` is an initial segment of `s`.
pub open spec fn is_prefix_of(p: Seq<char>, s: Seq<char>) -> bool {
    p.len() <= s.len() && s.subrange(0, p.len() as int) == p
}

/// Whether `s` starts with `p`, character by character.
pub fn starts_with_str(s: &str, p: &str) -> (r: bool)
    ensures
        r == is_prefix_of(p@, s@),
{
    let plen = p.unicode_len();
    let slen = s.unicode_len();
    if slen < plen {
        return false;
    }
    let mut i: usize = 0;
    while i < plen
        invariant
            plen == p@.len(),
            slen == s@.len(),
            plen <= slen,
            0 <= i <= plen,
            forall|j: int| 0 <= j < i ==> s@[j] == p@[j],
        decreases plen - i,
    {
        if s.get_char(i) != p.get_char(i) {
            proof {
                assert(s@.subrange(0, p@.len() as int)[i as int] == s@[i as int]);
            }
            return false;
        }
        i = i + 1;
    }
    proof {
        assert(s@.subrange(0, p@.len() as int) =~= p@);
    }
    true
}

/// The rest of `s` after the prefix `p`, when `s` starts with `p`.
pub fn strip_prefix_str<'a>(s: &'a str, p: &str) -> (r: Option<&'a str>)
    ensures
        is_prefix_of(p@, s@) ==> (r matches Some(t) && t@ == s@.skip(p@.len() as int)),
        !is_prefix_of(p@, s@) ==> r is None,
{
    if starts_with_str(s, p) {
        let t = s.substring_char(p.unicode_len(), s.unicode_len());
        proof {
            assert(s@.subrange(p@.len() as int, s@.len() as int) =~= s@.skip(p@.len() as int));
        }
        Some(t)
    } else {
        None
    }
}

/// The character for one decimal digit.
pub open spec fn digit_char(d: int) -> char {
    if d == 0 {
        '0'
    } else if d == 1 {
        '1'
    } else if d == 2 {
        '2'
    } else if d == 3 {
        '3'
    } else if d == 4 {
        '4'
    } else if d == 5 {
        '5'
    } else if d == 6 {
        '6'
    } else if d == 7 {
        '7'
    } else if d == 8 {
        '8'
    } else {
        '9'
    }
}

fn digit_str(d: u64) -> (r: &'static str)
    requires
        d < 10,
    ensures
        r@ == seq![digit_char(d as int)],
{
    proof {
        reveal_strlit("0");
        reveal_strlit("1");
        reveal_strlit("2");
        reveal_strlit("3");
        reveal_strlit("4");
        reveal_strlit("5");
        reveal_strlit("6");
        reveal_strlit("7");
        reveal_strlit("8");
        reveal_strlit("9");
    }
    let r: &'static str = if d == 0 {
        "0"
    } else if d == 1 {
        "1"
    } else if d == 2 {
        "2"
    } else if d == 3 {
        "3"
    } else if d == 4 {
        "4"
    } else if d == 5 {
        "5"
    } else if d == 6 {
        "6"
    } else if d == 7 {
        "7"
    } else if d == 8 {
        "8"
    } else {
        "9"
    };
    proof {
        assert(r@ =~= seq![digit_char(d as int)]);
    }
    r
}

/// Decimal digits of `n`, most significant first.
pub open spec fn u64_dec(n: nat) -> Seq<char>
    decreases n,
{
    if n < 10 {
        seq![digit_char(n as int)]
    } else {
        u64_dec(n / 10).push(digit_char((n % 10) as int))
    }
}

/// Decimal digits of `v`, with a leading minus sign when negative.
pub open spec fn i64_dec(v: int) -> Seq<char> {
    if v < 0 {
        seq!['-'] + u64_dec((-v) as nat)
    } else {
        u64_dec(v as nat)
    }
}

/// Appends the decimal digits of `n` to `s`.
pub fn push_u64_dec(s: &mut String, n: u64)
    ensures
        final(s)@ == old(s)@ + u64_dec(n as nat),
    decreases n,
{
    if n < 10 {
        s.append(digit_str(n));
        proof {
            assert(old(s)@ + seq![digit_char(n as int)] =~= old(s)@ + u64_dec(n as nat));
        }
    } else {
        push_u64_dec(s, n / 10);
        s.append(digit_str(n % 10));
        proof {
            assert((old(s)@ + u64_dec((n / 10) as nat)) + seq![digit_char((n % 10) as int)] =~= old(
                s,
            )@ + u64_dec(n as nat));
        }
    }
}

/// Appends the decimal form of `v` to `s`.
pub fn push_i64_dec(s: &mut String, v: i64)
    ensures
        final(s)@ == old(s)@ + i64_dec(v as int),
{
    if v < 0 {
        s.append("-");
        proof {
            reveal_strlit("-");
            assert(s@ =~= old(s)@ + seq!['-']);
        }
        let mag: u64 = if v == i64::MIN {
            9223372036854775808u64
        } else {
            (-v) as u64
        };
        assert(mag as nat == (-(v as int)) as nat);
        push_u64_dec(s, mag);
        proof {
            assert((old(s)@ + seq!['-']) + u64_dec(mag as nat) =~= old(s)@ + i64_dec(v as int));
        }
    } else {
        push_u64_dec(s, v as u64);
    }
}

/// The decimal form of `n` as a fresh string.
pub fn u64_to_string(n: u64) -> (r: String)
    ensures
        r@ == u64_dec(n as nat),
{
    let mut s = String::new();
    push_u64_dec(&mut s, n);
    proof {
        assert(Seq::<char>::empty() + u64_dec(n as nat) =~= u64_dec(n as nat));
    }
    s
}

/// A decimal digit character.
pub open spec fn is_dec_digit(c: char) -> bool {
    '0' as int <= c as int <= '9' as int
}

/// The numeric value of one digit character.
pub open spec fn digit_val(c: char) -> int {
    c as int - '0' as int
}

/// Every character of `s` is a decimal digit.
pub open spec fn all_digits(s: Seq<char>) -> bool {
    forall|i: int| 0 <= i < s.len() ==> is_dec_digit(s[i])
}

/// The value of a digit string, most significant digit first.
pub open spec fn dec_val(s: Seq<char>) -> int
    decreases s.len(),
{
    if s.len() == 0 {
        0
    } else {
        dec_val(s.drop_last()) * 10 + digit_val(s.last())
    }
}

/// A non-empty string of decimal digits.
pub open spec fn dec_mag_str(s: Seq<char>) -> bool {
    s.len() > 0 && all_digits(s)
}

pub open spec fn in_i64(v: int) -> bool {
    i64::MIN <= v <= i64::MAX
}

/// The value denoted by `s` as a signed decimal numeral, when `s` is one
/// whose value fits in an `i64`: an optional sign, then at least one digit.
pub open spec fn parse_i64_spec(s: Seq<char>) -> Option<int> {
    if s.len() > 0 && (s[0] == '-' || s[0] == '+') {
        let sign: int = if s[0] == '-' {
            -1
        } else {
            1
        };
        let mag = s.skip(1);
        if dec_mag_str(mag) && in_i64(sign * dec_val(mag)) {
            Some(sign * dec_val(mag))
        } else {
            None
        }
    } else {
        if dec_mag_str(s) && in_i64(dec_val(s)) {
            Some(dec_val(s))
        } else {
            None
        }
    }
}

proof fn lemma_dec_val_nonneg(s: Seq<char>)
    requires
        all_digits(s),
    ensures
        dec_val(s) >= 0,
    decreases s.len(),
{
    if s.len() > 0 {
        assert(all_digits(s.drop_last()));
        lemma_dec_val_nonneg(s.drop_last());
        assert(dec_val(s.drop_last()) * 10 >= 0) by (nonlinear_arith)
            requires
                dec_val(s.drop_last()) >= 0,
        ;
    }
}

proof fn lemma_dec_val_prefix_le(s: Seq<char>, k: int)
    requires
        all_digits(s),
        0 <= k <= s.len(),
    ensures
        dec_val(s.take(k)) <= dec_val(s),
    decreases s.len() - k,
{
    if k == s.len() {
        assert(s.take(k) =~= s);
    } else {
        lemma_dec_val_prefix_le(s, k + 1);
        assert(s.take(k + 1).drop_last() =~= s.take(k));
        assert(s.take(k + 1).last() == s[k]);
        assert(all_digits(s.take(k)));
        lemma_dec_val_nonneg(s.take(k));
        assert(dec_val(s.take(k)) * 10 >= dec_val(s.take(k))) by (nonlinear_arith)
            requires
                dec_val(s.take(k)) >= 0,
        ;
        assert(dec_val(s.take(k + 1)) == dec_val(s.take(k)) * 10 + digit_val(s[k]));
        assert(digit_val(s[k]) >= 0);
    }
}

/// Parses a signed decimal numeral: an optional `+` or `-` sign followed by
/// at least one digit, rejecting anything else and any value outside `i64`.
pub fn parse_i64(s: &str) -> (r: Option<i64>)
    ensures
        r matches Some(x) ==> parse_i64_spec(s@) == Some(x as int),
        r is None ==> parse_i64_spec(s@) is None,
{
    let len = s.unicode_len();
    if len == 0 {
        return None;
    }
    let c0 = s.get_char(0);
    let neg = c0 == '-';
    let start: usize = if c0 == '-' || c0 == '+' {
        1
    } else {
        0
    };
    if start == len {
        return None;
    }
    let bound: u64 = if neg {
        9223372036854775808u64
    } else {
        9223372036854775807u64
    };
    let ghost mag: Seq<char> = s@.skip(start as int);
    let mut acc: u64 = 0;
    let mut i: usize = start;
    while i < len
        invariant
            len == s@.len(),
            start <= i <= len,
            start <= 1,
            start < len,
            mag == s@.skip(start as int),
            mag.len() == len - start,
            all_digits(mag.take((i - start) as int)),
            acc as int == dec_val(mag.take((i - start) as int)),
            acc <= bound,
            neg == (s@[0] == '-'),
            (start == 1) == (s@[0] == '-' || s@[0] == '+'),
            bound == if neg {
                9223372036854775808u64
            } else {
                9223372036854775807u64
            },
        decreases len - i,
    {
        let c = s.get_char(i);
        proof {
            assert(mag[(i - start) as int] == s@[i as int]);
        }
        if !(c >= '0' && c <= '9') {
            proof {
                assert(!is_dec_digit(mag[(i - start) as int]));
                assert(!all_digits(mag));
                if start == 0 {
                    assert(mag =~= s@);
                }
            }
            return None;
        }
        let d: u64 = (c as u32 as u64) - 48;
        proof {
            assert(d as int == digit_val(c));
            assert(mag.take((i - start) as int + 1).drop_last() =~= mag.take((i - start) as int));
            assert(mag.take((i - start) as int + 1).last() == mag[(i - start) as int]);
            assert(all_digits(mag.take((i - start) as int + 1)));
        }
        let ghost next_val: int = acc as int * 10 + d as int;
        proof {
            assert(dec_val(mag.take((i - start) as int + 1)) == next_val);
        }
        let overflowed: bool = match acc.checked_mul(10) {
            Some(m) => match m.checked_add(d) {
                Some(v) => {
                    if v > bound {
                        true
                    } else {
                        acc = v;
                        false
                    }
                },
                None => true,
            },
            None => true,
        };
        if overflowed {
            proof {
                assert(next_val > bound);
                if start == 0 {
                    assert(mag =~= s@);
                }
                if all_digits(mag) {
                    lemma_dec_val_prefix_le(mag, (i - start) as int + 1);
                    assert(dec_val(mag) >= next_val);
                    assert(dec_val(mag) > bound as int);
                    if neg {
                        assert(-1 * dec_val(mag) == -dec_val(mag)) by (nonlinear_arith);
                        assert(-dec_val(mag) < -9223372036854775808) by {
                            assert(dec_val(mag) > 9223372036854775808);
                        };
                        assert(!in_i64(-1 * dec_val(mag)));
                    } else {
                        assert(!in_i64(1 * dec_val(mag)));
                        assert(!in_i64(dec_val(mag)));
                    }
                }
            }
            return None;
        }
        i = i + 1;
    }
    proof {
        assert(mag.take((i - start) as int) =~= mag);
        assert(dec_mag_str(mag));
        if start == 0 {
            assert(mag =~= s@);
        }
    }
    if neg {
        let x: i64 = if acc == 9223372036854775808u64 {
            i64::MIN
        } else {
            -(acc as i64)
        };
        proof {
            assert(x as int == -1 * dec_val(mag));
            assert(in_i64(-1 * dec_val(mag)));
        }
        Some(x)
    } else {
        proof {
            if start == 1 {
                assert(1 * dec_val(mag) == dec_val(mag));
                assert(in_i64(1 * dec_val(mag)));
            }
        }
        Some(acc as i64)
    }
}

} // verus!
