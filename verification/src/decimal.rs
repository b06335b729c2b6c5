//! Plain decimal literals and their parser.
//!
//! Market feeds deliver prices and sizes as strings such as `"100.5"`.
//! A [`Decimal`] holds the parsed value exactly as
//! `(-1)^negative * mantissa / 10^scale`; `"100.5"` becomes
//! `{ negative: false, mantissa: 1005, scale: 1 }`.
//!
//! A literal is accepted when, after an optional leading `-` or `+`,
//! every character is an ASCII digit or a dot, there is at most one dot,
//! and there is at least one digit. Exponents and non-finite forms are
//! rejected, as is any literal whose digits exceed what a `u64` mantissa
//! can hold.

use vstd::prelude::*;

verus! {

/// An exactly represented decimal number: `(-1)^negative * mantissa / 10^scale`.
#[derive(Clone, Copy, Debug, PartialEq, Eq, Structural)]
pub struct Decimal {
    pub negative: bool,
    pub mantissa: u64,
    pub scale: u32,
}

/// An ASCII decimal digit.
pub open spec fn is_digit(c: char) -> bool {
    48 <= c as u32 && c as u32 <= 57
}

/// The numeric value of an ASCII digit.
pub open spec fn digit_val(c: char) -> int {
    c as u32 - 48
}

/// A leading sign character.
pub open spec fn is_sign(c: char) -> bool {
    c == '-' || c == '+'
}

/// The literal with a leading sign removed, if one is present.
pub open spec fn strip_sign(s: Seq<char>) -> Seq<char> {
    if s.len() > 0 && is_sign(s[0]) {
        s.subrange(1, s.len() as int)
    } else {
        s
    }
}

/// The characters of `s` that are not dots, in order.
pub open spec fn digits_of(s: Seq<char>) -> Seq<char>
    decreases s.len(),
{
    if s.len() == 0 {
        Seq::empty()
    } else if s.last() == '.' {
        digits_of(s.drop_last())
    } else {
        digits_of(s.drop_last()).push(s.last())
    }
}

/// The value of a digit string read in base ten.
pub open spec fn digits_val(s: Seq<char>) -> int
    decreases s.len(),
{
    if s.len() == 0 {
        0
    } else {
        10 * digits_val(s.drop_last()) + digit_val(s.last())
    }
}

/// Whether `s` contains a dot.
pub open spec fn has_dot(s: Seq<char>) -> bool {
    exists|i: int| 0 <= i < s.len() && s[i] == '.'
}

/// The number of characters after the dot of `s`, or zero without a dot.
pub open spec fn frac_len(s: Seq<char>) -> nat
    decreases s.len(),
{
    if s.len() == 0 {
        0nat
    } else if s.last() == '.' {
        0nat
    } else if has_dot(s.drop_last()) {
        frac_len(s.drop_last()) + 1
    } else {
        0nat
    }
}

/// Every character of `s` is a digit or a dot.
pub open spec fn digits_and_dots(s: Seq<char>) -> bool {
    forall|i: int| 0 <= i < s.len() ==> is_digit(#[trigger] s[i]) || s[i] == '.'
}

/// An unsigned decimal literal: digits and at most one dot, with at
/// least one digit.
pub open spec fn valid_unsigned(s: Seq<char>) -> bool {
    &&& digits_and_dots(s)
    &&& digits_of(s).len() > 0
    &&& s.len() - digits_of(s).len() <= 1
}

/// A decimal literal: an optional sign before an unsigned literal.
pub open spec fn valid_decimal(s: Seq<char>) -> bool {
    valid_unsigned(strip_sign(s))
}

/// Whether the literal denotes a negative number.
pub open spec fn decimal_negative(s: Seq<char>) -> bool {
    s.len() > 0 && s[0] == '-'
}

/// The digits of the literal read as one base-ten integer.
pub open spec fn decimal_mantissa(s: Seq<char>) -> int {
    digits_val(digits_of(strip_sign(s)))
}

/// The number of digits after the literal's dot.
pub open spec fn decimal_scale(s: Seq<char>) -> nat {
    frac_len(strip_sign(s))
}

/// A literal this crate parses: well formed and within machine range.
pub open spec fn parseable(s: Seq<char>) -> bool {
    &&& valid_decimal(s)
    &&& decimal_mantissa(s) <= u64::MAX
    &&& decimal_scale(s) <= u32::MAX
}

/// The `Decimal` a parseable literal denotes.
pub open spec fn spec_decimal(s: Seq<char>) -> Decimal {
    Decimal {
        negative: decimal_negative(s),
        mantissa: decimal_mantissa(s) as u64,
        scale: decimal_scale(s) as u32,
    }
}

/// Ten to the power `n`.
pub open spec fn pow10(n: nat) -> int
    decreases n,
{
    if n == 0 {
        1
    } else {
        10 * pow10((n - 1) as nat)
    }
}

proof fn lemma_pow10_pos(n: nat)
    ensures
        pow10(n) >= 1,
    decreases n,
{
    if n > 0 {
        lemma_pow10_pos((n - 1) as nat);
    }
}

proof fn lemma_digits_val_nonneg(s: Seq<char>)
    requires
        forall|i: int| 0 <= i < s.len() ==> is_digit(#[trigger] s[i]),
    ensures
        digits_val(s) >= 0,
    decreases s.len(),
{
    if s.len() > 0 {
        lemma_digits_val_nonneg(s.drop_last());
    }
}

proof fn lemma_digits_of_are_digits(s: Seq<char>)
    requires
        digits_and_dots(s),
    ensures
        forall|i: int|
            0 <= i < digits_of(s).len() ==> is_digit(#[trigger] digits_of(s)[i]),
    decreases s.len(),
{
    if s.len() > 0 {
        let s0 = s.drop_last();
        assert(digits_and_dots(s0)) by {
            assert(forall|i: int| 0 <= i < s0.len() ==> #[trigger] s0[i] == s[i]);
        }
        lemma_digits_of_are_digits(s0);
        let d0 = digits_of(s0);
        if s.last() != '.' {
            assert(is_digit(s.last())) by {
                assert(s[s.len() - 1] == s.last());
            }
            assert forall|i: int|
                0 <= i < digits_of(s).len() implies is_digit(#[trigger] digits_of(s)[i]) by {
                if i < d0.len() {
                    assert(digits_of(s)[i] == d0[i]);
                } else {
                    assert(digits_of(s)[i] == s.last());
                }
            }
        }
    }
}

proof fn lemma_digits_of_len(s: Seq<char>)
    ensures
        digits_of(s).len() <= s.len(),
    decreases s.len(),
{
    if s.len() > 0 {
        lemma_digits_of_len(s.drop_last());
    }
}

proof fn lemma_digits_of_append(a: Seq<char>, b: Seq<char>)
    ensures
        digits_of(a + b) == digits_of(a) + digits_of(b),
    decreases b.len(),
{
    if b.len() == 0 {
        assert(a + b =~= a);
        assert(digits_of(a) + digits_of(b) =~= digits_of(a));
    } else {
        let b0 = b.drop_last();
        assert((a + b).drop_last() =~= a + b0);
        assert((a + b).last() == b.last());
        lemma_digits_of_append(a, b0);
        if b.last() == '.' {
            assert(digits_of(a) + digits_of(b) =~= digits_of(a) + digits_of(b0));
        } else {
            assert(digits_of(a) + digits_of(b) =~= (digits_of(a) + digits_of(b0)).push(b.last()));
        }
    }
}

proof fn lemma_digits_val_append(a: Seq<char>, b: Seq<char>)
    ensures
        digits_val(a + b) == digits_val(a) * pow10(b.len()) + digits_val(b),
    decreases b.len(),
{
    if b.len() == 0 {
        assert(a + b =~= a);
    } else {
        let b0 = b.drop_last();
        assert((a + b).drop_last() =~= a + b0);
        assert((a + b).last() == b.last());
        lemma_digits_val_append(a, b0);
        assert(10 * (digits_val(a) * pow10(b0.len())) == digits_val(a) * (10 * pow10(b0.len())))
            by (nonlinear_arith);
        assert(pow10(b.len()) == 10 * pow10(b0.len()));
    }
}

/// Appending characters to a literal never shrinks the value its digits
/// spell; once a prefix overflows, the whole literal overflows.
proof fn lemma_prefix_mantissa(p: Seq<char>, rest: Seq<char>)
    requires
        digits_and_dots(p),
        digits_and_dots(rest),
    ensures
        digits_val(digits_of(p + rest)) >= digits_val(digits_of(p)),
{
    lemma_digits_of_append(p, rest);
    lemma_digits_of_are_digits(p);
    lemma_digits_of_are_digits(rest);
    lemma_digits_val_append(digits_of(p), digits_of(rest));
    lemma_digits_val_nonneg(digits_of(p));
    lemma_digits_val_nonneg(digits_of(rest));
    lemma_pow10_pos(digits_of(rest).len());
    assert(digits_val(digits_of(p)) * pow10(digits_of(rest).len()) >= digits_val(digits_of(p)))
        by (nonlinear_arith)
        requires
            digits_val(digits_of(p)) >= 0,
            pow10(digits_of(rest).len()) >= 1,
    ;
}

/// A literal holding two dots is not a valid decimal.
proof fn lemma_two_dots_invalid(s: Seq<char>, i1: int, i2: int)
    requires
        0 <= i1 < i2 < s.len(),
        s[i1] == '.',
        s[i2] == '.',
    ensures
        s.len() - digits_of(s).len() >= 2,
{
    let a = s.subrange(0, i1);
    let b = s.subrange(i1 + 1, i2);
    let c = s.subrange(i2 + 1, s.len() as int);
    let dot = seq!['.'];
    assert(s =~= a + dot + b + dot + c);
    assert(digits_of(Seq::<char>::empty()) =~= Seq::<char>::empty());
    assert(dot.drop_last() =~= Seq::<char>::empty());
    assert(dot.last() == '.');
    assert(digits_of(dot) =~= Seq::<char>::empty());
    lemma_digits_of_append(a + dot + b + dot, c);
    lemma_digits_of_append(a + dot + b, dot);
    lemma_digits_of_append(a + dot, b);
    lemma_digits_of_append(a, dot);
    lemma_digits_of_len(a);
    lemma_digits_of_len(b);
    lemma_digits_of_len(c);
}

/// How each spec function steps when one character is appended.
proof fn lemma_push_unfold(p: Seq<char>, c: char)
    ensures
        digits_of(p.push(c)) == if c == '.' {
            digits_of(p)
        } else {
            digits_of(p).push(c)
        },
        frac_len(p.push(c)) == if c == '.' {
            0nat
        } else if has_dot(p) {
            frac_len(p) + 1
        } else {
            0nat
        },
        has_dot(p.push(c)) == (has_dot(p) || c == '.'),
        digits_val(digits_of(p.push(c))) == if c == '.' {
            digits_val(digits_of(p))
        } else {
            10 * digits_val(digits_of(p)) + digit_val(c)
        },
{
    let q = p.push(c);
    assert(q.drop_last() =~= p);
    assert(q.last() == c);
    let dp = digits_of(p);
    assert(dp.push(c).drop_last() =~= dp);
    assert(dp.push(c).last() == c);
    if has_dot(p) {
        let w = choose|i: int| 0 <= i < p.len() && p[i] == '.';
        assert(q[w] == '.');
        assert(has_dot(q));
    }
    if c == '.' {
        assert(q[p.len() as int] == '.');
        assert(has_dot(q));
    }
    if has_dot(q) && !(has_dot(p) || c == '.') {
        let w = choose|i: int| 0 <= i < q.len() && q[i] == '.';
        if w < p.len() {
            assert(p[w] == '.');
        } else {
            assert(q[w] == c);
        }
        assert(false);
    }
}

impl Decimal {
    /// Parse a plain decimal literal such as `"100.5"`, `"-2"` or `".75"`.
    ///
    /// Returns `Some` exactly on the literals that [`parseable`] admits,
    /// and then returns the represented value; any other string, a
    /// mantissa beyond `u64`, or a fractional part longer than `u32`
    /// yields `None`.
    #[verifier::rlimit(60)]
    pub fn parse(s: &str) -> (r: Option<Decimal>)
        ensures
            r is Some <==> parseable(s@),
            r matches Some(d) ==> d == spec_decimal(s@),
    {
        let n: usize = s.unicode_len();
        let mut start: usize = 0;
        let mut negative = false;
        if n > 0 {
            let c0 = s.get_char(0);
            if c0 == '-' {
                negative = true;
                start = 1;
            } else if c0 == '+' {
                start = 1;
            }
        }
        let ghost u = strip_sign(s@);
        proof {
            assert(u =~= s@.subrange(start as int, n as int));
        }
        let mut acc: u64 = 0;
        let mut fcount: usize = 0;
        let mut seen_dot = false;
        let mut had_digit = false;
        let mut j: usize = start;
        while j < n
            invariant
                start <= j <= n,
                n == s@.len(),
                start <= 1,
                u == strip_sign(s@),
                u =~= s@.subrange(start as int, n as int),
                negative == decimal_negative(s@),
                digits_and_dots(u.subrange(0, j - start)),
                acc == digits_val(digits_of(u.subrange(0, j - start))),
                had_digit <==> digits_of(u.subrange(0, j - start)).len() > 0,
                seen_dot <==> has_dot(u.subrange(0, j - start)),
                (j - start) - digits_of(u.subrange(0, j - start)).len() == if seen_dot {
                    1int
                } else {
                    0int
                },
                fcount == frac_len(u.subrange(0, j - start)),
                fcount <= j - start,
                !seen_dot ==> fcount == 0,
            decreases n - j,
        {
            let ghost p = u.subrange(0, j - start);
            let c = s.get_char(j);
            proof {
                assert(c == u[j - start]);
                assert(u.subrange(0, j + 1 - start) =~= p.push(c));
                lemma_push_unfold(p, c);
            }
            let cv: u32 = c as u32;
            if 48 <= cv && cv <= 57 {
                let d: u64 = (cv - 48) as u64;
                let acc10 = match acc.checked_mul(10) {
                    Some(m) => m,
                    None => {
                        proof {
                            overflow_means_unparseable(s@, u, j - start, acc, d as int);
                        }
                        return None;
                    },
                };
                acc = match acc10.checked_add(d) {
                    Some(a) => a,
                    None => {
                        proof {
                            overflow_means_unparseable(s@, u, j - start, acc, d as int);
                        }
                        return None;
                    },
                };
                had_digit = true;
                if seen_dot {
                    fcount = fcount + 1;
                }
            } else if c == '.' {
                if seen_dot {
                    proof {
                        let w = choose|i: int| 0 <= i < p.len() && p[i] == '.';
                        lemma_two_dots_invalid(u, w, j - start);
                    }
                    return None;
                }
                seen_dot = true;
                fcount = 0;
            } else {
                proof {
                    assert(!digits_and_dots(u)) by {
                        assert(u[j - start] == c);
                    }
                }
                return None;
            }
            j = j + 1;
        }
        proof {
            assert(u.subrange(0, n - start) =~= u);
        }
        if !had_digit {
            return None;
        }
        if fcount > u32::MAX as usize {
            return None;
        }
        Some(Decimal { negative, mantissa: acc, scale: fcount as u32 })
    }
}

/// When the digits seen so far already exceed a `u64`, no extension of
/// the literal is parseable.
proof fn overflow_means_unparseable(s: Seq<char>, u: Seq<char>, m: int, acc: u64, d: int)
    requires
        u == strip_sign(s),
        0 <= m < u.len(),
        digits_and_dots(u.subrange(0, m)),
        is_digit(u[m]),
        acc == digits_val(digits_of(u.subrange(0, m))),
        0 <= d <= 9,
        d == digit_val(u[m]),
        10 * acc + d > u64::MAX,
    ensures
        !parseable(s),
{
    if valid_decimal(s) {
        let p = u.subrange(0, m);
        let q = u.subrange(0, m + 1);
        assert(q =~= p.push(u[m]));
        lemma_push_unfold(p, u[m]);
        let rest = u.subrange(m + 1, u.len() as int);
        assert(u =~= q + rest);
        assert(digits_and_dots(q));
        assert(digits_and_dots(rest)) by {
            assert(forall|i: int|
                0 <= i < rest.len() ==> #[trigger] rest[i] == u[i + m + 1]);
        }
        lemma_prefix_mantissa(q, rest);
    }
}

} // verus!
