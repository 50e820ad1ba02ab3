//! `Fixed9`: a signed decimal with exactly nine fractional digits, held as an
//! integer count of 10^-9 units.
use vstd::prelude::*;

use crate::digits::{
    all_digits, digit_char, digit_value, digits_value, int_text, is_digit,
    lemma_digit_char, nat_digits, padded_digits, pow10, push_digits, push_int,
    push_padded_digits,
};
use vstd::arithmetic::div_mod::lemma_fundamental_div_mod_converse;

verus! {

/// Number of 10^-9 units in one.
pub const FIXED9_DECIMALS: i64 = 1_000_000_000;

/// A decimal number scaled by 10^9.
#[derive(Copy, Clone, Debug, PartialEq, Eq, Structural, PartialOrd, Ord, Default, Hash)]
pub struct Fixed9(pub i64);

/// A decimal literal that is malformed or does not fit in 64 bits once scaled.
#[derive(Copy, Clone, Debug, PartialEq, Eq, Structural)]
pub struct ParseError;

pub open spec fn scale() -> int {
    1_000_000_000
}

pub open spec fn in_i64(v: int) -> bool {
    i64::MIN <= v <= i64::MAX
}

// ----- reading decimal text -----

/// Length of the sign prefix: 1 for a leading `-`, else 0.
pub open spec fn sign_len(s: Seq<char>) -> int {
    if s.len() > 0 && s[0] == '-' {
        1
    } else {
        0
    }
}

/// Index of the first `.` at or after `i`, or `s.len()` when there is none.
pub open spec fn dot_from(s: Seq<char>, i: int) -> int
    decreases s.len() - i,
{
    if i >= s.len() {
        s.len() as int
    } else if s[i] == '.' {
        i
    } else {
        dot_from(s, i + 1)
    }
}

pub open spec fn dot_index(s: Seq<char>) -> int {
    dot_from(s, sign_len(s))
}

/// The digits before the point.
pub open spec fn int_part(s: Seq<char>) -> Seq<char> {
    s.subrange(sign_len(s), dot_index(s))
}

/// The digits after the point (empty when there is no point).
pub open spec fn frac_part(s: Seq<char>) -> Seq<char> {
    if dot_index(s) < s.len() {
        s.subrange(dot_index(s) + 1, s.len() as int)
    } else {
        Seq::empty()
    }
}

pub open spec fn zeros(n: nat) -> Seq<char> {
    Seq::new(n, |i: int| '0')
}

/// The fractional digits cut or padded with zeros to exactly nine.
pub open spec fn frac9(f: Seq<char>) -> Seq<char> {
    if f.len() >= 9 {
        f.take(9)
    } else {
        f + zeros((9 - f.len()) as nat)
    }
}

pub open spec fn well_formed_decimal(s: Seq<char>) -> bool {
    &&& int_part(s).len() > 0
    &&& all_digits(int_part(s))
    &&& all_digits(frac_part(s))
}

/// The number of 10^-9 units that the text denotes, sign applied to the whole.
pub open spec fn decimal_units(s: Seq<char>) -> int {
    let m = digits_value(int_part(s)) * scale() + digits_value(frac9(frac_part(s)));
    if sign_len(s) == 1 {
        -m
    } else {
        m
    }
}

/// What parsing `s` yields: the scaled value, or nothing when `s` is not
/// `[-]digits[.digits]` or the value does not fit.
pub open spec fn parse_spec(s: Seq<char>) -> Option<int> {
    if well_formed_decimal(s) && in_i64(decimal_units(s)) {
        Some(decimal_units(s))
    } else {
        None
    }
}

// ----- writing decimal text -----

pub open spec fn abs(v: int) -> nat {
    if v < 0 {
        (-v) as nat
    } else {
        v as nat
    }
}

/// The canonical text: sign, integer part, `.`, and nine zero-padded digits.
pub open spec fn canonical_text(v: int) -> Seq<char> {
    (if v < 0 {
        seq!['-']
    } else {
        Seq::empty()
    }) + nat_digits(abs(v) / scale() as nat) + seq!['.'] + padded_digits(
        abs(v) % scale() as nat,
        9,
    )
}

/// Quotient rounded toward zero, as Rust's `/` on integers.
pub open spec fn trunc_div(v: int, d: int) -> int {
    if v >= 0 {
        v / d
    } else {
        -((-v) / d)
    }
}

/// Remainder with the sign of the dividend, as Rust's `%` on integers.
pub open spec fn trunc_rem(v: int, d: int) -> int {
    if v >= 0 {
        v % d
    } else {
        -((-v) % d)
    }
}

/// The terse display text: truncated quotient and signed remainder.
pub open spec fn display_text(v: int) -> Seq<char> {
    int_text(trunc_div(v, scale())) + seq!['.'] + int_text(trunc_rem(v, scale()))
}

// ----- lemmas on digit strings -----

pub proof fn lemma_pow10_small()
    ensures
        pow10(0) == 1,
        pow10(1) == 10,
        pow10(2) == 100,
        pow10(3) == 1_000,
        pow10(4) == 10_000,
        pow10(5) == 100_000,
        pow10(6) == 1_000_000,
        pow10(7) == 10_000_000,
        pow10(8) == 100_000_000,
        pow10(9) == 1_000_000_000,
{
    reveal_with_fuel(pow10, 10);
}

/// Appending zeros multiplies the value by a power of ten.
pub proof fn lemma_append_zeros(s: Seq<char>, n: nat)
    ensures
        digits_value(s + zeros(n)) == digits_value(s) * pow10(n),
    decreases n,
{
    if n == 0 {
        assert(s + zeros(0) =~= s);
        assert(pow10(0) == 1);
    } else {
        assert(pow10(n) == 10 * pow10((n - 1) as nat));
        let t = s + zeros(n);
        assert(t.drop_last() =~= s + zeros((n - 1) as nat));
        lemma_append_zeros(s, (n - 1) as nat);
        assert(t.last() == '0');
        assert(digit_value(t.last()) == 0);
        assert(digits_value(t) == digits_value(t.drop_last()) * 10 + digit_value(t.last()));
        assert(digits_value(s) * pow10((n - 1) as nat) * 10 == digits_value(s) * pow10(n))
            by (nonlinear_arith)
            requires
                pow10(n) == 10 * pow10((n - 1) as nat),
        ;
    }
}

/// A digit string of length `n` denotes less than 10^n.
pub proof fn lemma_digits_bound(s: Seq<char>)
    requires
        all_digits(s),
    ensures
        digits_value(s) < pow10(s.len()),
    decreases s.len(),
{
    if s.len() > 0 {
        let p = s.drop_last();
        assert(all_digits(p)) by {
            assert forall|i: int| 0 <= i < p.len() implies is_digit(#[trigger] p[i]) by {
                assert(p[i] == s[i]);
            }
        }
        lemma_digits_bound(p);
        assert(is_digit(s[s.len() - 1]));
        let d = digit_value(s.last());
        assert(d < 10);
        let a = digits_value(p);
        let b = pow10(p.len());
        assert(a * 10 + d < 10 * b) by (nonlinear_arith)
            requires
                a < b,
                d < 10,
        ;
    }
}

/// A prefix denotes no more than the whole.
pub proof fn lemma_prefix_le(s: Seq<char>, i: int)
    requires
        0 <= i <= s.len(),
    ensures
        digits_value(s.take(i)) <= digits_value(s),
    decreases s.len() - i,
{
    if i < s.len() {
        lemma_prefix_le(s, i + 1);
        assert(s.take(i + 1).drop_last() =~= s.take(i));
    } else {
        assert(s.take(i) =~= s);
    }
}

// ----- executable operations -----

/// 10^(9 - k), the factor that pads `k` fractional digits to nine.
fn pad_factor(k: u64) -> (r: u64)
    requires
        k <= 9,
    ensures
        r == pow10((9 - k) as nat),
{
    proof {
        lemma_pow10_small();
    }
    if k == 0 {
        1_000_000_000
    } else if k == 1 {
        100_000_000
    } else if k == 2 {
        10_000_000
    } else if k == 3 {
        1_000_000
    } else if k == 4 {
        100_000
    } else if k == 5 {
        10_000
    } else if k == 6 {
        1_000
    } else if k == 7 {
        100
    } else if k == 8 {
        10
    } else {
        1
    }
}

fn char_digit(c: char) -> (r: Option<u64>)
    ensures
        r is Some <==> is_digit(c),
        r matches Some(d) ==> d == digit_value(c) && d < 10,
{
    if '0' <= c && c <= '9' {
        Some((c as u32 - '0' as u32) as u64)
    } else {
        None
    }
}

pub open spec fn min9(n: int) -> int {
    if n < 9 {
        n
    } else {
        9
    }
}

impl Fixed9 {
    /// Reads `[-]digits[.digits]`. Fractional digits past the ninth are
    /// dropped, fewer are padded with zeros; the sign applies to the whole.
    pub fn parse(text: &str) -> (r: Result<Fixed9, ParseError>)
        ensures
            r is Ok <==> parse_spec(text@) is Some,
            r matches Ok(f) ==> f.0 == parse_spec(text@)->0,
    {
        let n = text.unicode_len();
        let start: usize = if n > 0 && text.get_char(0) == '-' {
            1
        } else {
            0
        };
        assert(start == sign_len(text@));
        let mut dot: usize = start;
        while dot < n && text.get_char(dot) != '.'
            invariant
                start <= dot <= n,
                n == text@.len(),
                dot_from(text@, dot as int) == dot_from(text@, start as int),
            decreases n - dot,
        {
            dot = dot + 1;
        }
        assert(dot == dot_index(text@));
        if dot == start {
            return Err(ParseError);
        }
        let ghost ip = int_part(text@);
        let mut acc: u64 = 0;
        let mut i: usize = start;
        while i < dot
            invariant
                start <= i <= dot <= n,
                n == text@.len(),
                dot == dot_index(text@),
                start == sign_len(text@),
                ip == int_part(text@),
                ip == text@.subrange(start as int, dot as int),
                acc == digits_value(ip.take(i - start)),
                all_digits(ip.take(i - start)),
                acc < 1_000_000_000_000_000_000,
            decreases dot - i,
        {
            let c = text.get_char(i);
            assert(ip[i - start] == c);
            match char_digit(c) {
                None => {
                    return Err(ParseError);
                },
                Some(d) => {
                    let ghost pre = ip.take(i - start + 1);
                    assert(pre.drop_last() =~= ip.take(i - start));
                    assert(pre.last() == c);
                    let next = acc * 10 + d;
                    if next >= 1_000_000_000_000_000_000 {
                        proof {
                            lemma_prefix_le(ip, i - start + 1);
                            let a = digits_value(ip);
                            let b = digits_value(frac9(frac_part(text@)));
                            assert(a * 1_000_000_000 + b >= 1_000_000_000_000_000_000_000_000_000)
                                by (nonlinear_arith)
                                requires
                                    a >= 1_000_000_000_000_000_000,
                                    b >= 0,
                            ;
                        }
                        return Err(ParseError);
                    }
                    acc = next;
                    assert(all_digits(pre)) by {
                        assert forall|j: int| 0 <= j < pre.len() implies is_digit(
                            #[trigger] pre[j],
                        ) by {
                            if j < pre.len() - 1 {
                                assert(pre[j] == ip.take(i - start)[j]);
                            }
                        }
                    }
                },
            }
            i = i + 1;
        }
        assert(ip.take(dot - start) =~= ip);
        let ghost fp = frac_part(text@);
        let mut frac: u64 = 0;
        let mut k: u64 = 0;
        if dot < n {
            let mut j: usize = dot + 1;
            while j < n
                invariant
                    dot + 1 <= j <= n,
                    n == text@.len(),
                    fp == text@.subrange(dot + 1, n as int),
                    fp == frac_part(text@),
                    k == min9(j - dot - 1),
                    frac == digits_value(fp.take(k as int)),
                    all_digits(fp.take(j - dot - 1)),
                    frac < 1_000_000_000,
                decreases n - j,
            {
                let c = text.get_char(j);
                assert(fp[j - dot - 1] == c);
                match char_digit(c) {
                    None => {
                        assert(!is_digit(fp[j - dot - 1]));
                        return Err(ParseError);
                    },
                    Some(d) => {
                        let ghost pre = fp.take(j - dot);
                        assert(all_digits(pre)) by {
                            assert forall|m: int| 0 <= m < pre.len() implies is_digit(
                                #[trigger] pre[m],
                            ) by {
                                if m < pre.len() - 1 {
                                    assert(pre[m] == fp.take(j - dot - 1)[m]);
                                }
                            }
                        }
                        if k < 9 {
                            let ghost fk = fp.take(k as int + 1);
                            assert(fk.drop_last() =~= fp.take(k as int));
                            assert(fk.last() == c);
                            assert(all_digits(fk)) by {
                                assert forall|m: int| 0 <= m < fk.len() implies is_digit(
                                    #[trigger] fk[m],
                                ) by {
                                    assert(fk[m] == pre[m]);
                                }
                            }
                            proof {
                                lemma_digits_bound(fk);
                                lemma_pow10_small();
                                lemma_pow10_le(k as nat + 1, 9);
                            }
                            frac = frac * 10 + d;
                            k = k + 1;
                        }
                    },
                }
                j = j + 1;
            }
            assert(fp.take(n - dot - 1) =~= fp);
        } else {
            assert(fp =~= Seq::<char>::empty());
        }
        proof {
            assert(all_digits(fp.take(k as int))) by {
                assert forall|m: int| 0 <= m < k implies is_digit(#[trigger] fp.take(k as int)[m]) by {
                    assert(fp.take(k as int)[m] == fp[m]);
                }
            }
            lemma_digits_bound(fp.take(k as int));
            lemma_pow10_add(k as nat, (9 - k) as nat);
            let p = pow10(k as nat);
            let q = pow10((9 - k) as nat);
            assert(frac * q < p * q) by (nonlinear_arith)
                requires
                    frac < p,
                    q > 0,
            ;
            lemma_pow10_small();
            if fp.len() >= 9 {
                assert(frac9(fp) == fp.take(9));
                assert(frac9(fp) =~= frac9(fp) + zeros(0));
                lemma_append_zeros(fp.take(9), 0);
            } else {
                assert(fp.take(k as int) =~= fp);
                lemma_append_zeros(fp, (9 - k) as nat);
            }
        }
        let fr = frac * pad_factor(k);
        assert(fr == digits_value(frac9(fp)));
        let mag: u128 = acc as u128 * 1_000_000_000u128 + fr as u128;
        if start == 1 {
            if mag <= 9223372036854775808u128 {
                let v: i128 = -(mag as i128);
                Ok(Fixed9(v as i64))
            } else {
                Err(ParseError)
            }
        } else {
            if mag <= 9223372036854775807u128 {
                Ok(Fixed9(mag as i64))
            } else {
                Err(ParseError)
            }
        }
    }
}

pub proof fn lemma_pow10_add(a: nat, b: nat)
    ensures
        pow10(a) * pow10(b) == pow10(a + b),
        pow10(b) > 0,
    decreases a,
{
    lemma_pow10_pos(b);
    if a == 0 {
        assert(pow10(0) == 1);
    } else {
        lemma_pow10_add((a - 1) as nat, b);
        assert(pow10(a + b) == 10 * pow10((a + b - 1) as nat));
        assert(pow10(a) * pow10(b) == 10 * (pow10((a - 1) as nat) * pow10(b))) by (nonlinear_arith)
            requires
                pow10(a) == 10 * pow10((a - 1) as nat),
        ;
    }
}

pub proof fn lemma_pow10_pos(a: nat)
    ensures
        pow10(a) > 0,
    decreases a,
{
    if a > 0 {
        lemma_pow10_pos((a - 1) as nat);
    }
}

impl Fixed9 {
    /// The whole-number part, rounded toward zero.
    pub fn decimal(self) -> (r: i64)
        ensures
            r == trunc_div(self.0 as int, scale()),
    {
        let m = magnitude(self.0);
        let q = (m / 1_000_000_000) as i64;
        if self.0 < 0 {
            -q
        } else {
            q
        }
    }

    /// The canonical text: `[-]<integer>.<nine digits>`, which `parse` reads
    /// back to the same value.
    pub fn format(&self) -> (r: String)
        ensures
            r@ == canonical_text(self.0 as int),
    {
        let m = magnitude(self.0);
        let mut s = String::new();
        if self.0 < 0 {
            s.push('-');
        }
        push_digits(&mut s, m / 1_000_000_000);
        s.push('.');
        push_padded_digits(&mut s, m % 1_000_000_000, 9);
        assert(s@ =~= canonical_text(self.0 as int));
        s
    }

    /// The terse text for logs: truncated quotient and signed remainder by
    /// 10^9, joined by `.`, with no padding.
    pub fn display_string(&self) -> (r: String)
        ensures
            r@ == display_text(self.0 as int),
    {
        let m = magnitude(self.0);
        let q = (m / 1_000_000_000) as i64;
        let rem = (m % 1_000_000_000) as i64;
        let (q, rem) = if self.0 < 0 {
            (-q, -rem)
        } else {
            (q, rem)
        };
        let mut s = String::new();
        push_int(&mut s, q);
        s.push('.');
        push_int(&mut s, rem);
        assert(s@ =~= display_text(self.0 as int));
        s
    }

    /// Exact sum.
    pub fn add(self, rhs: Fixed9) -> (r: Fixed9)
        requires
            in_i64(self.0 + rhs.0),
        ensures
            r.0 == self.0 + rhs.0,
    {
        Fixed9(self.0 + rhs.0)
    }

    /// Exact difference.
    pub fn sub(self, rhs: Fixed9) -> (r: Fixed9)
        requires
            in_i64(self.0 - rhs.0),
        ensures
            r.0 == self.0 - rhs.0,
    {
        Fixed9(self.0 - rhs.0)
    }

    /// Exact product with an integer.
    pub fn mul(self, rhs: i64) -> (r: Fixed9)
        requires
            in_i64(self.0 * rhs),
        ensures
            r.0 == self.0 * rhs,
    {
        Fixed9(self.0 * rhs)
    }

    pub fn add_assign(&mut self, rhs: Fixed9)
        requires
            in_i64(old(self).0 + rhs.0),
        ensures
            final(self).0 == old(self).0 + rhs.0,
    {
        self.0 = self.0 + rhs.0;
    }

    pub fn sub_assign(&mut self, rhs: Fixed9)
        requires
            in_i64(old(self).0 - rhs.0),
        ensures
            final(self).0 == old(self).0 - rhs.0,
    {
        self.0 = self.0 - rhs.0;
    }

    pub fn mul_assign(&mut self, rhs: i64)
        requires
            in_i64(old(self).0 * rhs),
        ensures
            final(self).0 == old(self).0 * rhs,
    {
        self.0 = self.0 * rhs;
    }
}

/// |v| as an unsigned integer; defined for every `i64`, the least included.
fn magnitude(v: i64) -> (m: u64)
    ensures
        m == abs(v as int),
{
    if v == i64::MIN {
        9223372036854775808u64
    } else if v < 0 {
        (-v) as u64
    } else {
        v as u64
    }
}

/// Powers of ten grow with the exponent.
pub proof fn lemma_pow10_le(a: nat, b: nat)
    requires
        a <= b,
    ensures
        pow10(a) <= pow10(b),
    decreases b - a,
{
    if a < b {
        lemma_pow10_le(a, (b - 1) as nat);
        assert(pow10(b) == 10 * pow10((b - 1) as nat));
    }
}

proof fn lemma_dot_from_range(s: Seq<char>, i: int)
    requires
        0 <= i <= s.len(),
    ensures
        i <= dot_from(s, i) <= s.len(),
        dot_from(s, i) < s.len() ==> s[dot_from(s, i)] == '.',
    decreases s.len() - i,
{
    if i < s.len() && s[i] != '.' {
        lemma_dot_from_range(s, i + 1);
    }
}

/// The first point of `'-' + s`, after the sign, lies one place later than in `s`.
proof fn lemma_dot_from_shift(s: Seq<char>, i: int)
    requires
        0 <= i <= s.len(),
    ensures
        dot_from(seq!['-'] + s, i + 1) == dot_from(s, i) + 1,
    decreases s.len() - i,
{
    let t = seq!['-'] + s;
    if i < s.len() {
        assert(t[i + 1] == s[i]);
        lemma_dot_from_shift(s, i + 1);
    }
}

/// A leading `-` negates: `parse("-" + s)` is the additive inverse of
/// `parse(s)` for every unsigned literal `s`.
pub proof fn lemma_parse_negate(s: Seq<char>)
    requires
        s.len() > 0,
        s[0] != '-',
        parse_spec(s) is Some,
    ensures
        parse_spec(seq!['-'] + s) == Some(-parse_spec(s)->0),
{
    let t = seq!['-'] + s;
    assert(t[0] == '-');
    assert(sign_len(t) == 1);
    assert(sign_len(s) == 0);
    lemma_dot_from_shift(s, 0);
    lemma_dot_from_range(s, 0);
    let d = dot_index(s);
    assert(dot_index(t) == d + 1);
    assert(int_part(t) =~= int_part(s));
    if d < s.len() {
        assert(frac_part(t) =~= frac_part(s));
    } else {
        assert(frac_part(t) =~= frac_part(s));
    }
    assert(decimal_units(t) == -decimal_units(s));
}

/// A point at or after `i` that lies before `n` is found the same in a
/// prefix of length `n`.
proof fn lemma_dot_from_prefix(s: Seq<char>, i: int, n: int)
    requires
        0 <= i <= n <= s.len(),
        dot_from(s, i) < n,
    ensures
        dot_from(s.take(n), i) == dot_from(s, i),
    decreases s.len() - i,
{
    lemma_dot_from_range(s, i);
    if i < s.len() && s[i] != '.' {
        lemma_dot_from_range(s, i + 1);
        lemma_dot_from_prefix(s, i + 1, n);
    }
}

/// Fractional digits past the ninth do not count: a literal reads the same
/// once everything after its ninth fractional digit is dropped.
pub proof fn lemma_parse_truncates(s: Seq<char>)
    requires
        well_formed_decimal(s),
        frac_part(s).len() >= 9,
    ensures
        parse_spec(s) == parse_spec(s.take(dot_index(s) + 10)),
{
    let d = dot_index(s);
    lemma_dot_from_range(s, sign_len(s));
    assert(d < s.len());
    let t = s.take(d + 10);
    assert(sign_len(t) == sign_len(s));
    lemma_dot_from_prefix(s, sign_len(s), d + 10);
    assert(dot_index(t) == d);
    assert(int_part(t) =~= int_part(s));
    assert(frac_part(t) =~= frac_part(s).take(9));
    assert(frac9(frac_part(t)) =~= frac9(frac_part(s)));
    assert(all_digits(frac_part(t))) by {
        assert forall|i: int| 0 <= i < frac_part(t).len() implies is_digit(
            #[trigger] frac_part(t)[i],
        ) by {
            assert(frac_part(t)[i] == frac_part(s)[i]);
        }
    }
    assert(decimal_units(t) == decimal_units(s));
}

/// The integer digits without leading zeros, keeping at least one digit.
pub open spec fn strip_zeros(d: Seq<char>) -> Seq<char>
    decreases d.len(),
{
    if d.len() > 1 && d[0] == '0' {
        strip_zeros(d.skip(1))
    } else {
        d
    }
}

/// The canonical text of a literal: `-` when negative and nonzero, the
/// integer digits without leading zeros, `.`, and the fractional digits cut
/// or padded to nine.
pub open spec fn canonical_form(s: Seq<char>) -> Seq<char> {
    (if sign_len(s) == 1 && decimal_units(s) != 0 {
        seq!['-']
    } else {
        Seq::empty()
    }) + strip_zeros(int_part(s)) + seq!['.'] + frac9(frac_part(s))
}

proof fn lemma_all_digits_sub(d: Seq<char>, lo: int, hi: int)
    requires
        all_digits(d),
        0 <= lo <= hi <= d.len(),
    ensures
        all_digits(d.subrange(lo, hi)),
{
    assert forall|i: int| 0 <= i < hi - lo implies is_digit(#[trigger] d.subrange(lo, hi)[i]) by {
        assert(d.subrange(lo, hi)[i] == d[lo + i]);
    }
}

/// A digit string's value split at its first digit.
proof fn lemma_digits_front(d: Seq<char>)
    requires
        d.len() > 0,
    ensures
        digits_value(d) == digit_value(d[0]) * pow10((d.len() - 1) as nat) + digits_value(
            d.skip(1),
        ),
    decreases d.len(),
{
    if d.len() == 1 {
        assert(d.drop_last() =~= Seq::<char>::empty());
        assert(d.skip(1) =~= Seq::<char>::empty());
        assert(pow10(0) == 1);
    } else {
        let p = d.drop_last();
        lemma_digits_front(p);
        assert(d.skip(1).drop_last() =~= p.skip(1));
        assert(d.skip(1).last() == d.last());
        assert(p[0] == d[0]);
        let a = digit_value(d[0]);
        let k = (d.len() - 2) as nat;
        assert(pow10(k + 1) == 10 * pow10(k));
        assert(d.skip(1).len() > 0);
        assert(digits_value(d.skip(1)) == digits_value(p.skip(1)) * 10 + digit_value(d.last()));
        assert((a * pow10(k) + digits_value(p.skip(1))) * 10 + digit_value(d.last()) == a * pow10(
            k + 1,
        ) + digits_value(p.skip(1)) * 10 + digit_value(d.last())) by (nonlinear_arith)
            requires
                pow10(k + 1) == 10 * pow10(k),
        ;
    }
}

/// Dropping leading zeros keeps the value and the digits, and leaves no
/// leading zero but a lone one.
proof fn lemma_strip_zeros(d: Seq<char>)
    requires
        d.len() > 0,
        all_digits(d),
    ensures
        strip_zeros(d).len() > 0,
        all_digits(strip_zeros(d)),
        digits_value(strip_zeros(d)) == digits_value(d),
        strip_zeros(d).len() == 1 || strip_zeros(d)[0] != '0',
    decreases d.len(),
{
    if d.len() > 1 && d[0] == '0' {
        lemma_all_digits_sub(d, 1, d.len() as int);
        assert(d.skip(1) =~= d.subrange(1, d.len() as int));
        lemma_strip_zeros(d.skip(1));
        lemma_digits_front(d);
        assert(digit_value(d[0]) == 0);
    }
}

/// A digit string without a leading zero is the shortest text of its value.
proof fn lemma_nat_digits_of(d: Seq<char>)
    requires
        d.len() > 0,
        all_digits(d),
        d.len() == 1 || d[0] != '0',
    ensures
        nat_digits(digits_value(d)) == d,
    decreases d.len(),
{
    let n = digits_value(d);
    lemma_digit_char(0, d.last());
    assert(is_digit(d[d.len() - 1]));
    if d.len() == 1 {
        assert(d.drop_last() =~= Seq::<char>::empty());
        assert(digits_value(d.drop_last()) == 0);
        assert(d.last() == d[0]);
        assert(n == digits_value(d.drop_last()) * 10 + digit_value(d.last()));
        assert(n == digit_value(d[0]));
        assert(nat_digits(n) =~= d);
    } else {
        let p = d.drop_last();
        lemma_all_digits_sub(d, 0, d.len() - 1);
        assert(p =~= d.subrange(0, d.len() - 1));
        assert(p[0] == d[0]);
        lemma_nat_digits_of(p);
        lemma_digits_front(p);
        lemma_digit_char(0, p[0]);
        assert(is_digit(d[0]));
        assert(digit_value(p[0]) >= 1);
        crate::fixed9::lemma_pow10_pos((p.len() - 1) as nat);
        let a = digit_value(p[0]);
        let b = pow10((p.len() - 1) as nat);
        assert(a * b >= 1) by (nonlinear_arith)
            requires
                a >= 1,
                b >= 1,
        ;
        assert(digits_value(p) >= 1);
        let l = digit_value(d.last());
        assert(n == digits_value(p) * 10 + l);
        lemma_fundamental_div_mod_converse(n as int, 10, digits_value(p) as int, l as int);
        assert(n >= 10);
        assert(nat_digits(n) == nat_digits(n / 10).push(digit_char(n % 10)));
        assert(nat_digits(n) =~= d);
    }
}

/// Zero-padded digits of a digit string's value, at its length, give it back.
proof fn lemma_padded_of(d: Seq<char>)
    requires
        all_digits(d),
    ensures
        padded_digits(digits_value(d), d.len()) == d,
    decreases d.len(),
{
    if d.len() > 0 {
        let p = d.drop_last();
        lemma_all_digits_sub(d, 0, d.len() - 1);
        assert(p =~= d.subrange(0, d.len() - 1));
        lemma_padded_of(p);
        assert(is_digit(d[d.len() - 1]));
        lemma_digit_char(0, d.last());
        let n = digits_value(d);
        let l = digit_value(d.last());
        lemma_fundamental_div_mod_converse(n as int, 10, digits_value(p) as int, l as int);
        assert(padded_digits(n, d.len()) =~= d);
    } else {
        assert(padded_digits(digits_value(d), 0) =~= d);
    }
}

/// Reading then writing a literal gives its canonical form: same sign and
/// magnitude, integer digits without leading zeros, nine fractional digits.
pub proof fn lemma_round_trip(s: Seq<char>)
    requires
        parse_spec(s) is Some,
    ensures
        canonical_text(parse_spec(s)->0) == canonical_form(s),
{
    let ip = int_part(s);
    let fp = frac_part(s);
    let f9 = frac9(fp);
    assert(all_digits(f9)) by {
        assert forall|i: int| 0 <= i < f9.len() implies is_digit(#[trigger] f9[i]) by {
            if i < fp.len() {
                assert(f9[i] == fp[i]);
            }
        }
    }
    assert(f9.len() == 9);
    lemma_digits_bound(f9);
    lemma_pow10_small();
    let i_val = digits_value(ip);
    let f_val = digits_value(f9);
    let m = i_val * scale() + f_val;
    let v = decimal_units(s);
    assert(abs(v) == m);
    lemma_fundamental_div_mod_converse(m as int, scale(), i_val as int, f_val as int);
    lemma_strip_zeros(ip);
    lemma_nat_digits_of(strip_zeros(ip));
    lemma_padded_of(f9);
    assert((v < 0) == (sign_len(s) == 1 && v != 0));
    assert(canonical_text(v) =~= canonical_form(s));
}

} // verus!
