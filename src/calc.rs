//! The textual form of `calc()` expressions.
//!
//! An expression is a sum of products of factors, left-associative, with
//! `*` and `/` binding tighter than `+` and `-`. A factor is a length with
//! its unit (`10px`, `25vw`, `50vh`, `10vmin`, `15vmax`), a percentage in
//! double quotes (`"50%"`), a plain number with a point (`2.0`, a pixel
//! amount, whose fraction must be zero), a parenthesized expression, or a
//! factor negated with `-` (which reads as `0px - factor`). Amounts are
//! decimal digits that fit an `i64`; spaces, tabs and line breaks may stand
//! between tokens.
use vstd::prelude::*;
use crate::units::{CalcExpr, Units};
use vstd::string::StringSliceAdditionalSpecFns;

verus! {

pub open spec fn is_space(b: u8) -> bool {
    b == 32 || b == 9 || b == 10 || b == 13
}

pub open spec fn is_digit(b: u8) -> bool {
    48 <= b <= 57
}

/// A byte that continues a literal's suffix: a letter, a digit or `_`.
pub open spec fn is_word(b: u8) -> bool {
    (97 <= b <= 122) || (65 <= b <= 90) || is_digit(b) || b == 95
}

/// The first position at or after `p` that is not white space.
pub open spec fn skip_space(s: Seq<u8>, p: int) -> int
    decreases s.len() - p,
{
    if 0 <= p < s.len() && is_space(s[p]) {
        skip_space(s, p + 1)
    } else {
        p
    }
}

/// The end of the run of digits that starts at `p`.
pub open spec fn digits_end(s: Seq<u8>, p: int) -> int
    decreases s.len() - p,
{
    if 0 <= p < s.len() && is_digit(s[p]) {
        digits_end(s, p + 1)
    } else {
        p
    }
}

/// The end of the run of suffix bytes that starts at `p`.
pub open spec fn word_end(s: Seq<u8>, p: int) -> int
    decreases s.len() - p,
{
    if 0 <= p < s.len() && is_word(s[p]) {
        word_end(s, p + 1)
    } else {
        p
    }
}

/// The decimal value of the digits in `s[p..q]`.
pub open spec fn digits_value(s: Seq<u8>, p: int, q: int) -> int
    decreases q - p,
{
    if q <= p {
        0
    } else {
        digits_value(s, p, q - 1) * 10 + (s[q - 1] - 48)
    }
}

/// Whether `s[p..q]` are all `0`.
pub open spec fn all_zeros(s: Seq<u8>, p: int, q: int) -> bool {
    forall|i: int| p <= i < q ==> s[i] == 48
}

/// The length that amount `n` with the unit spelled by `s[p..e]` denotes.
pub open spec fn with_unit(s: Seq<u8>, p: int, e: int, n: i64) -> Option<Units> {
    if e - p == 2 && s[p] == 112 && s[p + 1] == 120 {
        Some(Units::Px(n))
    } else if e - p == 2 && s[p] == 118 && s[p + 1] == 119 {
        Some(Units::Vw(n))
    } else if e - p == 2 && s[p] == 118 && s[p + 1] == 104 {
        Some(Units::Vh(n))
    } else if e - p == 4 && s[p] == 118 && s[p + 1] == 109 && s[p + 2] == 105 && s[p + 3] == 110 {
        Some(Units::Vmin(n))
    } else if e - p == 4 && s[p] == 118 && s[p + 1] == 109 && s[p + 2] == 97 && s[p + 3] == 120 {
        Some(Units::Vmax(n))
    } else {
        None
    }
}

/// A numeric literal starting at digit position `p`, and where it ends.
pub open spec fn number(s: Seq<u8>, p: int) -> Option<(CalcExpr, int)> {
    let q = digits_end(s, p);
    let n = digits_value(s, p, q);
    if q == p || n > i64::MAX {
        None
    } else if q < s.len() && s[q] == 46 {
        let r = digits_end(s, q + 1);
        if r == q + 1 || !all_zeros(s, q + 1, r) || word_end(s, r) != r {
            None
        } else {
            Some((CalcExpr::Value(Units::Px(n as i64)), r))
        }
    } else {
        let e = word_end(s, q);
        match with_unit(s, q, e, n as i64) {
            Some(u) => Some((CalcExpr::Value(u), e)),
            None => None,
        }
    }
}

/// A quoted percentage whose opening quote is at `p`, and where it ends.
pub open spec fn percent(s: Seq<u8>, p: int) -> Option<(CalcExpr, int)> {
    let q = digits_end(s, p + 1);
    let n = digits_value(s, p + 1, q);
    if q == p + 1 || n > i64::MAX || q + 1 >= s.len() || s[q] != 37 || s[q + 1] != 34 {
        None
    } else {
        Some((CalcExpr::Value(Units::Perc(n as i64)), q + 2))
    }
}

/// A factor starting at or after `p`, and where it ends.
pub open spec fn factor(s: Seq<u8>, p: int) -> Option<(CalcExpr, int)>
    decreases s.len() - p, 1int,
{
    let p1 = skip_space(s, p);
    if p1 < p || p1 >= s.len() {
        None
    } else if s[p1] == 45 {
        match factor(s, p1 + 1) {
            Some((e, q)) => Some(
                (CalcExpr::Sub(Box::new(CalcExpr::Value(Units::Px(0))), Box::new(e)), q),
            ),
            None => None,
        }
    } else if s[p1] == 40 {
        match sum(s, p1 + 1) {
            Some((e, q)) => {
                let q1 = skip_space(s, q);
                if 0 <= q1 < s.len() && s[q1] == 41 {
                    Some((CalcExpr::Paren(Box::new(e)), q1 + 1))
                } else {
                    None
                }
            },
            None => None,
        }
    } else if s[p1] == 34 {
        percent(s, p1)
    } else if is_digit(s[p1]) {
        number(s, p1)
    } else {
        None
    }
}

/// The products that follow `acc`, from `p` on.
pub open spec fn product_rest(s: Seq<u8>, p: int, acc: CalcExpr) -> Option<(CalcExpr, int)>
    decreases s.len() - p, 2int,
{
    let p1 = skip_space(s, p);
    if p <= p1 < s.len() && (s[p1] == 42 || s[p1] == 47) {
        match factor(s, p1 + 1) {
            Some((e, q)) => if p < q <= s.len() {
                let next = if s[p1] == 42 {
                    CalcExpr::Mul(Box::new(acc), Box::new(e))
                } else {
                    CalcExpr::Div(Box::new(acc), Box::new(e))
                };
                product_rest(s, q, next)
            } else {
                None
            },
            None => None,
        }
    } else {
        Some((acc, p))
    }
}

/// A product starting at or after `p`, and where it ends.
pub open spec fn product(s: Seq<u8>, p: int) -> Option<(CalcExpr, int)>
    decreases s.len() - p, 3int,
{
    match factor(s, p) {
        Some((e, q)) => if p <= q <= s.len() {
            product_rest(s, q, e)
        } else {
            None
        },
        None => None,
    }
}

/// The sums that follow `acc`, from `p` on.
pub open spec fn sum_rest(s: Seq<u8>, p: int, acc: CalcExpr) -> Option<(CalcExpr, int)>
    decreases s.len() - p, 4int,
{
    let p1 = skip_space(s, p);
    if p <= p1 < s.len() && (s[p1] == 43 || s[p1] == 45) {
        match product(s, p1 + 1) {
            Some((e, q)) => if p < q <= s.len() {
                let next = if s[p1] == 43 {
                    CalcExpr::Add(Box::new(acc), Box::new(e))
                } else {
                    CalcExpr::Sub(Box::new(acc), Box::new(e))
                };
                sum_rest(s, q, next)
            } else {
                None
            },
            None => None,
        }
    } else {
        Some((acc, p))
    }
}

/// A sum starting at or after `p`, and where it ends.
pub open spec fn sum(s: Seq<u8>, p: int) -> Option<(CalcExpr, int)>
    decreases s.len() - p, 5int,
{
    match product(s, p) {
        Some((e, q)) => if p <= q <= s.len() {
            sum_rest(s, q, e)
        } else {
            None
        },
        None => None,
    }
}

/// The length that the whole of `s` spells as a `calc()` expression, if it
/// spells one.
pub open spec fn calc_of(s: Seq<u8>) -> Option<Units> {
    match sum(s, 0) {
        Some((e, q)) => if skip_space(s, q) == s.len() {
            Some(Units::Calc(Box::new(e)))
        } else {
            None
        },
        None => None,
    }
}

/// The exec result `r` is the spec result `spec`, with the end position as
/// a `usize` within the input.
pub open spec fn agrees(r: Option<(CalcExpr, usize)>, spec: Option<(CalcExpr, int)>, len: int) -> bool {
    match r {
        Some((e, q)) => spec == Some((e, q as int)) && q <= len,
        None => spec is None,
    }
}

fn is_space_byte(b: u8) -> (r: bool)
    ensures
        r == is_space(b),
{
    b == 32 || b == 9 || b == 10 || b == 13
}

fn is_digit_byte(b: u8) -> (r: bool)
    ensures
        r == is_digit(b),
{
    48 <= b && b <= 57
}

fn is_word_byte(b: u8) -> (r: bool)
    ensures
        r == is_word(b),
{
    (97 <= b && b <= 122) || (65 <= b && b <= 90) || (48 <= b && b <= 57) || b == 95
}

fn skip_space_at(s: &[u8], p: usize) -> (r: usize)
    requires
        p <= s@.len(),
    ensures
        r == skip_space(s@, p as int),
        p <= r <= s@.len(),
{
    let mut i = p;
    while i < s.len() && is_space_byte(s[i])
        invariant
            p <= i <= s@.len(),
            skip_space(s@, i as int) == skip_space(s@, p as int),
        decreases s@.len() - i,
    {
        i += 1;
    }
    i
}

fn digits_end_at(s: &[u8], p: usize) -> (r: usize)
    requires
        p <= s@.len(),
    ensures
        r == digits_end(s@, p as int),
        p <= r <= s@.len(),
        forall|i: int| p <= i < r ==> is_digit(#[trigger] s@[i]),
{
    let mut i = p;
    while i < s.len() && is_digit_byte(s[i])
        invariant
            p <= i <= s@.len(),
            digits_end(s@, i as int) == digits_end(s@, p as int),
            forall|j: int| p <= j < i ==> is_digit(#[trigger] s@[j]),
        decreases s@.len() - i,
    {
        i += 1;
    }
    i
}

fn word_end_at(s: &[u8], p: usize) -> (r: usize)
    requires
        p <= s@.len(),
    ensures
        r == word_end(s@, p as int),
        p <= r <= s@.len(),
{
    let mut i = p;
    while i < s.len() && is_word_byte(s[i])
        invariant
            p <= i <= s@.len(),
            word_end(s@, i as int) == word_end(s@, p as int),
        decreases s@.len() - i,
    {
        i += 1;
    }
    i
}

proof fn lemma_digits_grow(s: Seq<u8>, p: int, j: int, q: int)
    requires
        p <= j <= q <= s.len(),
        forall|i: int| p <= i < q ==> is_digit(#[trigger] s[i]),
    ensures
        0 <= digits_value(s, p, j) <= digits_value(s, p, q),
    decreases q - p,
{
    if q > p {
        if j < q {
            lemma_digits_grow(s, p, j, q - 1);
        } else {
            lemma_digits_grow(s, p, q - 1, q - 1);
        }
        assert(is_digit(s[q - 1]));
    }
}

/// The value of the digits `s[p..q]`, or `None` when it exceeds `i64::MAX`.
fn digits_value_at(s: &[u8], p: usize, q: usize) -> (r: Option<i64>)
    requires
        p <= q <= s@.len(),
        forall|i: int| p <= i < q ==> is_digit(#[trigger] s@[i]),
    ensures
        match r {
            Some(n) => n == digits_value(s@, p as int, q as int),
            None => digits_value(s@, p as int, q as int) > i64::MAX,
        },
{
    let mut n: i64 = 0;
    let mut i = p;
    while i < q
        invariant
            p <= i <= q <= s@.len(),
            forall|j: int| p <= j < q ==> is_digit(#[trigger] s@[j]),
            n == digits_value(s@, p as int, i as int),
            0 <= n,
        decreases q - i,
    {
        assert(is_digit(s@[i as int]));
        let d = (s[i] - 48) as i64;
        if n > (i64::MAX - d) / 10 {
            proof {
                lemma_digits_grow(s@, p as int, (i + 1) as int, q as int);
            }
            return None;
        }
        n = n * 10 + d;
        i += 1;
    }
    Some(n)
}

fn all_zeros_at(s: &[u8], p: usize, q: usize) -> (r: bool)
    requires
        p <= q <= s@.len(),
    ensures
        r == all_zeros(s@, p as int, q as int),
{
    let mut i = p;
    while i < q
        invariant
            p <= i <= q <= s@.len(),
            forall|j: int| p <= j < i ==> s@[j] == 48,
        decreases q - i,
    {
        if s[i] != 48 {
            return false;
        }
        i += 1;
    }
    true
}

fn with_unit_at(s: &[u8], p: usize, e: usize, n: i64) -> (r: Option<Units>)
    requires
        p <= e <= s@.len(),
    ensures
        r == with_unit(s@, p as int, e as int, n),
{
    let len = e - p;
    if len == 2 && s[p] == 112 && s[p + 1] == 120 {
        Some(Units::Px(n))
    } else if len == 2 && s[p] == 118 && s[p + 1] == 119 {
        Some(Units::Vw(n))
    } else if len == 2 && s[p] == 118 && s[p + 1] == 104 {
        Some(Units::Vh(n))
    } else if len == 4 && s[p] == 118 && s[p + 1] == 109 && s[p + 2] == 105 && s[p + 3] == 110 {
        Some(Units::Vmin(n))
    } else if len == 4 && s[p] == 118 && s[p + 1] == 109 && s[p + 2] == 97 && s[p + 3] == 120 {
        Some(Units::Vmax(n))
    } else {
        None
    }
}

fn number_at(s: &[u8], p: usize) -> (r: Option<(CalcExpr, usize)>)
    requires
        p <= s@.len(),
    ensures
        agrees(r, number(s@, p as int), s@.len() as int),
{
    let q = digits_end_at(s, p);
    if q == p {
        return None;
    }
    let n = match digits_value_at(s, p, q) {
        Some(n) => n,
        None => {
            return None;
        },
    };
    if q < s.len() && s[q] == 46 {
        let r = digits_end_at(s, q + 1);
        if r == q + 1 || !all_zeros_at(s, q + 1, r) || word_end_at(s, r) != r {
            None
        } else {
            Some((CalcExpr::Value(Units::Px(n)), r))
        }
    } else {
        let e = word_end_at(s, q);
        match with_unit_at(s, q, e, n) {
            Some(u) => Some((CalcExpr::Value(u), e)),
            None => None,
        }
    }
}

fn percent_at(s: &[u8], p: usize) -> (r: Option<(CalcExpr, usize)>)
    requires
        p < s@.len(),
    ensures
        agrees(r, percent(s@, p as int), s@.len() as int),
{
    let len = s.len();
    let q = digits_end_at(s, p + 1);
    if q == p + 1 {
        return None;
    }
    let n = match digits_value_at(s, p + 1, q) {
        Some(n) => n,
        None => {
            return None;
        },
    };
    if q >= len || q + 1 >= len || s[q] != 37 || s[q + 1] != 34 {
        None
    } else {
        Some((CalcExpr::Value(Units::Perc(n)), q + 2))
    }
}

fn factor_at(s: &[u8], p: usize) -> (r: Option<(CalcExpr, usize)>)
    requires
        p <= s@.len(),
    ensures
        agrees(r, factor(s@, p as int), s@.len() as int),
    decreases s@.len() - p, 1int,
{
    let p1 = skip_space_at(s, p);
    if p1 >= s.len() {
        None
    } else if s[p1] == 45 {
        match factor_at(s, p1 + 1) {
            Some((e, q)) => Some(
                (CalcExpr::Sub(Box::new(CalcExpr::Value(Units::Px(0))), Box::new(e)), q),
            ),
            None => None,
        }
    } else if s[p1] == 40 {
        match sum_at(s, p1 + 1) {
            Some((e, q)) => {
                let q1 = skip_space_at(s, q);
                if q1 < s.len() && s[q1] == 41 {
                    Some((CalcExpr::Paren(Box::new(e)), q1 + 1))
                } else {
                    None
                }
            },
            None => None,
        }
    } else if s[p1] == 34 {
        percent_at(s, p1)
    } else if is_digit_byte(s[p1]) {
        number_at(s, p1)
    } else {
        None
    }
}

fn product_rest_at(s: &[u8], p: usize, acc: CalcExpr) -> (r: Option<(CalcExpr, usize)>)
    requires
        p <= s@.len(),
    ensures
        agrees(r, product_rest(s@, p as int, acc), s@.len() as int),
    decreases s@.len() - p, 2int,
{
    let p1 = skip_space_at(s, p);
    if p1 < s.len() && (s[p1] == 42 || s[p1] == 47) {
        match factor_at(s, p1 + 1) {
            Some((e, q)) => if p < q {
                let next = if s[p1] == 42 {
                    CalcExpr::Mul(Box::new(acc), Box::new(e))
                } else {
                    CalcExpr::Div(Box::new(acc), Box::new(e))
                };
                product_rest_at(s, q, next)
            } else {
                None
            },
            None => None,
        }
    } else {
        Some((acc, p))
    }
}

fn product_at(s: &[u8], p: usize) -> (r: Option<(CalcExpr, usize)>)
    requires
        p <= s@.len(),
    ensures
        agrees(r, product(s@, p as int), s@.len() as int),
    decreases s@.len() - p, 3int,
{
    match factor_at(s, p) {
        Some((e, q)) => if p <= q {
            product_rest_at(s, q, e)
        } else {
            None
        },
        None => None,
    }
}

fn sum_rest_at(s: &[u8], p: usize, acc: CalcExpr) -> (r: Option<(CalcExpr, usize)>)
    requires
        p <= s@.len(),
    ensures
        agrees(r, sum_rest(s@, p as int, acc), s@.len() as int),
    decreases s@.len() - p, 4int,
{
    let p1 = skip_space_at(s, p);
    if p1 < s.len() && (s[p1] == 43 || s[p1] == 45) {
        match product_at(s, p1 + 1) {
            Some((e, q)) => if p < q {
                let next = if s[p1] == 43 {
                    CalcExpr::Add(Box::new(acc), Box::new(e))
                } else {
                    CalcExpr::Sub(Box::new(acc), Box::new(e))
                };
                sum_rest_at(s, q, next)
            } else {
                None
            },
            None => None,
        }
    } else {
        Some((acc, p))
    }
}

fn sum_at(s: &[u8], p: usize) -> (r: Option<(CalcExpr, usize)>)
    requires
        p <= s@.len(),
    ensures
        agrees(r, sum(s@, p as int), s@.len() as int),
    decreases s@.len() - p, 5int,
{
    match product_at(s, p) {
        Some((e, q)) => if p <= q {
            sum_rest_at(s, q, e)
        } else {
            None
        },
        None => None,
    }
}

/// Reads a `calc()` expression from text: `Some` of the length it spells
/// when the whole of `src` is one expression, `None` otherwise.
pub fn calc(src: &str) -> (r: Option<Units>)
    ensures
        r == calc_of(src.spec_bytes()),
{
    let s = src.as_bytes();
    match sum_at(s, 0) {
        Some((e, q)) => if skip_space_at(s, q) == s.len() {
            Some(Units::Calc(Box::new(e)))
        } else {
            None
        },
        None => None,
    }
}

} // verus!
