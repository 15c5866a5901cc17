//! Numbers as they are written in JSON text, and their display form.
use vstd::prelude::*;
use crate::json::Json;

verus! {

pub open spec fn is_digit(c: char) -> bool {
    '0' <= c && c <= '9'
}

pub open spec fn all_digits(s: Seq<char>) -> bool {
    forall|i: int| 0 <= i < s.len() ==> is_digit(#[trigger] s[i])
}

/// One digit or more, with no leading zero unless the whole is "0".
pub open spec fn is_natural_literal(s: Seq<char>) -> bool {
    s.len() > 0 && all_digits(s) && (s[0] == '0' ==> s.len() == 1)
}

/// An optional minus sign followed by a natural literal.
pub open spec fn is_integer_literal(s: Seq<char>) -> bool {
    if s.len() > 0 && s[0] == '-' {
        is_natural_literal(s.skip(1))
    } else {
        is_natural_literal(s)
    }
}

pub open spec fn digit_value(c: char) -> int {
    c as int - '0' as int
}

pub open spec fn digits_value(s: Seq<char>) -> int
    decreases s.len(),
{
    if s.len() == 0 {
        0
    } else {
        10 * digits_value(s.drop_last()) + digit_value(s.last())
    }
}

pub open spec fn integer_value(s: Seq<char>) -> int {
    if s.len() > 0 && s[0] == '-' {
        -digits_value(s.skip(1))
    } else {
        digits_value(s)
    }
}

/// Index of the first '.', or the length when there is none.
pub open spec fn point_index(s: Seq<char>) -> int
    decreases s.len(),
{
    if s.len() == 0 || s[0] == '.' {
        0
    } else {
        1 + point_index(s.skip(1))
    }
}

/// An integer literal, optionally followed by '.' and one digit or more.
/// Exponent forms are not decimal literals in this sense.
pub open spec fn is_decimal_literal(s: Seq<char>) -> bool {
    let p = point_index(s);
    is_integer_literal(s.take(p)) && (p == s.len() || (p + 1 < s.len() && all_digits(
        s.skip(p + 1),
    )))
}

pub open spec fn trim_zeros(f: Seq<char>) -> Seq<char>
    decreases f.len(),
{
    if f.len() > 0 && f.last() == '0' {
        trim_zeros(f.drop_last())
    } else {
        f
    }
}

/// The shortest form of a decimal literal: trailing zeros of the fraction
/// are dropped, and the point with them when nothing is left after it
/// ("70.0" shows as "70", "5.20" as "5.2").
pub open spec fn display_literal(s: Seq<char>) -> Seq<char> {
    let p = point_index(s);
    if p + 1 >= s.len() {
        s.take(p)
    } else {
        let f = trim_zeros(s.skip(p + 1));
        if f.len() == 0 {
            s.take(p)
        } else {
            s.take(p) + seq!['.'] + f
        }
    }
}

/// Index of the first 'e' or 'E', or the length when there is none.
pub open spec fn exponent_index(s: Seq<char>) -> int
    decreases s.len(),
{
    if s.len() == 0 || s[0] == 'e' || s[0] == 'E' {
        0
    } else {
        1 + exponent_index(s.skip(1))
    }
}

/// 'e' or 'E', an optional sign, then one digit or more.
pub open spec fn is_exponent_part(e: Seq<char>) -> bool {
    &&& e.len() >= 2
    &&& e[0] == 'e' || e[0] == 'E'
    &&& if e[1] == '+' || e[1] == '-' {
        e.len() >= 3 && all_digits(e.skip(2))
    } else {
        all_digits(e.skip(1))
    }
}

/// A JSON number: a decimal literal, optionally followed by an exponent.
pub open spec fn is_number_literal(s: Seq<char>) -> bool {
    let m = exponent_index(s);
    is_decimal_literal(s.take(m)) && (m == s.len() || is_exponent_part(s.skip(m)))
}

/// The display form of a number: the part before the exponent in its
/// shortest form (see `display_literal`), then the exponent as written.
pub open spec fn display_number(s: Seq<char>) -> Seq<char> {
    let m = exponent_index(s);
    display_literal(s.take(m)) + s.skip(m)
}

pub open spec fn digit_char(d: int) -> char {
    if d == 0 {
        '0'
    } else if d == 1 {
        '1'
    } else if d == 2 {
        '2'
    } else if d == 3 {
        '3'
    } else if d == 4 {
        '4'
    } else if d == 5 {
        '5'
    } else if d == 6 {
        '6'
    } else if d == 7 {
        '7'
    } else if d == 8 {
        '8'
    } else {
        '9'
    }
}

/// Decimal digits of a natural number, without leading zeros.
pub open spec fn natural_text(n: nat) -> Seq<char>
    decreases n,
{
    if n < 10 {
        seq![digit_char(n as int)]
    } else {
        natural_text(n / 10) + seq![digit_char((n % 10) as int)]
    }
}

/// Decimal text of an integer, with a leading '-' when it is negative.
pub open spec fn integer_text(n: int) -> Seq<char> {
    if n < 0 {
        seq!['-'] + natural_text((-n) as nat)
    } else {
        natural_text(n as nat)
    }
}

proof fn lemma_point_index(s: Seq<char>, i: int)
    requires
        0 <= i <= s.len(),
        forall|j: int| 0 <= j < i ==> s[j] != '.',
        i == s.len() || s[i] == '.',
    ensures
        point_index(s) == i,
    decreases i,
{
    if i > 0 {
        lemma_point_index(s.skip(1), i - 1);
    }
}

proof fn lemma_exponent_index(s: Seq<char>, i: int)
    requires
        0 <= i <= s.len(),
        forall|j: int| 0 <= j < i ==> s[j] != 'e' && s[j] != 'E',
        i == s.len() || s[i] == 'e' || s[i] == 'E',
    ensures
        exponent_index(s) == i,
    decreases i,
{
    if i > 0 {
        lemma_exponent_index(s.skip(1), i - 1);
    }
}

proof fn lemma_digits_prefix_grows(s: Seq<char>, i: int, j: int)
    requires
        0 <= i <= j <= s.len(),
        all_digits(s),
    ensures
        digits_value(s.take(i)) <= digits_value(s.take(j)),
        0 <= digits_value(s.take(i)),
    decreases j,
{
    if j > i {
        assert(s.take(j).drop_last() =~= s.take(j - 1));
        lemma_digits_prefix_grows(s, i, j - 1);
    } else if i > 0 {
        assert(s.take(i).drop_last() =~= s.take(i - 1));
        lemma_digits_prefix_grows(s, i - 1, i - 1);
    }
}

proof fn lemma_digit_char(d: int)
    requires
        0 <= d < 10,
    ensures
        digit_value(digit_char(d)) == d,
        is_digit(digit_char(d)),
        digit_char(d) == '0' <==> d == 0,
{
}

proof fn lemma_natural_text(n: nat)
    ensures
        is_natural_literal(natural_text(n)),
        digits_value(natural_text(n)) == n,
        n > 0 ==> natural_text(n)[0] != '0',
    decreases n,
{
    lemma_digit_char((n % 10) as int);
    let t = natural_text(n);
    if n < 10 {
        assert(n % 10 == n);
        assert(t.drop_last() =~= Seq::<char>::empty());
        assert(digits_value(t) == 10 * digits_value(t.drop_last()) + digit_value(t.last()));
    } else {
        lemma_natural_text(n / 10);
        assert(t.drop_last() =~= natural_text(n / 10));
        assert(t.last() == digit_char((n % 10) as int));
        assert(n == 10 * (n / 10) + n % 10);
        assert(digits_value(t) == 10 * digits_value(t.drop_last()) + digit_value(t.last()));
        assert(t[0] == natural_text(n / 10)[0]);
        assert forall|i: int| 0 <= i < t.len() implies is_digit(#[trigger] t[i]) by {
            if i < t.len() - 1 {
                assert(t[i] == natural_text(n / 10)[i]);
            }
        }
    }
}

/// The decimal text of an integer reads back as that integer.
pub proof fn lemma_integer_text(n: int)
    ensures
        is_integer_literal(integer_text(n)),
        integer_value(integer_text(n)) == n,
{
    if n < 0 {
        lemma_natural_text((-n) as nat);
        assert(integer_text(n).skip(1) =~= natural_text((-n) as nat));
    } else {
        lemma_natural_text(n as nat);
    }
}

/// Whether every character of `s` in `[from, to)` is a digit.
fn digits_between(s: &str, from: usize, to: usize) -> (r: bool)
    requires
        from <= to <= s@.len(),
    ensures
        r == all_digits(s@.subrange(from as int, to as int)),
{
    let mut i = from;
    while i < to
        invariant
            from <= i <= to <= s@.len(),
            forall|j: int| from <= j < i ==> is_digit(#[trigger] s@[j]),
        decreases to - i,
    {
        let c = s.get_char(i);
        if !('0' <= c && c <= '9') {
            assert(s@.subrange(from as int, to as int)[i - from] == c);
            return false;
        }
        i = i + 1;
    }
    assert forall|j: int| 0 <= j < s@.subrange(from as int, to as int).len() implies is_digit(
        #[trigger] s@.subrange(from as int, to as int)[j],
    ) by {
        assert(s@.subrange(from as int, to as int)[j] == s@[from + j]);
    }
    true
}

/// Whether `s` in `[from, to)` is a natural literal.
fn natural_between(s: &str, from: usize, to: usize) -> (r: bool)
    requires
        from <= to <= s@.len(),
    ensures
        r == is_natural_literal(s@.subrange(from as int, to as int)),
{
    if from == to {
        return false;
    }
    let d = digits_between(s, from, to);
    if !d {
        return false;
    }
    let c = s.get_char(from);
    assert(s@.subrange(from as int, to as int)[0] == c);
    c != '0' || to == from + 1
}

/// Whether `s` in `[0, to)` is an integer literal; also where its digits start.
fn integer_before(s: &str, to: usize) -> (r: (bool, usize))
    requires
        to <= s@.len(),
    ensures
        r.0 == is_integer_literal(s@.take(to as int)),
        r.1 <= to,
        r.1 == (if to > 0 && s@[0] == '-' { 1int } else { 0int }),
{
    let start: usize = if to > 0 && s.get_char(0) == '-' {
        1
    } else {
        0
    };
    let ok = natural_between(s, start, to);
    assert(s@.take(to as int).skip(start as int) =~= s@.subrange(start as int, to as int));
    assert(s@.take(to as int) =~= s@.subrange(0, to as int));
    (ok, start)
}

/// Index of the first '.' of `s`, or its length.
fn find_point(s: &str) -> (p: usize)
    ensures
        p as int == point_index(s@),
        p <= s@.len(),
{
    let n = s.unicode_len();
    let mut i: usize = 0;
    while i < n && s.get_char(i) != '.'
        invariant
            i <= n,
            n == s@.len(),
            forall|j: int| 0 <= j < i ==> s@[j] != '.',
        decreases n - i,
    {
        i = i + 1;
    }
    proof {
        lemma_point_index(s@, i as int);
    }
    i
}

/// Whether `s` is a decimal literal.
pub fn is_decimal(s: &str) -> (r: bool)
    ensures
        r == is_decimal_literal(s@),
{
    let n = s.unicode_len();
    let p = find_point(s);
    let (int_ok, _) = integer_before(s, p);
    if !int_ok {
        return false;
    }
    if p == n {
        return true;
    }
    if p + 1 >= n {
        return false;
    }
    let f = digits_between(s, p + 1, n);
    assert(s@.skip(p + 1) =~= s@.subrange(p + 1, n as int));
    f
}

/// The value of an integer literal, when it fits in an `i64`.
pub fn parse_i64(s: &str) -> (r: Option<i64>)
    ensures
        r is Some <==> is_integer_literal(s@) && i64::MIN <= integer_value(s@) <= i64::MAX,
        r matches Some(v) ==> v == integer_value(s@),
{
    let n = s.unicode_len();
    let (ok, start) = integer_before(s, n);
    assert(s@.take(n as int) =~= s@);
    if !ok {
        return None;
    }
    let ghost digits = s@.skip(start as int);
    let limit: u64 = 0x8000_0000_0000_0000;
    let mut acc: u64 = 0;
    let mut i = start;
    while i < n
        invariant
            start <= i <= n,
            n == s@.len(),
            start == (if n > 0 && s@[0] == '-' { 1int } else { 0int }),
            digits == s@.skip(start as int),
            all_digits(digits),
            acc as int == digits_value(digits.take(i - start)),
            acc <= limit,
            limit == 0x8000_0000_0000_0000u64,
        decreases n - i,
    {
        let c = s.get_char(i);
        assert(digits[i - start] == c);
        assert(is_digit(c));
        let d = (c as u32 - '0' as u32) as u64;
        assert(d < 10);
        if acc > (limit - d) / 10 {
            proof {
                assert(10 * acc + d > limit) by (nonlinear_arith)
                    requires
                        acc > (limit - d) / 10,
                        d < 10,
                        limit == 0x8000_0000_0000_0000u64,
                ;
                assert(digits.take(i - start + 1).drop_last() =~= digits.take(i - start));
                assert(s@.skip(0) =~= s@);
                let t = digits.take(i - start + 1);
                assert(t.last() == c);
                assert(digits_value(t) == 10 * acc + d);
                lemma_digits_prefix_grows(digits, i - start + 1, digits.len() as int);
                assert(digits.take(digits.len() as int) =~= digits);
                if start == 1 {
                    assert(integer_value(s@) == -digits_value(digits));
                } else {
                    assert(digits =~= s@);
                    assert(integer_value(s@) == digits_value(digits));
                }
            }
            return None;
        }
        proof {
            assert(digits.take(i - start + 1).drop_last() =~= digits.take(i - start));
        }
        acc = acc * 10 + d;
        i = i + 1;
    }
    assert(digits.take(n - start) =~= digits);
    assert(s@.skip(0) =~= s@);
    if start == 1 {
        Some((0 - (acc as i128)) as i64)
    } else if acc == limit {
        None
    } else {
        Some(acc as i64)
    }
}

/// The text of one digit.
fn digit_str(d: u64) -> (r: &'static str)
    requires
        d < 10,
    ensures
        r@ == seq![digit_char(d as int)],
{
    proof {
        reveal_strlit("0123456789");
    }
    let r = "0123456789".substring_char(d as usize, d as usize + 1);
    assert(r@ =~= seq![digit_char(d as int)]);
    r
}

fn natural_string(m: u64) -> (r: String)
    ensures
        r@ == natural_text(m as nat),
    decreases m,
{
    if m < 10 {
        String::from_str(digit_str(m))
    } else {
        let mut r = natural_string(m / 10);
        r.append(digit_str(m % 10));
        r
    }
}

/// Decimal text of an integer.
pub fn integer_string(n: i64) -> (r: String)
    ensures
        r@ == integer_text(n as int),
{
    if n < 0 {
        let m = (0 - (n as i128)) as u64;
        let digits = natural_string(m);
        proof {
            reveal_strlit("-");
        }
        String::from_str("-").concat(digits.as_str())
    } else {
        natural_string(n as u64)
    }
}

/// Index of the first 'e' or 'E' of `s`, or its length.
fn find_exponent(s: &str) -> (m: usize)
    ensures
        m as int == exponent_index(s@),
        m <= s@.len(),
{
    let n = s.unicode_len();
    let mut i: usize = 0;
    while i < n && s.get_char(i) != 'e' && s.get_char(i) != 'E'
        invariant
            i <= n,
            n == s@.len(),
            forall|j: int| 0 <= j < i ==> s@[j] != 'e' && s@[j] != 'E',
        decreases n - i,
    {
        i = i + 1;
    }
    proof {
        lemma_exponent_index(s@, i as int);
    }
    i
}

/// Whether `s` from `m` on is an exponent part.
fn exponent_from(s: &str, m: usize) -> (r: bool)
    requires
        m <= s@.len(),
    ensures
        r == is_exponent_part(s@.skip(m as int)),
{
    let n = s.unicode_len();
    let ghost e = s@.skip(m as int);
    if n - m < 2 {
        return false;
    }
    let c0 = s.get_char(m);
    let c1 = s.get_char(m + 1);
    assert(e[0] == c0 && e[1] == c1);
    if c0 != 'e' && c0 != 'E' {
        return false;
    }
    if c1 == '+' || c1 == '-' {
        if n - m < 3 {
            return false;
        }
        assert(e.skip(2) =~= s@.subrange(m + 2, n as int));
        digits_between(s, m + 2, n)
    } else {
        assert(e.skip(1) =~= s@.subrange(m + 1, n as int));
        digits_between(s, m + 1, n)
    }
}

/// Whether `s` is a JSON number.
pub fn is_number(s: &str) -> (r: bool)
    ensures
        r == is_number_literal(s@),
{
    let n = s.unicode_len();
    let m = find_exponent(s);
    let mantissa = s.substring_char(0, m);
    assert(mantissa@ =~= s@.take(m as int));
    if !is_decimal(mantissa) {
        return false;
    }
    m == n || exponent_from(s, m)
}

/// The shortest form of a decimal literal.
fn display_decimal(s: &str) -> (r: String)
    ensures
        r@ == display_literal(s@),
{
    let n = s.unicode_len();
    let p = find_point(s);
    if p >= n || p + 1 >= n {
        return String::from_str(s.substring_char(0, p));
    }
    let mut k = n;
    proof {
        assert(s@.skip(p + 1) =~= s@.subrange(p + 1, n as int));
    }
    while k > p + 1 && s.get_char(k - 1) == '0'
        invariant
            p + 1 <= k <= n,
            n == s@.len(),
            trim_zeros(s@.subrange(p + 1, k as int)) == trim_zeros(s@.skip(p + 1)),
        decreases k,
    {
        proof {
            let f = s@.subrange(p + 1, k as int);
            assert(f.drop_last() =~= s@.subrange(p + 1, k - 1));
        }
        k = k - 1;
    }
    let whole = String::from_str(s.substring_char(0, p));
    if k == p + 1 {
        assert(s@.subrange(p + 1, k as int) =~= Seq::<char>::empty());
        return whole;
    }
    proof {
        reveal_strlit(".");
    }
    let r = whole.concat(".").concat(s.substring_char(p + 1, k));
    assert(r@ =~= s@.take(p as int) + seq!['.'] + s@.subrange(p + 1, k as int));
    r
}

/// An integer as a JSON value.
pub fn integer_json(n: i64) -> (r: Json)
    ensures
        r is Number,
        r->Number_0@ == integer_text(n as int),
        is_integer_literal(r->Number_0@),
        integer_value(r->Number_0@) == n,
{
    proof {
        lemma_integer_text(n as int);
    }
    Json::Number(integer_string(n))
}

/// A number as a JSON literal writes it, kept exactly as written.
#[derive(Debug, PartialEq)]
pub struct Decimal {
    literal: String,
}

impl Clone for Decimal {
    fn clone(&self) -> (r: Decimal)
        ensures
            r@ == self@,
    {
        proof {
            use_type_invariant(self);
        }
        Decimal { literal: self.literal.clone() }
    }
}

impl View for Decimal {
    type V = Seq<char>;

    closed spec fn view(&self) -> Seq<char> {
        self.literal@
    }
}

impl Decimal {
    #[verifier::type_invariant]
    spec fn literal_is_number(&self) -> bool {
        is_number_literal(self.literal@)
    }

    pub open spec fn wf(&self) -> bool {
        is_number_literal(self@)
    }

    /// The number as a JSON value; every `Decimal` is a number literal.
    pub fn to_json(&self) -> (r: Json)
        ensures
            self.wf(),
            r is Number,
            r->Number_0@ == self@,
    {
        proof {
            use_type_invariant(self);
        }
        Json::Number(self.literal.clone())
    }

    /// The number that `s` writes, when it is a number literal.
    pub fn parse(s: &str) -> (r: Option<Decimal>)
        ensures
            r is Some <==> is_number_literal(s@),
            r matches Some(d) ==> d@ == s@ && d.wf(),
    {
        if is_number(s) {
            Some(Decimal { literal: String::from_str(s) })
        } else {
            None
        }
    }

    /// The literal as it was written.
    pub fn as_str(&self) -> (r: &str)
        ensures
            r@ == self@,
    {
        self.literal.as_str()
    }

    /// The display form of the number: see `display_number`.
    pub fn to_text(&self) -> (r: String)
        ensures
            r@ == display_number(self@),
    {
        let s = self.literal.as_str();
        let n = s.unicode_len();
        let m = find_exponent(s);
        let mantissa = s.substring_char(0, m);
        let r = display_decimal(mantissa).concat(s.substring_char(m, n));
        assert(r@ =~= display_number(self@));
        r
    }
}

} // verus!
