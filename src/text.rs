//! Decimal numbers as text: reading an unsigned integer the way `u32::from_str`
//! does, writing one out, and the textual order of decimal renderings.
use vstd::prelude::*;

verus! {

/// Whether `c` is one of the ASCII digits `0`..`9`.
pub open spec fn is_digit(c: char) -> bool {
    '0' <= c && c <= '9'
}

pub open spec fn digit_value(c: char) -> nat {
    (c as u32 - '0' as u32) as nat
}

/// The number that a sequence of digits denotes, most significant first.
pub open spec fn digits_value(s: Seq<char>) -> nat
    decreases s.len(),
{
    if s.len() == 0 {
        0
    } else {
        digits_value(s.drop_last()) * 10 + digit_value(s.last())
    }
}

pub open spec fn all_digits(s: Seq<char>) -> bool {
    forall|i: int| 0 <= i < s.len() ==> is_digit(#[trigger] s[i])
}

/// The digits of an unsigned number as written: an optional leading `+` is dropped.
pub open spec fn unsigned_body(s: Seq<char>) -> Seq<char> {
    if s.len() > 0 && s[0] == '+' {
        s.drop_first()
    } else {
        s
    }
}

/// What reading `s` as a `u32` gives: an optional `+` followed by at least one
/// digit and nothing else, with a value that fits in 32 bits.
pub open spec fn parse_u32(s: Seq<char>) -> Option<u32> {
    let body = unsigned_body(s);
    if body.len() > 0 && all_digits(body) && digits_value(body) <= u32::MAX {
        Some(digits_value(body) as u32)
    } else {
        None
    }
}

proof fn lemma_digits_value_grows(s: Seq<char>, i: int, j: int)
    requires
        0 <= i <= j <= s.len(),
        all_digits(s),
    ensures
        digits_value(s.subrange(0, i)) <= digits_value(s.subrange(0, j)),
    decreases j - i,
{
    if i < j {
        lemma_digits_value_grows(s, i, j - 1);
        let t = s.subrange(0, j);
        assert(t.drop_last() =~= s.subrange(0, j - 1));
    }
}

proof fn lemma_digits_step(b: Seq<char>, k: int)
    requires
        0 <= k < b.len(),
        all_digits(b.subrange(0, k)),
        is_digit(b[k]),
    ensures
        digits_value(b.subrange(0, k + 1)) == digits_value(b.subrange(0, k)) * 10 + digit_value(b[k]),
        all_digits(b.subrange(0, k + 1)),
{
    assert(b.subrange(0, k + 1).drop_last() =~= b.subrange(0, k));
    assert forall|j: int| 0 <= j < k + 1 implies is_digit(#[trigger] b.subrange(0, k + 1)[j]) by {
        if j < k {
            assert(b.subrange(0, k + 1)[j] == b.subrange(0, k)[j]);
        }
    }
}

/// Reads `s` as a `u32`, accepting exactly what `parse_u32` describes.
pub fn read_u32(s: &str) -> (r: Option<u32>)
    ensures
        r == parse_u32(s@),
{
    let n = s.unicode_len();
    let mut start: usize = 0;
    if n > 0 && s.get_char(0) == '+' {
        start = 1;
    }
    let ghost body = unsigned_body(s@);
    assert(body =~= s@.subrange(start as int, n as int));
    if start == n {
        return None;
    }
    let mut value: u32 = 0;
    let mut i: usize = start;
    assert(body.subrange(0, 0) =~= Seq::<char>::empty());
    while i < n
        invariant
            start <= i <= n,
            n == s@.len(),
            body == unsigned_body(s@),
            body.len() == n - start,
            forall|j: int| 0 <= j < body.len() ==> #[trigger] body[j] == s@[start + j],
            all_digits(body.subrange(0, i - start)),
            value as nat == digits_value(body.subrange(0, i - start)),
        decreases n - i,
    {
        let c = s.get_char(i);
        let ghost k = i - start;
        assert(c == body[k]);
        if !('0' <= c && c <= '9') {
            assert(!is_digit(body[k]));
            assert(!all_digits(body));
            return None;
        }
        let d = (c as u32) - ('0' as u32);
        proof {
            lemma_digits_step(body, k);
        }
        if value > (u32::MAX - d) / 10 {
            proof {
                assert(value * 10 + d > u32::MAX) by (nonlinear_arith)
                    requires
                        value > (u32::MAX - d) / 10,
                        d <= 9,
                ;
                if all_digits(body) {
                    lemma_digits_value_grows(body, k + 1, body.len() as int);
                    assert(body.subrange(0, body.len() as int) =~= body);
                }
            }
            return None;
        }
        value = value * 10 + d;
        i = i + 1;
    }
    assert(body.subrange(0, n - start) =~= body);
    Some(value)
}

/// The decimal digits of `n`, most significant first, as digit values.
pub open spec fn digits(n: nat) -> Seq<u8>
    decreases n,
{
    if n < 10 {
        seq![n as u8]
    } else {
        digits(n / 10).push((n % 10) as u8)
    }
}

/// Strict lexicographic order of `a` and `b`, from position `i` on.
pub open spec fn less_from(a: Seq<u8>, b: Seq<u8>, i: int) -> bool
    decreases a.len() - i,
{
    if i >= a.len() {
        i < b.len()
    } else if i >= b.len() {
        false
    } else if a[i] != b[i] {
        a[i] < b[i]
    } else {
        less_from(a, b, i + 1)
    }
}

/// Whether the decimal text of `a` comes strictly before that of `b`
/// (so "10" comes before "2"). Digits are compared by value, which is how
/// their characters compare.
pub open spec fn text_less(a: nat, b: nat) -> bool {
    less_from(digits(a), digits(b), 0)
}

/// No sequence comes strictly before itself, and of two sequences at most one
/// comes strictly before the other.
pub proof fn lemma_less_asymmetric(a: Seq<u8>, b: Seq<u8>, i: int)
    requires
        0 <= i,
        less_from(a, b, i),
    ensures
        !less_from(b, a, i),
    decreases a.len() - i,
{
    if i < a.len() && i < b.len() && a[i] == b[i] {
        lemma_less_asymmetric(a, b, i + 1);
    }
}

/// Where `c` comes before `a`, any `b` comes after `c` or before `a`; so "does
/// not come after" is transitive.
pub proof fn lemma_less_split(a: Seq<u8>, b: Seq<u8>, c: Seq<u8>, i: int)
    requires
        0 <= i,
        less_from(c, a, i),
    ensures
        less_from(b, a, i) || less_from(c, b, i),
    decreases c.len() - i,
{
    if i < c.len() && i < a.len() && i < b.len() && c[i] == a[i] && b[i] == a[i] {
        lemma_less_split(a, b, c, i + 1);
    }
}

/// The decimal digits of `n`.
pub fn digits_of(n: u64) -> (r: Vec<u8>)
    ensures
        r@ == digits(n as nat),
    decreases n,
{
    if n < 10 {
        vec![n as u8]
    } else {
        let mut v = digits_of(n / 10);
        v.push((n % 10) as u8);
        v
    }
}

/// Whether the decimal text of `a` comes strictly before that of `b`.
pub fn text_before(a: u64, b: u64) -> (r: bool)
    ensures
        r == text_less(a as nat, b as nat),
{
    let da = digits_of(a);
    let db = digits_of(b);
    let mut i: usize = 0;
    while i < da.len() && i < db.len() && da[i] == db[i]
        invariant
            i <= da.len(),
            i <= db.len(),
            less_from(da@, db@, 0) == less_from(da@, db@, i as int),
        decreases da.len() - i,
    {
        i = i + 1;
    }
    if i >= da.len() {
        i < db.len()
    } else if i >= db.len() {
        false
    } else {
        da[i] < db[i]
    }
}

pub open spec fn digit_char(d: u8) -> char {
    ('0' as u8 + d) as char
}

/// The decimal text of `n`.
pub open spec fn decimal(n: nat) -> Seq<char> {
    digits(n).map_values(|d: u8| digit_char(d))
}

fn digit_text(d: u8) -> (r: &'static str)
    requires
        d < 10,
    ensures
        r@ == seq![digit_char(d)],
{
    if d == 0 {
        proof { reveal_strlit("0"); }
        "0"
    } else if d == 1 {
        proof { reveal_strlit("1"); }
        "1"
    } else if d == 2 {
        proof { reveal_strlit("2"); }
        "2"
    } else if d == 3 {
        proof { reveal_strlit("3"); }
        "3"
    } else if d == 4 {
        proof { reveal_strlit("4"); }
        "4"
    } else if d == 5 {
        proof { reveal_strlit("5"); }
        "5"
    } else if d == 6 {
        proof { reveal_strlit("6"); }
        "6"
    } else if d == 7 {
        proof { reveal_strlit("7"); }
        "7"
    } else if d == 8 {
        proof { reveal_strlit("8"); }
        "8"
    } else {
        proof { reveal_strlit("9"); }
        "9"
    }
}

proof fn lemma_digits_small(n: nat)
    ensures
        forall|i: int| 0 <= i < digits(n).len() ==> #[trigger] digits(n)[i] < 10,
    decreases n,
{
    if n >= 10 {
        lemma_digits_small(n / 10);
        assert forall|i: int| 0 <= i < digits(n).len() implies #[trigger] digits(n)[i] < 10 by {
            if i < digits(n / 10).len() {
                assert(digits(n)[i] == digits(n / 10)[i]);
            }
        }
    }
}

/// The decimal text of `n`.
pub fn decimal_text(n: u64) -> (r: String)
    ensures
        r@ == decimal(n as nat),
{
    let ds = digits_of(n);
    proof { lemma_digits_small(n as nat); }
    let mut r = String::new();
    let mut i: usize = 0;
    while i < ds.len()
        invariant
            i <= ds.len(),
            ds@ == digits(n as nat),
            forall|j: int| 0 <= j < ds@.len() ==> #[trigger] ds@[j] < 10,
            r@ =~= ds@.subrange(0, i as int).map_values(|d: u8| digit_char(d)),
        decreases ds.len() - i,
    {
        r.append(digit_text(ds[i]));
        i = i + 1;
        assert(r@ =~= ds@.subrange(0, i as int).map_values(|d: u8| digit_char(d)));
    }
    assert(ds@.subrange(0, ds.len() as int) =~= ds@);
    r
}

/// The decimal text of a signed number: a `-` before the digits of a negative one.
pub open spec fn signed_decimal(n: int) -> Seq<char> {
    if n < 0 {
        seq!['-'] + decimal((-n) as nat)
    } else {
        decimal(n as nat)
    }
}

/// The decimal text of `n`, with a leading `-` where it is negative.
pub fn signed_decimal_text(n: i32) -> (r: String)
    ensures
        r@ == signed_decimal(n as int),
{
    if n < 0 {
        let magnitude: u64 = (0i64 - n as i64) as u64;
        let digits = decimal_text(magnitude);
        proof { reveal_strlit("-"); }
        let mut r = String::from_str("-");
        r.append(digits.as_str());
        r
    } else {
        decimal_text(n as u64)
    }
}

} // verus!
