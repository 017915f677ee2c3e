//! The `X-Code` header: a non-negative integer written in base 10, of any size.

use vstd::prelude::*;

verus! {

pub open spec fn is_digit(c: char) -> bool {
    '0' <= c && c <= '9'
}

pub open spec fn all_digits(s: Seq<char>) -> bool {
    forall|i: int| 0 <= i < s.len() ==> is_digit(#[trigger] s[i])
}

/// The text after an optional leading `+`.
pub open spec fn unsigned_part(s: Seq<char>) -> Seq<char> {
    if s.len() > 0 && s[0] == '+' {
        s.drop_first()
    } else {
        s
    }
}

/// Whether `s` is a non-negative integer in base 10: an optional `+`, then
/// one or more digits.
pub open spec fn is_code_text(s: Seq<char>) -> bool {
    let d = unsigned_part(s);
    d.len() > 0 && all_digits(d)
}

/// A string of digits without its leading zeros (`0` stays `0`).
pub open spec fn without_leading_zeros(d: Seq<char>) -> Seq<char>
    decreases d.len(),
{
    if d.len() > 1 && d[0] == '0' {
        without_leading_zeros(d.drop_first())
    } else {
        d
    }
}

/// The code used when `X-Code` is absent, not text, or not a number.
pub open spec fn default_code() -> Seq<char> {
    seq!['4', '0', '4']
}

/// The code that a request asks for, in canonical base-10 form, given its
/// `X-Code` header as text (`None` when the header is absent or is not text).
pub open spec fn requested_code(h: Option<Seq<char>>) -> Seq<char> {
    match h {
        Some(s) => if is_code_text(s) {
            without_leading_zeros(unsigned_part(s))
        } else {
            default_code()
        },
        None => default_code(),
    }
}

/// Whether `d` is a code in canonical form: digits, at least one, and no
/// leading zero unless it is `0` itself.
pub open spec fn is_canonical_code(d: Seq<char>) -> bool {
    &&& d.len() > 0
    &&& all_digits(d)
    &&& (d.len() > 1 ==> d[0] != '0')
}

pub open spec fn digit_value(c: char) -> nat {
    (c as int - '0' as int) as nat
}

/// The number that a string of decimal digits denotes.
pub open spec fn digits_value(s: Seq<char>) -> nat
    decreases s.len(),
{
    if s.len() == 0 {
        0
    } else {
        digits_value(s.drop_last()) * 10 + digit_value(s.last())
    }
}

pub open spec fn digit_char(d: nat) -> char {
    if d == 0 {
        '0'
    } else if d == 1 {
        '1'
    } else if d == 2 {
        '2'
    } else if d == 3 {
        '3'
    } else if d == 4 {
        '4'
    } else if d == 5 {
        '5'
    } else if d == 6 {
        '6'
    } else if d == 7 {
        '7'
    } else if d == 8 {
        '8'
    } else {
        '9'
    }
}

/// `n` written in base 10, without leading zeros.
pub open spec fn decimal(n: nat) -> Seq<char>
    decreases n,
{
    if n < 10 {
        seq![digit_char(n)]
    } else {
        decimal(n / 10).push(digit_char(n % 10))
    }
}

proof fn lemma_digit_char(d: nat)
    requires
        d < 10,
    ensures
        is_digit(digit_char(d)),
        digit_value(digit_char(d)) == d,
        d > 0 ==> digit_char(d) != '0',
{
}

/// `decimal(n)` is a canonical string of digits that denotes `n`.
pub proof fn lemma_decimal(n: nat)
    ensures
        is_canonical_code(decimal(n)),
        digits_value(decimal(n)) == n,
    decreases n,
{
    lemma_digit_char(n % 10);
    if n >= 10 {
        lemma_decimal(n / 10);
        let s = decimal(n);
        assert(s.drop_last() =~= decimal(n / 10));
        assert(s.last() == digit_char(n % 10));
        assert(digits_value(s) == (n / 10) * 10 + n % 10);
        assert forall|i: int| 0 <= i < s.len() implies is_digit(#[trigger] s[i]) by {
            if i < s.len() - 1 {
                assert(s[i] == decimal(n / 10)[i]);
            }
        }
        if n / 10 < 10 {
            lemma_digit_char(n / 10);
        } else {
            lemma_decimal(n / 100);
        }
        assert(s[0] == decimal(n / 10)[0]);
    } else {
        assert(decimal(n).drop_last() =~= Seq::<char>::empty());
        assert(digits_value(Seq::<char>::empty()) == 0);
    }
}

/// Stripping leading zeros from digits leaves a canonical code.
pub proof fn lemma_without_leading_zeros(d: Seq<char>)
    requires
        d.len() > 0,
        all_digits(d),
    ensures
        is_canonical_code(without_leading_zeros(d)),
    decreases d.len(),
{
    if d.len() > 1 && d[0] == '0' {
        assert forall|i: int| 0 <= i < d.len() - 1 implies is_digit(#[trigger] d.drop_first()[i]) by {
            assert(d.drop_first()[i] == d[i + 1]);
        }
        lemma_without_leading_zeros(d.drop_first());
    }
}

/// The text `n` in base 10 is a code that is read back as itself.
pub proof fn lemma_decimal_is_code(n: nat)
    ensures
        is_code_text(decimal(n)),
        requested_code(Some(decimal(n))) == decimal(n),
{
    lemma_decimal(n);
    assert(is_digit(decimal(n)[0]));
    assert(unsigned_part(decimal(n)) == decimal(n));
}

/// Every code that a request can ask for is canonical.
pub proof fn lemma_requested_code_canonical(h: Option<Seq<char>>)
    ensures
        is_canonical_code(requested_code(h)),
{
    let z = default_code();
    assert(all_digits(z)) by {
        assert forall|i: int| 0 <= i < z.len() implies is_digit(#[trigger] z[i]) by {}
    }
    if let Some(s) = h {
        if is_code_text(s) {
            lemma_without_leading_zeros(unsigned_part(s));
        }
    }
}

/// Reads a non-negative base-10 integer of any size, with an optional `+`:
/// its canonical digits (no leading zeros), or `None` where `s` is not one.
pub fn canonical_code(s: &str) -> (r: Option<String>)
    ensures
        string_view(r) == (if is_code_text(s@) {
            Some(without_leading_zeros(unsigned_part(s@)))
        } else {
            None::<Seq<char>>
        }),
{
    let len = s.unicode_len();
    let mut start: usize = 0;
    if len > 0 && s.get_char(0) == '+' {
        start = 1;
    }
    let ghost d = unsigned_part(s@);
    assert(d =~= s@.subrange(start as int, len as int));
    if start == len {
        return None;
    }
    let mut i: usize = start;
    while i < len
        invariant
            start <= i <= len,
            len == s@.len(),
            d == unsigned_part(s@),
            d =~= s@.subrange(start as int, len as int),
            forall|j: int| 0 <= j < i - start ==> is_digit(#[trigger] d[j]),
        decreases len - i,
    {
        let c = s.get_char(i);
        if c < '0' || c > '9' {
            assert(!is_digit(d[i - start]));
            return None;
        }
        i = i + 1;
    }
    let mut k: usize = start;
    while k + 1 < len && s.get_char(k) == '0'
        invariant
            start <= k < len,
            len == s@.len(),
            d == unsigned_part(s@),
            d =~= s@.subrange(start as int, len as int),
            without_leading_zeros(d) == without_leading_zeros(s@.subrange(k as int, len as int)),
        decreases len - k,
    {
        let ghost rest = s@.subrange(k as int, len as int);
        assert(rest.drop_first() =~= s@.subrange(k + 1, len as int));
        k = k + 1;
    }
    let rest = s.substring_char(k, len);
    Some(String::from_str(rest))
}

/// The code that a request asks for, in canonical base-10 form: the value of
/// its `X-Code` header, or `404` when the header is absent, not text, or not
/// a number.
pub fn code_from_header(h: Option<&str>) -> (r: String)
    ensures
        r@ == requested_code(text_view(h)),
{
    proof {
        reveal_strlit("404");
    }
    match h {
        Some(s) => match canonical_code(s) {
            Some(c) => c,
            None => String::from_str("404"),
        },
        None => String::from_str("404"),
    }
}

pub open spec fn text_view(h: Option<&str>) -> Option<Seq<char>> {
    match h {
        Some(s) => Some(s@),
        None => None,
    }
}

pub open spec fn string_view(h: Option<String>) -> Option<Seq<char>> {
    match h {
        Some(s) => Some(s@),
        None => None,
    }
}

} // verus!
