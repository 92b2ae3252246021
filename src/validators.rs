use vstd::prelude::*;

use crate::tree::str_is;

verus! {

/// The editions that a package may declare.
#[derive(Clone, Copy, PartialEq, Eq, Structural, Debug)]
pub enum Edition {
    E2015,
    E2018,
    E2021,
    E2024,
}

/// The dependency resolvers that a workspace may declare.
#[derive(Clone, Copy, PartialEq, Eq, Structural, Debug)]
pub enum Resolver {
    R1,
    R2,
}

pub open spec fn edition_of(s: Seq<char>) -> Option<Edition> {
    if s == seq!['2', '0', '1', '5'] {
        Some(Edition::E2015)
    } else if s == seq!['2', '0', '1', '8'] {
        Some(Edition::E2018)
    } else if s == seq!['2', '0', '2', '1'] {
        Some(Edition::E2021)
    } else if s == seq!['2', '0', '2', '4'] {
        Some(Edition::E2024)
    } else {
        None
    }
}

pub open spec fn resolver_of(s: Seq<char>) -> Option<Resolver> {
    if s == seq!['1'] {
        Some(Resolver::R1)
    } else if s == seq!['2'] {
        Some(Resolver::R2)
    } else {
        None
    }
}

/// The edition that `s` names, if it names one.
pub fn parse_edition(s: &String) -> (r: Option<Edition>)
    ensures
        r == edition_of(s@),
{
    proof {
        reveal_strlit("2015");
        reveal_strlit("2018");
        reveal_strlit("2021");
        reveal_strlit("2024");
    }
    if str_is(s, "2015") {
        assert("2015"@ =~= seq!['2', '0', '1', '5']);
        Some(Edition::E2015)
    } else if str_is(s, "2018") {
        assert("2018"@ =~= seq!['2', '0', '1', '8']);
        Some(Edition::E2018)
    } else if str_is(s, "2021") {
        assert("2021"@ =~= seq!['2', '0', '2', '1']);
        Some(Edition::E2021)
    } else if str_is(s, "2024") {
        assert("2024"@ =~= seq!['2', '0', '2', '4']);
        Some(Edition::E2024)
    } else {
        assert("2015"@ =~= seq!['2', '0', '1', '5']);
        assert("2018"@ =~= seq!['2', '0', '1', '8']);
        assert("2021"@ =~= seq!['2', '0', '2', '1']);
        assert("2024"@ =~= seq!['2', '0', '2', '4']);
        None
    }
}

/// The resolver that `s` names, if it names one.
pub fn parse_resolver(s: &String) -> (r: Option<Resolver>)
    ensures
        r == resolver_of(s@),
{
    proof {
        reveal_strlit("1");
        reveal_strlit("2");
    }
    assert("1"@ =~= seq!['1']);
    assert("2"@ =~= seq!['2']);
    if str_is(s, "1") {
        Some(Resolver::R1)
    } else if str_is(s, "2") {
        Some(Resolver::R2)
    } else {
        None
    }
}

pub open spec fn is_digit(c: char) -> bool {
    '0' <= c && c <= '9'
}

pub open spec fn is_sign(c: char) -> bool {
    c == '+' || c == '-'
}

pub open spec fn is_exponent_mark(c: char) -> bool {
    c == 'e' || c == 'E'
}

/// `s` spells the word `lower` (whose capitals are `upper`), each letter in either case.
pub open spec fn spells(s: Seq<char>, lower: Seq<char>, upper: Seq<char>) -> bool {
    &&& s.len() == lower.len()
    &&& forall|i: int| 0 <= i < s.len() ==> s[i] == lower[i] || s[i] == upper[i]
}

/// Digits with at most one decimal point among them, and at least one digit.
pub open spec fn is_mantissa(m: Seq<char>) -> bool {
    &&& forall|i: int| 0 <= i < m.len() ==> is_digit(m[i]) || m[i] == '.'
    &&& forall|i: int, j: int|
        0 <= i < m.len() && 0 <= j < m.len() && m[i] == '.' && m[j] == '.' ==> i == j
    &&& exists|i: int| 0 <= i < m.len() && is_digit(m[i])
}

/// Digits, at least one.
pub open spec fn is_digits(d: Seq<char>) -> bool {
    d.len() > 0 && forall|i: int| 0 <= i < d.len() ==> is_digit(d[i])
}

/// What follows the exponent mark: an optional sign and at least one digit.
pub open spec fn is_exponent(x: Seq<char>) -> bool {
    is_digits(unsigned_part(x))
}

/// A mantissa, optionally followed by an exponent mark and an exponent.
pub open spec fn is_decimal(s: Seq<char>) -> bool {
    ||| (forall|i: int| 0 <= i < s.len() ==> !is_exponent_mark(s[i])) && is_mantissa(s)
    ||| exists|k: int|
        0 <= k < s.len() && is_exponent_mark(s[k]) && is_mantissa(s.take(k)) && is_exponent(
            s.skip(k + 1),
        )
}

/// `s` without its leading `+`, if it has one.
pub open spec fn without_plus(s: Seq<char>) -> Seq<char> {
    if s.len() > 0 && s[0] == '+' {
        s.drop_first()
    } else {
        s
    }
}

/// `s` without its leading sign, if it has one.
pub open spec fn unsigned_part(s: Seq<char>) -> Seq<char> {
    if s.len() > 0 && is_sign(s[0]) {
        s.drop_first()
    } else {
        s
    }
}

/// The strings that Rust's floating-point parser (`f64::from_str`) accepts: an optional sign,
/// then `inf`, `infinity` or `nan` in any case, or a decimal number with an optional exponent.
/// Whitespace is not accepted.
pub open spec fn is_float_literal(s: Seq<char>) -> bool {
    let body = unsigned_part(s);
    ||| spells(body, seq!['i', 'n', 'f'], seq!['I', 'N', 'F'])
    ||| spells(
        body,
        seq!['i', 'n', 'f', 'i', 'n', 'i', 't', 'y'],
        seq!['I', 'N', 'F', 'I', 'N', 'I', 'T', 'Y'],
    )
    ||| spells(body, seq!['n', 'a', 'n'], seq!['N', 'A', 'N'])
    ||| is_decimal(body)
}

/// The characters of `s`.
pub fn chars_of(s: &str) -> (r: Vec<char>)
    ensures
        r@ == s@,
{
    let n = s.unicode_len();
    let mut out: Vec<char> = Vec::new();
    let mut i: usize = 0;
    while i < n
        invariant
            n == s@.len(),
            0 <= i <= n,
            out@ == s@.take(i as int),
        decreases n - i,
    {
        out.push(s.get_char(i));
        i += 1;
        assert(out@ =~= s@.take(i as int));
    }
    assert(out@ =~= s@);
    out
}

/// The characters of `v` from `a` up to `b`.
fn slice_of(v: &Vec<char>, a: usize, b: usize) -> (r: Vec<char>)
    requires
        a <= b <= v@.len(),
    ensures
        r@ == v@.subrange(a as int, b as int),
{
    let mut out: Vec<char> = Vec::new();
    let mut i: usize = a;
    while i < b
        invariant
            a <= i <= b,
            b <= v@.len(),
            out@ == v@.subrange(a as int, i as int),
        decreases b - i,
    {
        out.push(v[i]);
        i += 1;
        assert(out@ =~= v@.subrange(a as int, i as int));
    }
    out
}

fn spells_word(v: &Vec<char>, lower: &Vec<char>, upper: &Vec<char>) -> (r: bool)
    requires
        lower@.len() == upper@.len(),
    ensures
        r == spells(v@, lower@, upper@),
{
    if v.len() != lower.len() {
        return false;
    }
    let mut i: usize = 0;
    while i < v.len()
        invariant
            v@.len() == lower@.len() == upper@.len(),
            0 <= i <= v@.len(),
            forall|j: int| 0 <= j < i ==> v@[j] == lower@[j] || v@[j] == upper@[j],
        decreases v.len() - i,
    {
        if v[i] != lower[i] && v[i] != upper[i] {
            return false;
        }
        i += 1;
    }
    true
}

fn mantissa_ok(m: &Vec<char>) -> (r: bool)
    ensures
        r == is_mantissa(m@),
{
    let mut seen_dot = false;
    let mut seen_digit = false;
    let mut i: usize = 0;
    while i < m.len()
        invariant
            0 <= i <= m@.len(),
            forall|j: int| 0 <= j < i ==> is_digit(m@[j]) || m@[j] == '.',
            forall|j: int, k: int| 0 <= j < i && 0 <= k < i && m@[j] == '.' && m@[k] == '.' ==> j == k,
            seen_dot ==> exists|j: int| 0 <= j < i && m@[j] == '.',
            !seen_dot ==> forall|j: int| 0 <= j < i ==> m@[j] != '.',
            seen_digit ==> exists|j: int| 0 <= j < i && is_digit(m@[j]),
            !seen_digit ==> forall|j: int| 0 <= j < i ==> !is_digit(m@[j]),
        decreases m.len() - i,
    {
        let c = m[i];
        if c == '.' {
            if seen_dot {
                let ghost j = choose|j: int| 0 <= j < i && m@[j] == '.';
                assert(m@[j] == '.' && m@[i as int] == '.' && j != i);
                return false;
            }
            seen_dot = true;
        } else if '0' <= c && c <= '9' {
            seen_digit = true;
        } else {
            return false;
        }
        i += 1;
    }
    seen_digit
}

fn exponent_ok(x: &Vec<char>) -> (r: bool)
    ensures
        r == is_exponent(x@),
{
    let start: usize = if x.len() > 0 && (x[0] == '+' || x[0] == '-') {
        1
    } else {
        0
    };
    let ghost d = unsigned_part(x@);
    assert(d =~= x@.skip(start as int));
    if start == x.len() {
        return false;
    }
    let mut i: usize = start;
    while i < x.len()
        invariant
            start <= i <= x@.len(),
            d == x@.skip(start as int),
            d == unsigned_part(x@),
            forall|j: int| start <= j < i ==> is_digit(x@[j]),
        decreases x.len() - i,
    {
        if !('0' <= x[i] && x[i] <= '9') {
            assert(d[i - start] == x@[i as int]);
            return false;
        }
        i += 1;
    }
    assert forall|j: int| 0 <= j < d.len() implies is_digit(d[j]) by {
        assert(d[j] == x@[j + start]);
    }
    true
}

fn decimal_ok(s: &Vec<char>) -> (r: bool)
    ensures
        r == is_decimal(s@),
{
    let mut k: usize = 0;
    while k < s.len() && s[k] != 'e' && s[k] != 'E'
        invariant
            0 <= k <= s@.len(),
            forall|j: int| 0 <= j < k ==> !is_exponent_mark(s@[j]),
        decreases s.len() - k,
    {
        k += 1;
    }
    if k == s.len() {
        let r = mantissa_ok(s);
        assert(!exists|k: int|
            0 <= k < s@.len() && is_exponent_mark(s@[k]) && is_mantissa(s@.take(k))
                && is_exponent(s@.skip(k + 1)));
        r
    } else {
        let head = slice_of(s, 0, k);
        let tail = slice_of(s, k + 1, s.len());
        assert(head@ =~= s@.take(k as int));
        assert(tail@ =~= s@.skip(k + 1));
        let r = mantissa_ok(&head) && exponent_ok(&tail);
        assert forall|k2: int|
            0 <= k2 < s@.len() && is_exponent_mark(s@[k2]) && is_mantissa(s@.take(k2))
                && is_exponent(s@.skip(k2 + 1)) implies k2 == k by {
            if k2 > k {
                assert(s@.take(k2)[k as int] == s@[k as int]);
            }
        }
        r
    }
}

/// Whether Rust's floating-point parser accepts `s`.
pub fn is_float_text(s: &String) -> (r: bool)
    ensures
        r == is_float_literal(s@),
{
    let all = chars_of(s.as_str());
    let body = if all.len() > 0 && (all[0] == '+' || all[0] == '-') {
        slice_of(&all, 1, all.len())
    } else {
        slice_of(&all, 0, all.len())
    };
    assert(body@ =~= unsigned_part(s@));
    spells_word(&body, &vec!['i', 'n', 'f'], &vec!['I', 'N', 'F'])
        || spells_word(
        &body,
        &vec!['i', 'n', 'f', 'i', 'n', 'i', 't', 'y'],
        &vec!['I', 'N', 'F', 'I', 'N', 'I', 'T', 'Y'],
    ) || spells_word(&body, &vec!['n', 'a', 'n'], &vec!['N', 'A', 'N']) || decimal_ok(&body)
}

} // verus!
