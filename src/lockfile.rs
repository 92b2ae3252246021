use vstd::prelude::*;
use vstd::string::StringExecFns;

use crate::decode::{decode, toml_document, ContentType};
use crate::tree::{get, lemma_view, lookup, table_view, trees, GenericValue, Tree};
use crate::validators::{chars_of, without_plus};

verus! {

/// One sprinkle of a lockfile: a colour of six hexadecimal characters and a position.
#[derive(Debug, PartialEq, Eq)]
pub struct Sprinkle {
    pub color: String,
    pub top: u8,
    pub left: u8,
}

pub struct SprinkleModel {
    pub color: Seq<char>,
    pub top: u8,
    pub left: u8,
}

impl View for Sprinkle {
    type V = SprinkleModel;

    open spec fn view(&self) -> SprinkleModel {
        SprinkleModel { color: self.color@, top: self.top, left: self.left }
    }
}

pub open spec fn sprinkles_view(v: Seq<Sprinkle>) -> Seq<SprinkleModel> {
    Seq::new(v.len(), |i: int| v[i]@)
}

/// Why a lockfile gives no sprinkles.
#[derive(Clone, Copy, PartialEq, Eq, Structural, Debug)]
pub enum LockfileError {
    /// The text is no TOML document with a list of package tables whose checksums are strings.
    Malformed,
    /// Some checksum does not start with a colour and a position.
    BadChecksum,
}

pub open spec fn is_hex_digit(c: char) -> bool {
    ('0' <= c && c <= '9') || ('a' <= c && c <= 'f') || ('A' <= c && c <= 'F')
}

pub open spec fn hex_digit_value(c: char) -> int {
    if '0' <= c && c <= '9' {
        c as int - '0' as int
    } else if 'a' <= c && c <= 'f' {
        c as int - 'a' as int + 10
    } else {
        c as int - 'A' as int + 10
    }
}

pub open spec fn hex_digits_value(d: Seq<char>) -> int
    decreases d.len(),
{
    if d.len() == 0 {
        0
    } else {
        hex_digits_value(d.drop_last()) * 16 + hex_digit_value(d.last())
    }
}

/// The number that Rust's `from_str_radix(s, 16)` reads from `s` for an unsigned type that it
/// fits in: an optional `+`, then at least one hexadecimal digit.
pub open spec fn hex_number(s: Seq<char>) -> Option<int> {
    let d = without_plus(s);
    if d.len() > 0 && forall|i: int| 0 <= i < d.len() ==> is_hex_digit(d[i]) {
        Some(hex_digits_value(d))
    } else {
        None
    }
}

/// The sprinkle that a checksum stands for: its first six characters read as a colour, the
/// next two as the distance from the top and the two after as the distance from the left.
pub open spec fn sprinkle_of(c: Seq<char>) -> Option<SprinkleModel> {
    let color = c.subrange(0, 6);
    let top = c.subrange(6, 8);
    let left = c.subrange(8, 10);
    if c.len() >= 10 && hex_number(color) is Some && hex_number(top) is Some && hex_number(left) is Some {
        Some(
            SprinkleModel {
                color,
                top: hex_number(top)->0 as u8,
                left: hex_number(left)->0 as u8,
            },
        )
    } else {
        None
    }
}

/// The checksum of a package entry: `Some(None)` where it has none, `None` where the entry is
/// no table or its checksum is no string.
pub open spec fn checksum_of(t: Tree) -> Option<Option<Seq<char>>> {
    match t {
        Tree::Table(e) => match lookup(e, "checksum"@) {
            None => Some(None),
            Some(Tree::Str(s)) => Some(Some(s)),
            _ => None,
        },
        _ => None,
    }
}

/// The checksums of the packages of a lockfile, in order.
pub open spec fn lockfile_checksums(t: Tree) -> Option<Seq<Option<Seq<char>>>> {
    match t {
        Tree::Table(top) => match lookup(top, "package"@) {
            Some(Tree::Sequence(ps)) => if forall|i: int| 0 <= i < ps.len() ==> (#[trigger] checksum_of(ps[i])) is Some {
                Some(Seq::new(ps.len(), |i: int| checksum_of(ps[i])->0))
            } else {
                None
            },
            _ => None,
        },
        _ => None,
    }
}

/// The sprinkles of the checksums that are there; `None` where one of them stands for none.
pub open spec fn sprinkles_of(cs: Seq<Option<Seq<char>>>) -> Option<Seq<SprinkleModel>>
    decreases cs.len(),
{
    if cs.len() == 0 {
        Some(Seq::empty())
    } else {
        match sprinkles_of(cs.drop_last()) {
            None => None,
            Some(rest) => match cs.last() {
                None => Some(rest),
                Some(c) => match sprinkle_of(c) {
                    Some(s) => Some(rest.push(s)),
                    None => None,
                },
            },
        }
    }
}

pub open spec fn lockfile_result(text: Seq<char>) -> Result<Seq<SprinkleModel>, LockfileError> {
    match toml_document(text) {
        None => Err(LockfileError::Malformed),
        Some(t) => match lockfile_checksums(t) {
            None => Err(LockfileError::Malformed),
            Some(cs) => match sprinkles_of(cs) {
                None => Err(LockfileError::BadChecksum),
                Some(s) => Ok(s),
            },
        },
    }
}

fn hex_digit(c: char) -> (r: Option<u8>)
    ensures
        r is Some <==> is_hex_digit(c),
        r is Some ==> r->0 as int == hex_digit_value(c),
{
    if '0' <= c && c <= '9' {
        Some((c as u32 - '0' as u32) as u8)
    } else if 'a' <= c && c <= 'f' {
        Some((c as u32 - 'a' as u32 + 10) as u8)
    } else if 'A' <= c && c <= 'F' {
        Some((c as u32 - 'A' as u32 + 10) as u8)
    } else {
        None
    }
}

/// Whether `v[a..b]` reads as a hexadecimal number.
fn is_hex_number(v: &Vec<char>, a: usize, b: usize) -> (r: bool)
    requires
        a <= b <= v@.len(),
    ensures
        r == hex_number(v@.subrange(a as int, b as int)) is Some,
{
    let ghost s = v@.subrange(a as int, b as int);
    let start: usize = if a < b && v[a] == '+' {
        a + 1
    } else {
        a
    };
    let ghost d = without_plus(s);
    assert(d =~= v@.subrange(start as int, b as int));
    if start == b {
        return false;
    }
    let mut i: usize = start;
    while i < b
        invariant
            start <= i <= b <= v@.len(),
            d == v@.subrange(start as int, b as int),
            d == without_plus(v@.subrange(a as int, b as int)),
            forall|j: int| start <= j < i ==> is_hex_digit(v@[j]),
        decreases b - i,
    {
        if hex_digit(v[i]).is_none() {
            assert(d[i - start] == v@[i as int]);
            return false;
        }
        i += 1;
    }
    assert forall|j: int| 0 <= j < d.len() implies is_hex_digit(d[j]) by {
        assert(d[j] == v@[j + start]);
    }
    true
}

/// The byte that `v[a..a + 2]` reads as, if it reads as a hexadecimal number.
fn hex_byte(v: &Vec<char>, a: usize) -> (r: Option<u8>)
    requires
        a + 2 <= v.len(),
    ensures
        match r {
            Some(n) => hex_number(v@.subrange(a as int, a + 2)) == Some(n as int),
            None => hex_number(v@.subrange(a as int, a + 2)) is None,
        },
{
    let ghost s = v@.subrange(a as int, a + 2);
    reveal_with_fuel(hex_digits_value, 3);
    let low = hex_digit(v[a + 1]);
    if v[a] == '+' {
        assert(without_plus(s) =~= seq![v@[a + 1]]);
        assert(seq![v@[a + 1]].drop_last() =~= Seq::<char>::empty());
        assert(seq![v@[a + 1]].last() == v@[a + 1]);
        match low {
            Some(l) => Some(l),
            None => None,
        }
    } else {
        assert(without_plus(s) == s);
        assert(s.drop_last() =~= seq![v@[a as int]]);
        assert(seq![v@[a as int]].drop_last() =~= Seq::<char>::empty());
        assert(seq![v@[a as int]].last() == v@[a as int]);
        assert(s.last() == v@[a + 1]);
        match (hex_digit(v[a]), low) {
            (Some(h), Some(l)) => {
                assert(hex_digits_value(s) == h * 16 + l);
                Some(h * 16 + l)
            },
            (None, _) => {
                assert(!is_hex_digit(s[0]));
                None
            },
            (_, None) => {
                assert(!is_hex_digit(s[1]));
                None
            },
        }
    }
}

/// The sprinkle that a checksum stands for, if it stands for one.
pub fn sprinkle(checksum: &String) -> (r: Option<Sprinkle>)
    ensures
        match r {
            Some(s) => sprinkle_of(checksum@) == Some(s@),
            None => sprinkle_of(checksum@) is None,
        },
{
    let v = chars_of(checksum.as_str());
    if v.len() < 10 {
        return None;
    }
    if !is_hex_number(&v, 0, 6) {
        return None;
    }
    let top = match hex_byte(&v, 6) {
        Some(t) => t,
        None => {
            return None;
        },
    };
    let left = match hex_byte(&v, 8) {
        Some(l) => l,
        None => {
            return None;
        },
    };
    let color = String::from_str(checksum.as_str().substring_char(0, 6));
    Some(Sprinkle { color, top, left })
}

pub open spec fn checksums_view(cs: Seq<Option<String>>) -> Seq<Option<Seq<char>>> {
    Seq::new(
        cs.len(),
        |i: int|
            match cs[i] {
                Some(s) => Some(s@),
                None => None,
            },
    )
}

/// The checksums of the package entries of a lockfile tree, or `None` where it is malformed.
fn checksums(tree: &GenericValue) -> (r: Option<Vec<Option<String>>>)
    ensures
        match r {
            Some(cs) => lockfile_checksums(tree@) == Some(checksums_view(cs@)),
            None => lockfile_checksums(tree@) is None,
        },
{
    proof { lemma_view(tree); }
    let top = match tree {
        GenericValue::Table(top) => top,
        _ => {
            return None;
        },
    };
    let packages = match get(top, "package") {
        Some(p) => p,
        None => {
            return None;
        },
    };
    proof { lemma_view(packages); }
    let packages = match packages {
        GenericValue::Sequence(ps) => ps,
        _ => {
            return None;
        },
    };
    let ghost ps = trees(packages@);
    let mut out: Vec<Option<String>> = Vec::new();
    let mut i: usize = 0;
    while i < packages.len()
        invariant
            ps == trees(packages@),
            tree@ == Tree::Table(table_view(top@)),
            lookup(table_view(top@), "package"@) == Some(Tree::Sequence(ps)),
            0 <= i <= packages@.len(),
            out@.len() == i,
            forall|j: int| 0 <= j < i ==> (#[trigger] checksum_of(ps[j])) is Some,
            forall|j: int| 0 <= j < i ==> checksum_of(ps[j])->0 == match #[trigger] out@[j] {
                Some(s) => Some(s@),
                None => None::<Seq<char>>,
            },
        decreases packages.len() - i,
    {
        let p = &packages[i];
        proof { lemma_view(p); }
        let e = match p {
            GenericValue::Table(e) => e,
            _ => {
                assert(checksum_of(ps[i as int]) is None);
                return None;
            },
        };
        match get(e, "checksum") {
            None => {
                out.push(None);
            },
            Some(c) => {
                proof { lemma_view(c); }
                match c {
                    GenericValue::Str(s) => {
                        out.push(Some(s.clone()));
                    },
                    _ => {
                        assert(checksum_of(ps[i as int]) is None);
                        return None;
                    },
                }
            },
        }
        i += 1;
    }
    assert(Seq::new(ps.len(), |j: int| checksum_of(ps[j])->0) =~= checksums_view(out@));
    Some(out)
}

/// Once a prefix of the checksums has a bad one, so do the checksums.
proof fn lemma_bad_prefix(cs: Seq<Option<Seq<char>>>, k: int)
    requires
        0 <= k <= cs.len(),
        sprinkles_of(cs.take(k)) is None,
    ensures
        sprinkles_of(cs) is None,
    decreases cs.len(),
{
    if cs.len() > k {
        assert(cs.drop_last().take(k) =~= cs.take(k));
        lemma_bad_prefix(cs.drop_last(), k);
    } else {
        assert(cs.take(k) =~= cs);
    }
}

/// The sprinkles of a lockfile, in the order of its packages; packages without a checksum
/// are passed over.
pub fn sprinkles(text: &str) -> (r: Result<Vec<Sprinkle>, LockfileError>)
    ensures
        match r {
            Ok(s) => lockfile_result(text@) == Ok::<Seq<SprinkleModel>, LockfileError>(sprinkles_view(s@)),
            Err(e) => lockfile_result(text@) == Err::<Seq<SprinkleModel>, LockfileError>(e),
        },
{
    let tree = match decode(text, ContentType::Toml) {
        Ok(t) => t,
        Err(_) => {
            return Err(LockfileError::Malformed);
        },
    };
    let cs = match checksums(&tree) {
        Some(cs) => cs,
        None => {
            return Err(LockfileError::Malformed);
        },
    };
    let ghost cv = checksums_view(cs@);
    let mut out: Vec<Sprinkle> = Vec::new();
    let mut i: usize = 0;
    assert(cv.take(0) =~= Seq::<Option<Seq<char>>>::empty());
    assert(sprinkles_view(out@) =~= Seq::<SprinkleModel>::empty());
    while i < cs.len()
        invariant
            cv == checksums_view(cs@),
            toml_document(text@) == Some(tree@),
            lockfile_checksums(tree@) == Some(cv),
            0 <= i <= cs@.len(),
            sprinkles_of(cv.take(i as int)) == Some(sprinkles_view(out@)),
        decreases cs.len() - i,
    {
        assert(cv.take(i + 1).drop_last() =~= cv.take(i as int));
        assert(cv.take(i + 1).last() == cv[i as int]);
        match &cs[i] {
            None => {},
            Some(c) => match sprinkle(c) {
                Some(s) => {
                    let ghost before = out@;
                    out.push(s);
                    assert(out@.drop_last() =~= before);
                    assert(sprinkles_view(out@) =~= sprinkles_view(before).push(out@.last()@));
                },
                None => {
                    proof { lemma_bad_prefix(cv, i + 1); }
                    return Err(LockfileError::BadChecksum);
                },
            },
        }
        i += 1;
    }
    assert(cv.take(i as int) =~= cv);
    Ok(out)
}

} // verus!
