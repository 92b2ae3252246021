use vstd::prelude::*;

use crate::decode::{decoded, ContentType};
use crate::manifest::{bind_manifest, bind_metadata, bind_package, bind_profiles, profile_of};
use crate::orders::{extract_orders, order_keyword, order_of, outcome_of_text, outcome_of_tree, Outcome};
use crate::tree::{lookup, Tree};
use crate::validators::is_float_literal;

verus! {

/// Where `lookup` finds a value, an entry with that key holds it.
pub proof fn lemma_lookup_entry(e: Seq<(Seq<char>, Tree)>, key: Seq<char>)
    requires
        lookup(e, key) is Some,
    ensures
        exists|i: int| 0 <= i < e.len() && e[i].0 == key && e[i].1 == lookup(e, key)->0,
    decreases e.len(),
{
    if e[0].0 != key {
        lemma_lookup_entry(e.drop_first(), key);
        let i = choose|i: int|
            0 <= i < e.drop_first().len() && e.drop_first()[i].0 == key && e.drop_first()[i].1
                == lookup(e.drop_first(), key)->0;
        assert(e[i + 1] == e.drop_first()[i]);
    }
}

/// A valid manifest that lacks the keyword gives `KeywordMissing`, whatever its metadata holds.
pub proof fn lemma_keyword_missing(text: Seq<char>, format: ContentType)
    requires
        decoded(text, format) is Some,
        bind_manifest(decoded(text, format)->0) is Ok,
        !bind_manifest(decoded(text, format)->0)->Ok_0.package.keywords.contains(order_keyword()),
    ensures
        outcome_of_text(text, format) == Outcome::KeywordMissing,
{
}

/// A valid manifest with the keyword and no order entries gives an empty list of orders.
pub proof fn lemma_no_orders(text: Seq<char>, format: ContentType)
    requires
        decoded(text, format) is Some,
        bind_manifest(decoded(text, format)->0) is Ok,
        bind_manifest(decoded(text, format)->0)->Ok_0.package.keywords.contains(order_keyword()),
        bind_manifest(decoded(text, format)->0)->Ok_0.package.orders.len() == 0,
    ensures
        outcome_of_text(text, format) == Outcome::Orders(Seq::empty()),
{
}

/// A package without metadata has no order entries.
pub proof fn lemma_absent_metadata(p: Seq<(Seq<char>, Tree)>)
    requires
        lookup(p, "metadata"@) is None,
        bind_package(Some(Tree::Table(p))) is Ok,
    ensures
        bind_package(Some(Tree::Table(p)))->Ok_0.orders.len() == 0,
{
}

/// Extraction keeps exactly the well-formed entries, in their relative order, however many
/// malformed entries stand among them.
pub proof fn lemma_extract_filters(c: Seq<Tree>)
    ensures
        extract_orders(c) == c.filter(|t: Tree| order_of(t) is Some).map_values(
            |t: Tree| order_of(t)->0,
        ),
    decreases c.len(),
{
    reveal(Seq::filter);
    let pred = |t: Tree| order_of(t) is Some;
    let f = |t: Tree| order_of(t)->0;
    if c.len() == 0 {
        assert(c.filter(pred).map_values(f) =~= Seq::empty());
    } else {
        lemma_extract_filters(c.drop_last());
        if pred(c.last()) {
            assert(c.filter(pred) == c.drop_last().filter(pred).push(c.last()));
            assert(c.filter(pred).map_values(f) =~= c.drop_last().filter(pred).map_values(f).push(
                f(c.last()),
            ));
        } else {
            assert(c.filter(pred) == c.drop_last().filter(pred));
        }
    }
}

/// Text that decodes to the same tree gives the same outcome, whichever the formats.
pub proof fn lemma_format_independent(a: Seq<char>, fa: ContentType, b: Seq<char>, fb: ContentType)
    requires
        decoded(a, fa) == decoded(b, fb),
    ensures
        outcome_of_text(a, fa) == outcome_of_text(b, fb),
{
}

/// Metadata nested under an extra `package` key binds as the same metadata placed directly.
pub proof fn lemma_nested_metadata(e: Seq<(Seq<char>, Tree)>)
    requires
        lookup(e, "orders"@) is Some,
    ensures
        bind_metadata(Some(Tree::Table(seq![("package"@, Tree::Table(e))]))) == bind_metadata(
            Some(Tree::Table(e)),
        ),
{
    reveal_strlit("orders");
    reveal_strlit("package");
    lemma_lookup_entry(e, "orders"@);
    if e.len() == 1 {
        assert(e[0].0 == "orders"@);
        assert("orders"@[0] != "package"@[0]);
    }
}

/// A profile whose `incremental` is there but is no boolean makes the manifest invalid, though
/// `profile` itself may be left out.
pub proof fn lemma_bad_incremental(
    top: Seq<(Seq<char>, Tree)>,
    profiles: Seq<(Seq<char>, Tree)>,
    name: Seq<char>,
    profile: Seq<(Seq<char>, Tree)>,
    incremental: Tree,
)
    requires
        lookup(top, "profile"@) == Some(Tree::Table(profiles)),
        lookup(profiles, name) == Some(Tree::Table(profile)),
        lookup(profile, "incremental"@) == Some(incremental),
        !(incremental is Boolean),
    ensures
        outcome_of_tree(Tree::Table(top)) == Outcome::InvalidManifest,
{
    lemma_lookup_entry(profiles, name);
    let i = choose|i: int|
        0 <= i < profiles.len() && profiles[i].0 == name && profiles[i].1 == Tree::Table(profile);
    assert(profile_of(profiles[i].1) is None);
    assert(bind_profiles(lookup(top, "profile"@)) is Err);
}

/// A `rust-version` that is there, not null, and no string that reads as a number makes the
/// manifest invalid.
pub proof fn lemma_bad_rust_version(top: Seq<(Seq<char>, Tree)>, package: Seq<(Seq<char>, Tree)>, version: Tree)
    requires
        lookup(top, "package"@) == Some(Tree::Table(package)),
        lookup(package, "rust-version"@) == Some(version),
        version != Tree::Null,
        !(version matches Tree::Str(s) && is_float_literal(s)),
    ensures
        outcome_of_tree(Tree::Table(top)) == Outcome::InvalidManifest,
{
}

} // verus!
