use vstd::prelude::*;

use crate::tree::{get, lemma_view, lookup, opt_tree, str_is, table_view, trees, GenericValue, Tree};
use crate::validators::{edition_of, is_float_literal, is_float_text, parse_edition, parse_resolver, resolver_of, Edition, Resolver};

verus! {

/// Why a well-formed tree is not a manifest.
#[derive(Clone, Copy, PartialEq, Eq, Structural, Debug)]
pub enum BindError {
    /// The tree is no table, or has no `package` table.
    MissingPackage,
    /// `package.name` is missing, is no string, or is empty.
    InvalidName,
    /// `package.keywords` is there but is no sequence of strings.
    InvalidKeywords,
    /// `package.metadata`, or the `orders` in it, is there but has the wrong shape.
    InvalidMetadata,
    /// `package.edition` is there but names no edition.
    InvalidEdition,
    /// `package.rust-version` is there but is no string that reads as a number.
    InvalidRustVersion,
    /// `profile` is there but some profile in it has no boolean `incremental`.
    InvalidProfile,
    /// `workspace` is there but has no `resolver` of `"1"` or `"2"`.
    InvalidWorkspace,
}

#[derive(Clone, Copy, PartialEq, Eq, Structural, Debug)]
pub struct Profile {
    pub incremental: bool,
}

#[derive(Clone, Copy, PartialEq, Eq, Structural, Debug)]
pub struct Workspace {
    pub resolver: Resolver,
}

/// The metadata of a package: the order entries, not yet checked one by one.
pub struct Metadata {
    pub orders: Vec<GenericValue>,
}

pub struct Package {
    pub name: String,
    pub keywords: Vec<String>,
    pub metadata: Metadata,
    pub edition: Option<Edition>,
    pub rust_version: Option<String>,
}

pub struct Manifest {
    pub package: Package,
    pub profile: Option<Vec<(String, Profile)>>,
    pub workspace: Option<Workspace>,
}

/// The model of a `Package`; `orders` stands for the metadata.
pub struct PackageModel {
    pub name: Seq<char>,
    pub keywords: Seq<Seq<char>>,
    pub orders: Seq<Tree>,
    pub edition: Option<Edition>,
    pub rust_version: Option<Seq<char>>,
}

/// The model of a `Manifest`.
pub struct ManifestModel {
    pub package: PackageModel,
    pub profile: Option<Seq<(Seq<char>, Profile)>>,
    pub workspace: Option<Workspace>,
}

pub open spec fn strings_view(v: Seq<String>) -> Seq<Seq<char>> {
    Seq::new(v.len(), |i: int| v[i]@)
}

pub open spec fn profiles_view(v: Seq<(String, Profile)>) -> Seq<(Seq<char>, Profile)> {
    Seq::new(v.len(), |i: int| (v[i].0@, v[i].1))
}

impl View for Package {
    type V = PackageModel;

    open spec fn view(&self) -> PackageModel {
        PackageModel {
            name: self.name@,
            keywords: strings_view(self.keywords@),
            orders: trees(self.metadata.orders@),
            edition: self.edition,
            rust_version: match self.rust_version {
                Some(s) => Some(s@),
                None => None,
            },
        }
    }
}

impl View for Manifest {
    type V = ManifestModel;

    open spec fn view(&self) -> ManifestModel {
        ManifestModel {
            package: self.package@,
            profile: match self.profile {
                Some(p) => Some(profiles_view(p@)),
                None => None,
            },
            workspace: self.workspace,
        }
    }
}

/// An optional field that is missing or null counts as not given.
pub open spec fn is_absent(t: Option<Tree>) -> bool {
    t is None || t == Some(Tree::Null)
}

pub open spec fn bind_name(t: Option<Tree>) -> Result<Seq<char>, BindError> {
    match t {
        Some(Tree::Str(s)) => if s.len() > 0 {
            Ok(s)
        } else {
            Err(BindError::InvalidName)
        },
        _ => Err(BindError::InvalidName),
    }
}

pub open spec fn all_strings(s: Seq<Tree>) -> bool {
    forall|i: int| 0 <= i < s.len() ==> s[i] is Str
}

pub open spec fn bind_keywords(t: Option<Tree>) -> Result<Seq<Seq<char>>, BindError> {
    match t {
        None => Ok(Seq::empty()),
        Some(Tree::Sequence(s)) => if all_strings(s) {
            Ok(Seq::new(s.len(), |i: int| s[i]->Str_0))
        } else {
            Err(BindError::InvalidKeywords)
        },
        Some(_) => Err(BindError::InvalidKeywords),
    }
}

/// The table that holds the metadata: the table under `package.metadata`, or, where that
/// table has the single key `package` and a table under it, that inner table.
pub open spec fn metadata_source(m: Tree) -> Tree {
    match m {
        Tree::Table(e) => if e.len() == 1 && e[0].0 == "package"@ && e[0].1 is Table {
            e[0].1
        } else {
            m
        },
        _ => m,
    }
}

/// The order entries of the metadata `t`; none where it is missing.
pub open spec fn bind_metadata(t: Option<Tree>) -> Result<Seq<Tree>, BindError> {
    match t {
        None => Ok(Seq::empty()),
        Some(m) => match metadata_source(m) {
            Tree::Table(e) => match lookup(e, "orders"@) {
                None => Ok(Seq::empty()),
                Some(Tree::Sequence(s)) => Ok(s),
                Some(_) => Err(BindError::InvalidMetadata),
            },
            _ => Err(BindError::InvalidMetadata),
        },
    }
}

pub open spec fn bind_edition(t: Option<Tree>) -> Result<Option<Edition>, BindError> {
    if is_absent(t) {
        Ok(None)
    } else {
        match t {
            Some(Tree::Str(s)) => match edition_of(s) {
                Some(e) => Ok(Some(e)),
                None => Err(BindError::InvalidEdition),
            },
            _ => Err(BindError::InvalidEdition),
        }
    }
}

pub open spec fn bind_rust_version(t: Option<Tree>) -> Result<Option<Seq<char>>, BindError> {
    if is_absent(t) {
        Ok(None)
    } else {
        match t {
            Some(Tree::Str(s)) => if is_float_literal(s) {
                Ok(Some(s))
            } else {
                Err(BindError::InvalidRustVersion)
            },
            _ => Err(BindError::InvalidRustVersion),
        }
    }
}

pub open spec fn profile_of(t: Tree) -> Option<Profile> {
    match t {
        Tree::Table(e) => match lookup(e, "incremental"@) {
            Some(Tree::Boolean(b)) => Some(Profile { incremental: b }),
            _ => None,
        },
        _ => None,
    }
}

pub open spec fn bind_profiles(t: Option<Tree>) -> Result<Option<Seq<(Seq<char>, Profile)>>, BindError> {
    if is_absent(t) {
        Ok(None)
    } else {
        match t {
            Some(Tree::Table(e)) => if forall|i: int| 0 <= i < e.len() ==> (#[trigger] profile_of(e[i].1)) is Some {
                Ok(Some(Seq::new(e.len(), |i: int| (e[i].0, profile_of(e[i].1)->0))))
            } else {
                Err(BindError::InvalidProfile)
            },
            _ => Err(BindError::InvalidProfile),
        }
    }
}

pub open spec fn bind_workspace(t: Option<Tree>) -> Result<Option<Workspace>, BindError> {
    if is_absent(t) {
        Ok(None)
    } else {
        match t {
            Some(Tree::Table(e)) => match lookup(e, "resolver"@) {
                Some(Tree::Str(s)) => match resolver_of(s) {
                    Some(r) => Ok(Some(Workspace { resolver: r })),
                    None => Err(BindError::InvalidWorkspace),
                },
                _ => Err(BindError::InvalidWorkspace),
            },
            _ => Err(BindError::InvalidWorkspace),
        }
    }
}

/// Binds the `package` table; the first field that fails, in the order name, keywords,
/// metadata, edition, rust-version, gives the error.
pub open spec fn bind_package(t: Option<Tree>) -> Result<PackageModel, BindError> {
    match t {
        Some(Tree::Table(p)) => {
            let name = bind_name(lookup(p, "name"@));
            let keywords = bind_keywords(lookup(p, "keywords"@));
            let orders = bind_metadata(lookup(p, "metadata"@));
            let edition = bind_edition(lookup(p, "edition"@));
            let rust_version = bind_rust_version(lookup(p, "rust-version"@));
            if name is Err {
                Err(name->Err_0)
            } else if keywords is Err {
                Err(keywords->Err_0)
            } else if orders is Err {
                Err(orders->Err_0)
            } else if edition is Err {
                Err(edition->Err_0)
            } else if rust_version is Err {
                Err(rust_version->Err_0)
            } else {
                Ok(
                    PackageModel {
                        name: name->Ok_0,
                        keywords: keywords->Ok_0,
                        orders: orders->Ok_0,
                        edition: edition->Ok_0,
                        rust_version: rust_version->Ok_0,
                    },
                )
            }
        },
        _ => Err(BindError::MissingPackage),
    }
}

/// Binds a whole tree: the package first, then `profile`, then `workspace`.
pub open spec fn bind_manifest(t: Tree) -> Result<ManifestModel, BindError> {
    match t {
        Tree::Table(top) => {
            let package = bind_package(lookup(top, "package"@));
            let profile = bind_profiles(lookup(top, "profile"@));
            let workspace = bind_workspace(lookup(top, "workspace"@));
            if package is Err {
                Err(package->Err_0)
            } else if profile is Err {
                Err(profile->Err_0)
            } else if workspace is Err {
                Err(workspace->Err_0)
            } else {
                Ok(
                    ManifestModel {
                        package: package->Ok_0,
                        profile: profile->Ok_0,
                        workspace: workspace->Ok_0,
                    },
                )
            }
        },
        _ => Err(BindError::MissingPackage),
    }
}

pub open spec fn manifest_result_view(r: Result<Manifest, BindError>) -> Result<ManifestModel, BindError> {
    match r {
        Ok(m) => Ok(m@),
        Err(e) => Err(e),
    }
}

fn is_absent_value(v: Option<&GenericValue>) -> (r: bool)
    ensures
        r == is_absent(opt_tree(v)),
{
    match v {
        None => true,
        Some(x) => {
            proof { lemma_view(x); }
            match x {
                GenericValue::Null => true,
                _ => false,
            }
        },
    }
}

fn take_name(v: Option<&GenericValue>) -> (r: Result<String, BindError>)
    ensures
        match r {
            Ok(s) => bind_name(opt_tree(v)) == Ok::<Seq<char>, BindError>(s@),
            Err(e) => bind_name(opt_tree(v)) == Err::<Seq<char>, BindError>(e),
        },
{
    if let Some(x) = v {
        proof { lemma_view(x); }
        if let GenericValue::Str(s) = x {
            if s.as_str().unicode_len() > 0 {
                return Ok(s.clone());
            }
        }
    }
    Err(BindError::InvalidName)
}

fn take_keywords(v: Option<&GenericValue>) -> (r: Result<Vec<String>, BindError>)
    ensures
        match r {
            Ok(k) => bind_keywords(opt_tree(v)) == Ok::<Seq<Seq<char>>, BindError>(strings_view(k@)),
            Err(e) => bind_keywords(opt_tree(v)) == Err::<Seq<Seq<char>>, BindError>(e),
        },
{
    let x = match v {
        None => {
            assert(strings_view(Seq::<String>::empty()) =~= Seq::<Seq<char>>::empty());
            return Ok(Vec::new());
        },
        Some(x) => x,
    };
    proof { lemma_view(x); }
    let s = match x {
        GenericValue::Sequence(s) => s,
        _ => {
            return Err(BindError::InvalidKeywords);
        },
    };
    let ghost ts = trees(s@);
    let mut out: Vec<String> = Vec::new();
    let mut i: usize = 0;
    while i < s.len()
        invariant
            ts == trees(s@),
            opt_tree(v) == Some(Tree::Sequence(ts)),
            0 <= i <= s@.len(),
            out@.len() == i,
            forall|j: int| 0 <= j < i ==> (#[trigger] ts[j]) is Str,
            forall|j: int| 0 <= j < i ==> (#[trigger] out@[j])@ == ts[j]->Str_0,
        decreases s.len() - i,
    {
        proof { lemma_view(&s@[i as int]); }
        match &s[i] {
            GenericValue::Str(k) => {
                assert(ts[i as int] == Tree::Str(k@));
                let c = k.clone();
                out.push(c);
                assert(out@[i as int]@ == ts[i as int]->Str_0);
            },
            _ => {
                assert(!(ts[i as int] is Str));
                return Err(BindError::InvalidKeywords);
            },
        }
        i += 1;
    }
    assert(all_strings(ts));
    assert(strings_view(out@) =~= Seq::new(ts.len(), |j: int| ts[j]->Str_0));
    Ok(out)
}

fn take_metadata(v: Option<&GenericValue>) -> (r: Result<Vec<GenericValue>, BindError>)
    ensures
        match r {
            Ok(o) => bind_metadata(opt_tree(v)) == Ok::<Seq<Tree>, BindError>(trees(o@)),
            Err(e) => bind_metadata(opt_tree(v)) == Err::<Seq<Tree>, BindError>(e),
        },
{
    let x = match v {
        None => {
            assert(trees(Seq::<GenericValue>::empty()) =~= Seq::<Tree>::empty());
            return Ok(Vec::new());
        },
        Some(x) => x,
    };
    proof { lemma_view(x); }
    let outer = match x {
        GenericValue::Table(e) => e,
        _ => {
            return Err(BindError::InvalidMetadata);
        },
    };
    // The single key `package` with a table under it stands for the metadata table itself.
    let mut source = outer;
    if outer.len() == 1 && str_is(&outer[0].0, "package") {
        proof { lemma_view(&outer@[0].1); }
        if let GenericValue::Table(inner) = &outer[0].1 {
            source = inner;
        }
    }
    assert(metadata_source(x@) == Tree::Table(table_view(source@)));
    match get(source, "orders") {
        None => {
            assert(trees(Seq::<GenericValue>::empty()) =~= Seq::<Tree>::empty());
            Ok(Vec::new())
        },
        Some(o) => {
            proof { lemma_view(o); }
            match o {
                GenericValue::Sequence(s) => {
                    let mut out: Vec<GenericValue> = Vec::new();
                    let mut i: usize = 0;
                    while i < s.len()
                        invariant
                            0 <= i <= s@.len(),
                            out@.len() == i,
                            forall|j: int| 0 <= j < i ==> (#[trigger] out@[j])@ == s@[j]@,
                        decreases s.len() - i,
                    {
                        out.push(s[i].deep_clone());
                        i += 1;
                    }
                    assert(trees(out@) =~= trees(s@));
                    Ok(out)
                },
                _ => Err(BindError::InvalidMetadata),
            }
        },
    }
}

fn take_edition(v: Option<&GenericValue>) -> (r: Result<Option<Edition>, BindError>)
    ensures
        match r {
            Ok(e) => bind_edition(opt_tree(v)) == Ok::<Option<Edition>, BindError>(e),
            Err(e) => bind_edition(opt_tree(v)) == Err::<Option<Edition>, BindError>(e),
        },
{
    if is_absent_value(v) {
        return Ok(None);
    }
    if let Some(x) = v {
        proof { lemma_view(x); }
        if let GenericValue::Str(s) = x {
            if let Some(e) = parse_edition(s) {
                return Ok(Some(e));
            }
        }
    }
    Err(BindError::InvalidEdition)
}

fn take_rust_version(v: Option<&GenericValue>) -> (r: Result<Option<String>, BindError>)
    ensures
        match r {
            Ok(Some(s)) => bind_rust_version(opt_tree(v)) == Ok::<Option<Seq<char>>, BindError>(Some(s@)),
            Ok(None) => bind_rust_version(opt_tree(v)) == Ok::<Option<Seq<char>>, BindError>(None),
            Err(e) => bind_rust_version(opt_tree(v)) == Err::<Option<Seq<char>>, BindError>(e),
        },
{
    if is_absent_value(v) {
        return Ok(None);
    }
    if let Some(x) = v {
        proof { lemma_view(x); }
        if let GenericValue::Str(s) = x {
            if is_float_text(s) {
                return Ok(Some(s.clone()));
            }
        }
    }
    Err(BindError::InvalidRustVersion)
}

fn take_profile(v: &GenericValue) -> (r: Option<Profile>)
    ensures
        r == profile_of(v@),
{
    proof { lemma_view(v); }
    if let GenericValue::Table(e) = v {
        if let Some(x) = get(e, "incremental") {
            proof { lemma_view(x); }
            if let GenericValue::Boolean(b) = x {
                return Some(Profile { incremental: *b });
            }
        }
    }
    None
}

fn take_profiles(v: Option<&GenericValue>) -> (r: Result<Option<Vec<(String, Profile)>>, BindError>)
    ensures
        match r {
            Ok(Some(p)) => bind_profiles(opt_tree(v)) == Ok::<Option<Seq<(Seq<char>, Profile)>>, BindError>(Some(profiles_view(p@))),
            Ok(None) => bind_profiles(opt_tree(v)) == Ok::<Option<Seq<(Seq<char>, Profile)>>, BindError>(None),
            Err(e) => bind_profiles(opt_tree(v)) == Err::<Option<Seq<(Seq<char>, Profile)>>, BindError>(e),
        },
{
    if is_absent_value(v) {
        return Ok(None);
    }
    let x = match v {
        Some(x) => x,
        None => {
            return Ok(None);
        },
    };
    proof { lemma_view(x); }
    let e = match x {
        GenericValue::Table(e) => e,
        _ => {
            return Err(BindError::InvalidProfile);
        },
    };
    let ghost te = table_view(e@);
    let mut out: Vec<(String, Profile)> = Vec::new();
    let mut i: usize = 0;
    while i < e.len()
        invariant
            te == table_view(e@),
            opt_tree(v) == Some(Tree::Table(te)),
            0 <= i <= e@.len(),
            out@.len() == i,
            forall|j: int| 0 <= j < i ==> (#[trigger] profile_of(te[j].1)) is Some,
            forall|j: int| 0 <= j < i ==> (#[trigger] out@[j]).0@ == te[j].0 && out@[j].1 == profile_of(te[j].1)->0,
        decreases e.len() - i,
    {
        match take_profile(&e[i].1) {
            Some(p) => {
                out.push((e[i].0.clone(), p));
            },
            None => {
                assert(profile_of(te[i as int].1) is None);
                return Err(BindError::InvalidProfile);
            },
        }
        i += 1;
    }
    assert(profiles_view(out@) =~= Seq::new(te.len(), |j: int| (te[j].0, profile_of(te[j].1)->0)));
    Ok(Some(out))
}

fn take_workspace(v: Option<&GenericValue>) -> (r: Result<Option<Workspace>, BindError>)
    ensures
        match r {
            Ok(w) => bind_workspace(opt_tree(v)) == Ok::<Option<Workspace>, BindError>(w),
            Err(e) => bind_workspace(opt_tree(v)) == Err::<Option<Workspace>, BindError>(e),
        },
{
    if is_absent_value(v) {
        return Ok(None);
    }
    if let Some(x) = v {
        proof { lemma_view(x); }
        if let GenericValue::Table(e) = x {
            if let Some(r) = get(e, "resolver") {
                proof { lemma_view(r); }
                if let GenericValue::Str(s) = r {
                    if let Some(resolver) = parse_resolver(s) {
                        return Ok(Some(Workspace { resolver }));
                    }
                }
            }
        }
    }
    Err(BindError::InvalidWorkspace)
}

fn take_package(v: Option<&GenericValue>) -> (r: Result<Package, BindError>)
    ensures
        match r {
            Ok(p) => bind_package(opt_tree(v)) == Ok::<PackageModel, BindError>(p@),
            Err(e) => bind_package(opt_tree(v)) == Err::<PackageModel, BindError>(e),
        },
{
    let x = match v {
        Some(x) => x,
        None => {
            return Err(BindError::MissingPackage);
        },
    };
    proof { lemma_view(x); }
    let p = match x {
        GenericValue::Table(p) => p,
        _ => {
            return Err(BindError::MissingPackage);
        },
    };
    let name = take_name(get(p, "name"));
    let keywords = take_keywords(get(p, "keywords"));
    let orders = take_metadata(get(p, "metadata"));
    let edition = take_edition(get(p, "edition"));
    let rust_version = take_rust_version(get(p, "rust-version"));
    let name = match name {
        Ok(n) => n,
        Err(e) => {
            return Err(e);
        },
    };
    let keywords = match keywords {
        Ok(k) => k,
        Err(e) => {
            return Err(e);
        },
    };
    let orders = match orders {
        Ok(o) => o,
        Err(e) => {
            return Err(e);
        },
    };
    let edition = match edition {
        Ok(ed) => ed,
        Err(e) => {
            return Err(e);
        },
    };
    let rust_version = match rust_version {
        Ok(rv) => rv,
        Err(e) => {
            return Err(e);
        },
    };
    Ok(Package { name, keywords, metadata: Metadata { orders }, edition, rust_version })
}

/// Binds a format-neutral tree into a manifest.
///
/// Fields that may be left out (`keywords`, `metadata`, `orders`, `edition`, `rust-version`,
/// `profile`, `workspace`) may be missing; `edition`, `rust-version`, `profile` and
/// `workspace` may also be null. A field that is there must have its shape, or binding fails.
/// Keys that the manifest does not know are ignored.
pub fn bind(tree: &GenericValue) -> (r: Result<Manifest, BindError>)
    ensures
        manifest_result_view(r) == bind_manifest(tree@),
{
    proof { lemma_view(tree); }
    let top = match tree {
        GenericValue::Table(top) => top,
        _ => {
            return Err(BindError::MissingPackage);
        },
    };
    let package = take_package(get(top, "package"));
    let profile = take_profiles(get(top, "profile"));
    let workspace = take_workspace(get(top, "workspace"));
    let package = match package {
        Ok(p) => p,
        Err(e) => {
            return Err(e);
        },
    };
    let profile = match profile {
        Ok(p) => p,
        Err(e) => {
            return Err(e);
        },
    };
    let workspace = match workspace {
        Ok(w) => w,
        Err(e) => {
            return Err(e);
        },
    };
    Ok(Manifest { package, profile, workspace })
}

} // verus!
