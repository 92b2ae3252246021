use vstd::prelude::*;

verus! {

/// A format-neutral document tree, as decoded from TOML, JSON or YAML text.
#[derive(Debug, PartialEq)]
pub enum GenericValue {
    Table(Vec<(String, GenericValue)>),
    Sequence(Vec<GenericValue>),
    Str(String),
    Integer(i128),
    Float,
    Boolean(bool),
    /// A scalar that no manifest field accepts: a TOML date-time or a tagged YAML node.
    Other,
    Null,
}

/// The mathematical model of a `GenericValue`.
pub enum Tree {
    Table(Seq<(Seq<char>, Tree)>),
    Sequence(Seq<Tree>),
    Str(Seq<char>),
    Integer(int),
    Float,
    Boolean(bool),
    Other,
    Null,
}

pub open spec fn tree_of(v: GenericValue) -> Tree
    decreases v,
{
    match v {
        GenericValue::Table(e) => Tree::Table(
            Seq::new(
                e@.len(),
                |i: int|
                    if 0 <= i < e@.len() {
                        (e@[i].0@, tree_of(e@[i].1))
                    } else {
                        (Seq::empty(), Tree::Null)
                    },
            ),
        ),
        GenericValue::Sequence(s) => Tree::Sequence(
            Seq::new(s@.len(), |i: int| if 0 <= i < s@.len() { tree_of(s@[i]) } else { Tree::Null }),
        ),
        GenericValue::Str(s) => Tree::Str(s@),
        GenericValue::Integer(n) => Tree::Integer(n as int),
        GenericValue::Float => Tree::Float,
        GenericValue::Boolean(b) => Tree::Boolean(b),
        GenericValue::Other => Tree::Other,
        GenericValue::Null => Tree::Null,
    }
}

impl View for GenericValue {
    type V = Tree;

    open spec fn view(&self) -> Tree {
        tree_of(*self)
    }
}

/// The model of the entries of a table.
pub open spec fn table_view(e: Seq<(String, GenericValue)>) -> Seq<(Seq<char>, Tree)> {
    Seq::new(e.len(), |i: int| (e[i].0@, e[i].1@))
}

/// The model of a sequence of values.
pub open spec fn trees(s: Seq<GenericValue>) -> Seq<Tree> {
    Seq::new(s.len(), |i: int| s[i]@)
}

pub proof fn lemma_table_view(e: Vec<(String, GenericValue)>)
    ensures
        GenericValue::Table(e)@ == Tree::Table(table_view(e@)),
{
    let t = GenericValue::Table(e)@;
    assert(table_view(e@) =~= t->Table_0);
}

pub proof fn lemma_sequence_view(s: Vec<GenericValue>)
    ensures
        GenericValue::Sequence(s)@ == Tree::Sequence(trees(s@)),
{
    let t = GenericValue::Sequence(s)@;
    assert(trees(s@) =~= t->Sequence_0);
}

/// The model of each kind of value.
pub proof fn lemma_view(v: &GenericValue)
    ensures
        match *v {
            GenericValue::Table(e) => v@ == Tree::Table(table_view(e@)),
            GenericValue::Sequence(s) => v@ == Tree::Sequence(trees(s@)),
            GenericValue::Str(s) => v@ == Tree::Str(s@),
            GenericValue::Integer(n) => v@ == Tree::Integer(n as int),
            GenericValue::Float => v@ == Tree::Float,
            GenericValue::Boolean(b) => v@ == Tree::Boolean(b),
            GenericValue::Other => v@ == Tree::Other,
            GenericValue::Null => v@ == Tree::Null,
        },
{
    match *v {
        GenericValue::Table(e) => lemma_table_view(e),
        GenericValue::Sequence(s) => lemma_sequence_view(s),
        _ => {},
    }
}

/// The value of the first entry of `entries` whose key is `key`.
pub open spec fn lookup(entries: Seq<(Seq<char>, Tree)>, key: Seq<char>) -> Option<Tree>
    decreases entries.len(),
{
    if entries.len() == 0 {
        None
    } else if entries[0].0 == key {
        Some(entries[0].1)
    } else {
        lookup(entries.drop_first(), key)
    }
}

/// The model of a value that may be missing.
pub open spec fn opt_tree(v: Option<&GenericValue>) -> Option<Tree> {
    match v {
        Some(x) => Some(x@),
        None => None,
    }
}

/// Whether `s` holds exactly the characters of `lit`.
pub fn str_is(s: &String, lit: &str) -> (r: bool)
    ensures
        r == (s@ == lit@),
{
    *s == lit.to_owned()
}

/// Whether `a` and `b` hold the same characters.
pub fn str_eq(a: &str, b: &str) -> (r: bool)
    ensures
        r == (a@ == b@),
{
    a.to_owned() == b.to_owned()
}

/// The value of the first entry of `entries` whose key is `key`.
pub fn get<'a>(entries: &'a Vec<(String, GenericValue)>, key: &str) -> (r: Option<&'a GenericValue>)
    ensures
        opt_tree(r) == lookup(table_view(entries@), key@),
{
    let ghost tv = table_view(entries@);
    let mut i: usize = 0;
    assert(tv.subrange(0, tv.len() as int) =~= tv);
    while i < entries.len()
        invariant
            0 <= i <= entries.len(),
            tv == table_view(entries@),
            lookup(tv, key@) == lookup(tv.subrange(i as int, tv.len() as int), key@),
        decreases entries.len() - i,
    {
        if str_is(&entries[i].0, key) {
            return Some(&entries[i].1);
        }
        assert(tv.subrange(i as int, tv.len() as int).drop_first() =~= tv.subrange(
            i + 1,
            tv.len() as int,
        ));
        i += 1;
    }
    None
}

impl GenericValue {
    /// A copy of the value.
    pub fn deep_clone(&self) -> (r: GenericValue)
        ensures
            r@ == self@,
        decreases self,
    {
        match self {
            GenericValue::Table(e) => {
                let mut out: Vec<(String, GenericValue)> = Vec::new();
                let mut i: usize = 0;
                while i < e.len()
                    invariant
                        *self == GenericValue::Table(*e),
                        0 <= i <= e.len(),
                        out@.len() == i,
                        forall|j: int| 0 <= j < i ==> (#[trigger] out@[j]).0@ == e@[j].0@ && out@[j].1@ == e@[j].1@,
                    decreases e.len() - i,
                {
                    let k = e[i].0.clone();
                    proof {
                        assert(decreases_to!(*self => (*self)->Table_0));
                        assert(decreases_to!(*e => e@));
                        assert(decreases_to!(e@ => e@[i as int]));
                        assert(decreases_to!(e@[i as int] => e@[i as int].1));
                    }
                    let v = e[i].1.deep_clone();
                    out.push((k, v));
                    i += 1;
                }
                proof {
                    lemma_table_view(*e);
                    lemma_table_view(out);
                    assert(table_view(out@) =~= table_view(e@));
                }
                GenericValue::Table(out)
            },
            GenericValue::Sequence(s) => {
                let mut out: Vec<GenericValue> = Vec::new();
                let mut i: usize = 0;
                while i < s.len()
                    invariant
                        *self == GenericValue::Sequence(*s),
                        0 <= i <= s.len(),
                        out@.len() == i,
                        forall|j: int| 0 <= j < i ==> (#[trigger] out@[j])@ == s@[j]@,
                    decreases s.len() - i,
                {
                    proof {
                        assert(decreases_to!(*self => (*self)->Sequence_0));
                        assert(decreases_to!(s => s@));
                        assert(decreases_to!(s@ => s@[i as int]));
                    }
                    let v = s[i].deep_clone();
                    out.push(v);
                    i += 1;
                }
                proof {
                    lemma_sequence_view(*s);
                    lemma_sequence_view(out);
                    assert(trees(out@) =~= trees(s@));
                }
                GenericValue::Sequence(out)
            },
            GenericValue::Str(s) => GenericValue::Str(s.clone()),
            GenericValue::Integer(n) => GenericValue::Integer(*n),
            GenericValue::Float => GenericValue::Float,
            GenericValue::Boolean(b) => GenericValue::Boolean(*b),
            GenericValue::Other => GenericValue::Other,
            GenericValue::Null => GenericValue::Null,
        }
    }
}

} // verus!
