use vstd::prelude::*;

use crate::decode::{decode, decoded, ContentType};
use crate::manifest::{bind, bind_manifest, strings_view, Manifest, ManifestModel};
use crate::tree::{get, lemma_view, lookup, str_is, trees, GenericValue, Tree};

verus! {

/// One order of the metadata: an item and how many of it.
#[derive(Debug, PartialEq, Eq)]
pub struct Order {
    pub item: String,
    pub quantity: u32,
}

/// The model of an `Order`.
pub struct OrderModel {
    pub item: Seq<char>,
    pub quantity: u32,
}

impl View for Order {
    type V = OrderModel;

    open spec fn view(&self) -> OrderModel {
        OrderModel { item: self.item@, quantity: self.quantity }
    }
}

pub open spec fn orders_view(v: Seq<Order>) -> Seq<OrderModel> {
    Seq::new(v.len(), |i: int| v[i]@)
}

/// The outcome of validating a manifest.
#[derive(Debug, PartialEq, Eq)]
pub enum CargoOrders {
    /// The manifest is valid and has the keyword: the orders in it that are well-formed.
    Orders(Vec<Order>),
    /// The manifest is valid but lacks the keyword.
    KeywordMissing,
    /// The text is not well-formed, or not a manifest.
    InvalidManifest,
}

/// The model of a `CargoOrders`.
pub enum Outcome {
    Orders(Seq<OrderModel>),
    KeywordMissing,
    InvalidManifest,
}

impl View for CargoOrders {
    type V = Outcome;

    open spec fn view(&self) -> Outcome {
        match self {
            CargoOrders::Orders(o) => Outcome::Orders(orders_view(o@)),
            CargoOrders::KeywordMissing => Outcome::KeywordMissing,
            CargoOrders::InvalidManifest => Outcome::InvalidManifest,
        }
    }
}

/// The order that an entry stands for: a table with a string `item` and a `quantity` that is
/// an integer in the range of `u32`. Other keys are ignored.
pub open spec fn order_of(t: Tree) -> Option<OrderModel> {
    match t {
        Tree::Table(e) => match (lookup(e, "item"@), lookup(e, "quantity"@)) {
            (Some(Tree::Str(item)), Some(Tree::Integer(q))) => if 0 <= q <= u32::MAX {
                Some(OrderModel { item, quantity: q as u32 })
            } else {
                None
            },
            _ => None,
        },
        _ => None,
    }
}

/// The orders of the entries that are well-formed, in the order of the entries.
pub open spec fn extract_orders(c: Seq<Tree>) -> Seq<OrderModel>
    decreases c.len(),
{
    if c.len() == 0 {
        Seq::empty()
    } else {
        let rest = extract_orders(c.drop_last());
        match order_of(c.last()) {
            Some(o) => rest.push(o),
            None => rest,
        }
    }
}

/// The keyword without which a manifest's orders are not reported.
pub open spec fn order_keyword() -> Seq<char> {
    "Christmas 2024"@
}

pub open spec fn evaluate_model(m: ManifestModel) -> Outcome {
    if m.package.keywords.contains(order_keyword()) {
        Outcome::Orders(extract_orders(m.package.orders))
    } else {
        Outcome::KeywordMissing
    }
}

pub open spec fn outcome_of_tree(t: Tree) -> Outcome {
    match bind_manifest(t) {
        Ok(m) => evaluate_model(m),
        Err(_) => Outcome::InvalidManifest,
    }
}

pub open spec fn outcome_of_text(text: Seq<char>, format: ContentType) -> Outcome {
    match decoded(text, format) {
        Some(t) => outcome_of_tree(t),
        None => Outcome::InvalidManifest,
    }
}

/// Binds one order entry; `None` where it is not well-formed.
pub fn bind_order(v: &GenericValue) -> (r: Option<Order>)
    ensures
        match r {
            Some(o) => order_of(v@) == Some(o@),
            None => order_of(v@) is None,
        },
{
    proof { lemma_view(v); }
    if let GenericValue::Table(e) = v {
        let item = get(e, "item");
        let quantity = get(e, "quantity");
        if let (Some(i), Some(q)) = (item, quantity) {
            proof {
                lemma_view(i);
                lemma_view(q);
            }
            if let (GenericValue::Str(item), GenericValue::Integer(n)) = (i, q) {
                if 0 <= *n && *n <= u32::MAX as i128 {
                    return Some(Order { item: item.clone(), quantity: *n as u32 });
                }
            }
        }
    }
    None
}

/// The orders of the entries that are well-formed, in their order; the others are skipped.
pub fn extract(candidates: &Vec<GenericValue>) -> (r: Vec<Order>)
    ensures
        orders_view(r@) == extract_orders(trees(candidates@)),
{
    let ghost c = trees(candidates@);
    let mut out: Vec<Order> = Vec::new();
    let mut i: usize = 0;
    assert(c.take(0) =~= Seq::<Tree>::empty());
    assert(orders_view(out@) =~= Seq::<OrderModel>::empty());
    while i < candidates.len()
        invariant
            c == trees(candidates@),
            0 <= i <= candidates@.len(),
            orders_view(out@) == extract_orders(c.take(i as int)),
        decreases candidates.len() - i,
    {
        let o = bind_order(&candidates[i]);
        assert(c.take(i + 1).drop_last() =~= c.take(i as int));
        assert(c.take(i + 1).last() == candidates@[i as int]@);
        match o {
            Some(o) => {
                out.push(o);
                assert(orders_view(out@) =~= extract_orders(c.take(i as int)).push(out@.last()@));
            },
            None => {},
        }
        i += 1;
    }
    assert(c.take(i as int) =~= c);
    out
}

/// Whether the keywords hold the order keyword.
fn has_order_keyword(keywords: &Vec<String>) -> (r: bool)
    ensures
        r == strings_view(keywords@).contains(order_keyword()),
{
    let ghost k = strings_view(keywords@);
    let mut i: usize = 0;
    while i < keywords.len()
        invariant
            k == strings_view(keywords@),
            0 <= i <= keywords@.len(),
            forall|j: int| 0 <= j < i ==> k[j] != order_keyword(),
        decreases keywords.len() - i,
    {
        if str_is(&keywords[i], "Christmas 2024") {
            assert(k[i as int] == order_keyword());
            return true;
        }
        i += 1;
    }
    false
}

/// The outcome for a bound manifest: its orders where it has the keyword.
pub fn evaluate(manifest: &Manifest) -> (r: CargoOrders)
    ensures
        r@ == evaluate_model(manifest@),
{
    if has_order_keyword(&manifest.package.keywords) {
        CargoOrders::Orders(extract(&manifest.package.metadata.orders))
    } else {
        CargoOrders::KeywordMissing
    }
}

/// The outcome for a decoded tree.
pub fn validate_tree(tree: &GenericValue) -> (r: CargoOrders)
    ensures
        r@ == outcome_of_tree(tree@),
{
    match bind(tree) {
        Ok(m) => evaluate(&m),
        Err(_) => CargoOrders::InvalidManifest,
    }
}

/// Validates a manifest written in `content_type` and reports its orders.
pub fn from_str(data: &str, content_type: ContentType) -> (r: CargoOrders)
    ensures
        r@ == outcome_of_text(data@, content_type),
{
    match decode(data, content_type) {
        Ok(tree) => validate_tree(&tree),
        Err(_) => CargoOrders::InvalidManifest,
    }
}

} // verus!
