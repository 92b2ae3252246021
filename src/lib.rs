//! Validation of package manifests written in TOML, JSON or YAML, and extraction of the
//! orders kept in their metadata; beside it, the decisions of a few small services: a
//! four-in-a-row game, the states of presents and ornaments, sprinkles read from a lockfile,
//! address arithmetic and the paging of a quote list.

use vstd::prelude::*;

pub mod addresses;
pub mod bucket;
pub mod decode;
pub mod game;
pub mod htmx;
pub mod laws;
pub mod lockfile;
pub mod manifest;
pub mod orders;
pub mod quotes;
pub mod tree;
pub mod validators;

pub use decode::{decode, ContentType, SyntaxError};
pub use addresses::{dest_octets, key_octets, xor_octets};
pub use bucket::Bucket;
pub use game::{parse_move, Game, GameState, Piece};
pub use htmx::{escape_attribute, ornament_step, Color};
pub use lockfile::{sprinkle, sprinkles, LockfileError, Sprinkle};
pub use manifest::{bind, BindError, Manifest};
pub use orders::{evaluate, extract, from_str, validate_tree, CargoOrders, Order};
pub use quotes::{plan_page, PagePlan};
pub use tree::GenericValue;

verus! {

} // verus!
