//! Canonical signatures for the public surface of a library, and the
//! difference between two such surfaces.
//!
//! [`render::token_stream`] renders the description of an item (see
//! [`ast`]) into its signature, a sequence of [`tokens::Token`]s;
//! [`signature`] says what that sequence is. A path and a signature make a
//! [`public_item::PublicItem`], [`listing::public_api`] lists the items of
//! a surface, and [`diff::PublicItemsDiff::between`] tells what was
//! removed, changed and added between two such listings.

pub mod ast;
pub mod attributes;
pub mod diff;
pub mod error;
pub mod listing;
pub mod order;
pub mod public_item;
pub mod render;
pub mod rustdoc_json;
pub mod signature;
pub mod sort;
pub mod tokens;

pub use ast::IntermediatePublicItem;
pub use diff::{ChangedPublicItem, PublicItemsDiff};
pub use error::PublicApiError;
pub use listing::{Options, public_api, public_item};
pub use public_item::PublicItem;
pub use render::token_stream;
pub use rustdoc_json::crate_from_rustdoc_json_str;
pub use tokens::{Token, tokens_to_string};
