//! A configuration library built around a dynamic value tree.
//!
//! Text formats, files and other sources are adapted elsewhere into
//! [`ConfigValue`] trees; this crate holds the value representation, the
//! type-directed extraction protocol ([`FromValue`]), the visitor dispatch
//! protocol ([`ValueVisitor`]), and the schema-driven field and variant
//! resolution that extraction for declared types is composed from.

pub mod db;
pub mod dict;
pub mod error;
pub mod extract;
pub mod formats;
pub mod laws;
pub mod loader;
pub mod schema;
pub mod source;
pub mod text;
pub mod value;
pub mod visitor;

pub use dict::Dict;
pub use error::Error;
pub use extract::FromValue;
pub use extract::extract;
pub use value::ConfigValue;
pub use visitor::FromValueVisitor;
pub use visitor::MapAccess;
pub use visitor::SeqAccess;
pub use visitor::ValueVisitor;
pub use visitor::visit;
