//! A versioned cache-entry abstraction for a registry client.
//!
//! The central type, [`value_modified::ValueModified`], pairs a structured
//! JSON-like document with an opaque revalidation marker, so that the owning
//! registry can perform conditional re-fetching and can bootstrap from
//! hard-coded per-network defaults before any network access has occurred.

pub mod assets_or_icons;
pub mod error;
pub mod hard_coded;
pub mod json;
pub mod params;
pub mod store;
pub mod typed;
pub mod value_modified;

pub use assets_or_icons::AssetsOrIcons;
pub use error::DeserializationError;
pub use json::{JsonKind, JsonValue};
pub use params::ElementsNetwork;
pub use typed::{AssetMap, FromJson, IconMap};
pub use value_modified::ValueModified;
