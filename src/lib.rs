//! Decoding of the game's UTF-16 docs export into a typed, cross-referenced
//! catalog: scalar coercion, identifier and path normalizers, the raw tree
//! model, the catalog generator and the catalog itself.
pub mod catalog;
pub mod coercion;
pub mod error;
pub mod generator;
pub mod id_map;
pub mod loader;
pub mod normalize;
pub mod project;
pub mod raw;
pub mod requests;
pub mod steam;
pub mod text;

pub use catalog::{DescriptionItem, Entry, IconAsset, OrbitalData, OrbitalItem, Property};
pub use coercion::Coercion;
pub use error::{CommonError, DocsError};
pub use generator::{generate_catalog, Category, Generator};
pub use normalize::{AssetReference, ClassReference, IconPath, NormalizedString};
pub use project::{ProjectConfig, ProjectCreationModel};
pub use raw::{RawNumber, RawValue};
