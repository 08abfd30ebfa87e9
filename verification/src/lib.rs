//! A component-authoring and schema-registration layer for an
//! entity-component-system world.
//!
//! Component schemas are declared as plain data records, turned into ordered
//! field-list descriptors, and registered with a world context that hands out
//! stable numeric ids. Entities are opaque handles onto which component
//! instances, parent/child relationship edges, and world-scoped singleton
//! instances are attached; queries filter entities by the components they
//! carry and drive per-tick system callbacks.

pub mod engine_components;
pub mod entities;
pub mod errors;
pub mod game_components;
pub mod laws;
pub mod query;
pub mod registry;
pub mod schema;
pub mod systems;
pub mod value;
pub mod world;

pub use errors::EcsError;
pub use value::{TypeTag, Value};
