//! Asset-loading helpers for a game engine's entity-component system.
//!
//! An entity that needs a mesh or material asset carries a marker component
//! holding the asset's path. Each frame, the engine host gathers the entities
//! that carry such a marker and asks this library what to do with them. The
//! library turns every pending marker into a load action: remove the marker
//! from the entity, request an asynchronous load of the path, and attach the
//! returned handle to the same entity. The planning logic lives here and is
//! verified; the host performs the queries, the loads and the component
//! mutations.

pub mod markers;
pub mod plan;
