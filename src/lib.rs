//! An entity-component-system core: typed arenas of components, entities that
//! record which components they own, and a world that runs its systems once per
//! tick in a fixed order.

pub mod arena;
pub mod asteroids;
pub mod simple;
pub mod slot;
pub mod system;

pub use arena::{ArenaOverflow, Array, Id};
