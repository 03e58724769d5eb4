//! Coordination core of a tablet application runtime: a spatial index of
//! touch-sensitive screen regions, a registry of named interface elements,
//! bookkeeping for input-device sessions, and the routing of input events.

pub mod context;
pub mod devices;
pub mod display;
pub mod events;
pub mod geometry;
pub mod index;
pub mod regions;
pub mod registry;
