//! Verified core of a schematic viewer: the decisions and bookkeeping that
//! drive browsing components, reacting to window messages, timing frames and
//! indexing the objects of a loaded schema. Rendering and all floating-point
//! geometry live outside this crate.
pub mod cli;
pub mod frame_clock;
pub mod group;
pub mod navigation;
pub mod schema_index;
pub mod spaces;
pub mod text_layout;
pub mod window_events;
