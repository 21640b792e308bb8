//! Core of an interactive terminal directory browser: entry metadata
//! derivation, sort and fuzzy-search projections, viewport scrolling, and the
//! modal key-driven navigation state machine. Terminal rendering, filesystem
//! reads and the final shell hand-off live outside this crate.

pub mod entry;
pub mod fuzzy;
pub mod keys;
pub mod nav;
pub mod numfmt;
pub mod order;
pub mod perm;
pub mod project;
pub mod render;
pub mod timefmt;
pub mod viewport;
