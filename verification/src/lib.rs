//! An interactive-fiction story player: an immutable graph of scenes joined
//! by keyed choices, and a telling that walks it one verb at a time.
pub mod story;
pub mod telling;
