//! A virtualized scroll viewport for dynamically growing lists of
//! variable-height items, such as a live chat transcript.
//!
//! The viewport keeps one of two guarantees each frame: a reader who has
//! scrolled up keeps their place when content is appended or resized
//! elsewhere (anchor preservation), while a reader at the live tail stays
//! pinned to the newest content (stick-to-bottom). Scrolling itself is
//! smoothed by a frame-driven animator.

pub mod config;
pub mod geometry;
pub mod input;
pub mod layout;
pub mod operation;
pub mod platform;
pub mod scrollie;
pub mod seventv;
pub mod store;
pub mod tabs;
