//! Command logic of a desktop media browser: probing a video's length,
//! scheduling evenly spaced preview frames, building the argument lists of the
//! media tools, and wrapping image bytes for inline display.
//!
//! Nothing here starts a process or touches a file. The caller runs the tools
//! and hands back what they printed; every decision in between is made here.

pub mod encode;
pub mod error;
pub mod frames;
pub mod greeting;
pub mod paths;
pub mod preview;
pub mod probe;
pub mod runs;
pub mod schedule;
pub mod text;
pub mod timeline;
pub mod tools;
