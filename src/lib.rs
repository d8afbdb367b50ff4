//! Window discovery and manipulation core for Linux desktops.
//!
//! The library keeps stable, human-typable references (`w0`, `w1`, ...) for the
//! windows that a backend enumerates, decides which backend an environment calls
//! for, and drives the delegating focus policy that falls back to the baseline
//! backend when a richer mechanism fails.

pub mod backend;
pub mod input;
pub mod kwin;
pub mod refname;
pub mod registry;
pub mod requests;
pub mod screenshot;
pub mod text;
pub mod window;
pub mod x11;
