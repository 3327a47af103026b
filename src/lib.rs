//! Discovery of persisted room-layout anchors from a mixed-reality runtime.
//!
//! The runtime itself is reached through native calls made by the host; this
//! crate holds the decisions of the query cycle, each one a verified function
//! from what a native call reported to what happens next.

pub mod uuid;
pub mod error;
pub mod retrieve;
pub mod probe;
pub mod filter;
pub mod resolve;
pub mod cycle;
