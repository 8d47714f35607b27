//! Decision logic of an end-to-end harness for a browser extension that
//! draws railroad diagrams into documentation pages.
//!
//! The browser, the file system and the clock stay with the caller. This
//! crate holds what the harness decides: how a packed extension is unpacked,
//! how a session is opened and torn down, in which order a page is driven
//! until its diagram can be used, which steps each capture takes, and
//! whether measured element boxes are placed as they should be.

pub mod archive;
pub mod capture;
pub mod dispatch;
pub mod error;
pub mod geometry;
pub mod layout;
pub mod readiness;
pub mod run;
pub mod script;
pub mod session;
pub mod targets;
