//! Provisioning of the ZLS language server for a Zig toolchain, and the
//! translation of Zig build tasks into debug scenarios and launch requests.
//!
//! Every decision the extension takes lives here as verified code; the host
//! calls, the filesystem and the network stay with the caller, which performs
//! the [`resolve::Action`]s this crate asks for and reports back
//! [`resolve::Event`]s.
//!
//! - [`platform`], [`text`], [`url`], [`path`]: names of platforms, and text.
//! - [`negotiate`], [`cache`], [`fetch`], [`binary`]: the parts of a
//!   resolution.
//! - [`resolve`]: the resolution as executable steps; [`steps`]: what the
//!   steps compute; [`runs`]: what holds of whole resolutions.
//! - [`task`]: build tasks, debug scenarios and launch requests.
//! - [`json`]: what is taken on trust from `serde_json`.

pub mod platform;
pub mod text;
pub mod url;
pub mod path;
pub mod json;
pub mod error;
pub mod negotiate;
pub mod cache;
pub mod binary;
pub mod fetch;
pub mod resolve;
pub mod steps;
pub mod runs;
pub mod task;
