//! Locating and provisioning the `dhall-lsp-server` executable.
//!
//! The library holds the decision core of a language-server installer: given
//! the machine's platform, the release metadata of the upstream project, and
//! the outcomes of filesystem and process probes, it decides — step by step —
//! whether an existing binary can be reused, which release artifact to fetch,
//! where to place it, and what to clean up afterwards.

pub mod error;
pub mod extension;
pub mod laws;
pub mod model;
pub mod paths;
pub mod platform;
pub mod release;
pub mod resolver;
pub mod strutil;
