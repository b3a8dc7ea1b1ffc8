//! Build-and-package orchestration for Windows driver crates.
//!
//! The library is the decision-making core of a `cargo wdk`-style build tool:
//! it validates command-line argument values, resolves the default target
//! architecture from a toolchain query, scans workspace manifests to classify
//! members as drivers or non-drivers, plans the per-package packaging pipeline
//! (compile, INF stamping, catalog generation, signing, artifact copy) as an
//! explicit state machine over provider operations, and aggregates per-package
//! outcomes into one workspace verdict. All I/O — running the external tools
//! and touching the filesystem — is left to a thin adapter around the library
//! that performs each requested operation and feeds the result back in.

pub mod arch;
pub mod args;
pub mod errors;
pub mod fs_model;
pub mod manifest;
pub mod pipeline;
pub mod plan;
pub mod provider;
pub mod text;
pub mod workspace;

