//! Reproducible packaging of build outputs.
//!
//! For each build target the crate settles a stable identity, computes a
//! fingerprint of the build configuration and one of the produced content,
//! lays out a compressed archive that carries the identity as metadata, and
//! writes the checksum sidecar that goes with it. Reading files, writing
//! archives and running other programs is left to the caller: every function
//! here goes from plain values to plain values, and states what it returns.
//!
//! - [`text`], [`order`]: scanning text, and the order of byte strings.
//! - [`digest`]: SHA-256, hexadecimal text, fingerprints.
//! - [`tree`]: the files of an output in path order, and their fingerprint.
//! - [`config`]: the fingerprint of the build configuration.
//! - [`target`]: the identity of a target and the place of its output.
//! - [`archive`]: archive names, the metadata record, the entries of an
//!   archive, the checksum sidecar.
//! - [`upload`]: which way an artifact goes to its destination.
//! - [`pipeline`]: the stages of one target, and the report over all.
//! - [`commands`]: the outside programs that packaging runs.
//! - [`json`], [`error`]: JSON values, and what can stop a target.

pub mod archive;
pub mod commands;
pub mod config;
pub mod digest;
pub mod error;
pub mod json;
pub mod order;
pub mod pipeline;
pub mod target;
pub mod text;
pub mod tree;
pub mod upload;
