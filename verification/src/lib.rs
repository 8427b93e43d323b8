//! Server-side hook pipeline for a minimal push-to-deploy platform.
//!
//! When a commit lands on a bare repository, the pipeline builds a container
//! image from the new tree, pushes it to a registry, patches the image tag in
//! a GitOps manifest, and notifies a cluster reconciler. This crate holds the
//! pipeline's decisions and data transformations; subprocess and network
//! execution live outside it and are driven through explicit state machines.

pub mod builder;
pub mod config;
pub mod deploy;
pub mod errors;
pub mod image;
pub mod manifest;
pub mod pipeline;
pub mod text;
pub mod webhook;
