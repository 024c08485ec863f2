//! A continuous-documentation-deployment pipeline: on a trigger, the source
//! content repository and the destination (publishing) repository are each
//! mirrored into a local workspace, the freshly built site replaces the
//! published subdirectory of the destination workspace, and a commit is
//! created and pushed only if the content actually changed.
//!
//! The remote operations themselves (clone, fetch, push, directory copy) are
//! performed by the surrounding program; this crate holds the verified state
//! model of the two repository lifecycles and the orchestration decisions
//! that make repeated triggers safe and idempotent.

pub mod config;
pub mod github;
pub mod lock;
pub mod pipeline;
pub mod repo;
