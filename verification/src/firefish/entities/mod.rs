//! Firefish entity types.

pub mod instance;

pub use instance::{Instance, InstanceConfig, MediaAttachments, Polls, Stats, Statuses, URLs};
