//! The Pleroma client: what each API call sends.

pub mod pleroma;
pub mod accounts;
pub mod statuses;
pub mod timelines;
pub mod instance;
pub mod fields;


pub use pleroma::{Pleroma, StreamingConfig};
