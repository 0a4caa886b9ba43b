//! Agent2Agent protocol library: verified task lifecycle, stores and protocol types.

pub mod client;
pub mod error;
pub mod external;
pub mod text;
pub mod types;
pub mod server;
pub mod task_helpers;
