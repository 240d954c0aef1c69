//! Supervision of one tunnel worker process: the line-delimited JSON command and event
//! codec, the single-slot registry of the running worker, the decisions behind each
//! supervisor operation, and the bridge that turns worker output into published events.

pub mod bridge;
pub mod codec;
pub mod json;
pub mod registry;
pub mod supervisor;
