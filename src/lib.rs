//! Crash reports for a failing process: the failure record with its call
//! stack, attachments that refer back to it, the JSON body that carries them
//! to the ingestion service, and the steps of the failure handler.

pub mod device;
pub mod json;
pub mod report;
pub mod text;
pub mod transport;
