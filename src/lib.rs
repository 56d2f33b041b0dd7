//! A local image transcoding service: length-prefixed framing, the
//! per-connection request/response state machine, and the decode step.

pub mod frame;
pub mod transcode;
pub mod connection;
