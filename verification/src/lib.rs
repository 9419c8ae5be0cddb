//! Backend abstraction and streaming-translation layer for a multi-cloud
//! object-storage proxy.
//!
//! The crate covers the pure, provable core of the proxy: the byte-stream
//! bridge that adapts a chunked inbound body to a backend SDK's reader
//! contract, the fixed-width part-identifier scheme used to emulate
//! multipart uploads on blob-style backends, the planning and validation
//! steps that run before any backend call, the multipart orchestration
//! state machine, and the records exchanged with the metadata control
//! plane. The network edges (backend SDK calls, the protocol front end)
//! live outside the library and hand it plain values.

pub mod adapter;
pub mod bridge;
pub mod errors;
pub mod models;
pub mod orchestrator;
pub mod part_id;

pub use errors::ProxyError;
