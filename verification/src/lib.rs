//! Ingestion core of a columnar telemetry endpoint.
//!
//! A call is served by one [`session::IngestSession`]. It says which
//! fragment of each inbound unit goes to the decoder of which schema, hands
//! decoded batches to storage, and acknowledges every unit with exactly one
//! status. The driver of the call runs the decoders and storage and reports
//! what came of it.

pub mod decoder;
pub mod fragment;
pub mod payload;
pub mod router;
pub mod session;
pub mod status;
pub mod table;
