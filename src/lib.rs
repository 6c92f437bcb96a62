//! A log-record shipper: records are batched in a buffer and handed to a
//! transport that forwards them to a remote GELF collector.

pub mod buffer;
pub mod error;
pub mod output;
pub mod pipeline;
pub mod record;

pub use buffer::{Buffer, BufferView, Event, Metronome};
pub use error::TransportError;
pub use output::{payloads, GelfTcpOutput};
