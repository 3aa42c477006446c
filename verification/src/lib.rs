//! Streaming compression and decompression adapters.
//!
//! The crate wraps a pull-based byte source in an adapter that feeds a
//! compression engine one bounded chunk at a time, so that arbitrarily long
//! payloads can be transcoded without ever holding them whole in memory.

pub mod common;
pub mod decoder;
pub mod encoder;
pub mod engine;
pub mod errors;
pub mod gzip;
pub mod source;

pub use common::AllocationCounter;
pub use decoder::Decoder;
pub use decoder::DecoderView;
pub use encoder::Encoder;
pub use encoder::EncoderView;
pub use engine::Container;
pub use engine::EngineStatus;
pub use engine::FlushMode;
pub use errors::classify;
pub use errors::CodecError;
pub use errors::ErrorKind;
pub use errors::Operation;
pub use gzip::GzipHeaderParser;
pub use gzip::HeaderStage;
pub use source::MemSource;
pub use source::Source;
