//! Decoding and encoding of canonical WAV files.
//!
//! A canonical WAV file is a header of 44 bytes, made of a RIFF chunk, a `fmt ` subchunk
//! and the start of a `data` subchunk, followed by the audio data. [`WavHandler::new`]
//! decodes such a file from its bytes, the fields of the [`WavHandler`] can then be
//! changed, and [`WavHandler::write_new_file`] encodes it again. The module `format`
//! holds the layout as a mathematical model, and the module `laws` what is proved of
//! decoding and encoding together.

pub mod endian;
pub mod error;
pub mod format;
pub mod handler;
pub mod laws;
pub mod reader;
pub mod representation;

pub use error::WavError;
pub use handler::WavHandler;
pub use handler::DATA_CHUNK_SIZE;
pub use reader::get_next_byteline;
pub use reader::get_next_data_chunk;
pub use reader::ByteReader;
pub use representation::ByteRepresentation;
