//! Sample-format conversion and buffer access for real-time audio streams.
//!
//! The library has two cores. `sample` converts losslessly between the integer
//! sample representations and serialises them to little- and big-endian bytes.
//! `outstream` and `instream` give a write or read callback a cursor that
//! acquires a section of interleaved frames, converts samples into or out of the
//! stream's wire format, and commits the section. `stream` holds the options a
//! stream is opened with and the states it passes through.
pub mod backend;
pub mod channels;
pub mod error;
pub mod format;
pub mod instream;
pub mod layout;
pub mod native;
pub mod outstream;
pub mod raw;
pub mod sample;
pub mod stream;
pub mod types;

pub use backend::Backend;
pub use channels::ChannelId;
pub use error::{from_code, Error};
pub use format::{endianness, Endian, Format};
pub use instream::InStreamReader;
pub use layout::{ChannelLayout, ChannelLayoutId};
pub use outstream::{ChannelArea, OutStreamWriter};
pub use sample::{i24, u24, Sample};
pub use stream::{SampleRate, StreamOptions, StreamState};
pub use types::{DeviceAim, SampleRateRange};
