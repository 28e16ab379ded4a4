use vstd::prelude::*;

use crate::raw;
use crate::sample::{be_bytes, be_value, lemma_bytes_round_trip, le_bytes, le_value, twos_code, weight};

verus! {

/// The format of the samples on the wire.
#[derive(Debug, Copy, Clone, PartialEq, Eq, Structural)]
pub enum Format {
    /// Invalid format
    Invalid,
    /// Signed 8 bit
    S8,
    /// Unsigned 8 bit
    U8,
    /// Signed 16 bit Little Endian
    S16LE,
    /// Signed 16 bit Big Endian
    S16BE,
    /// Unsigned 16 bit Little Endian
    U16LE,
    /// Unsigned 16 bit Big Endian
    U16BE,
    /// Signed 24 bit Little Endian using low three bytes in 32-bit word
    S24LE,
    /// Signed 24 bit Big Endian using low three bytes in 32-bit word
    S24BE,
    /// Unsigned 24 bit Little Endian using low three bytes in 32-bit word
    U24LE,
    /// Unsigned 24 bit Big Endian using low three bytes in 32-bit word
    U24BE,
    /// Signed 32 bit Little Endian
    S32LE,
    /// Signed 32 bit Big Endian
    S32BE,
    /// Unsigned 32 bit Little Endian
    U32LE,
    /// Unsigned 32 bit Big Endian
    U32BE,
    /// Float 32 bit Little Endian, Range -1.0 to 1.0
    Float32LE,
    /// Float 32 bit Big Endian, Range -1.0 to 1.0
    Float32BE,
    /// Float 64 bit Little Endian, Range -1.0 to 1.0
    Float64LE,
    /// Float 64 bit Big Endian, Range -1.0 to 1.0
    Float64BE,
}

/// Byte order of a sample format.
#[derive(Debug, Copy, Clone, PartialEq, Eq, Structural)]
pub enum Endian {
    Big,
    Little,
}

/// Whether a format stores its samples big-endian.
pub open spec fn is_big_endian(f: Format) -> bool {
    match f {
        Format::S16BE | Format::U16BE | Format::S24BE | Format::U24BE | Format::S32BE
        | Format::U32BE | Format::Float32BE | Format::Float64BE => true,
        _ => false,
    }
}

/// Storage width of one sample in bytes; 24-bit samples occupy a 32-bit word.
/// `Invalid` has no storage.
pub open spec fn bytes_per_sample_spec(f: Format) -> int {
    match f {
        Format::Invalid => -1,
        Format::S8 | Format::U8 => 1,
        Format::S16LE | Format::S16BE | Format::U16LE | Format::U16BE => 2,
        Format::Float64LE | Format::Float64BE => 8,
        _ => 4,
    }
}

/// Whether a format holds integer samples.
pub open spec fn is_integer(f: Format) -> bool {
    0 < wire_bits(f)
}

/// Whether a format holds signed integer samples.
pub open spec fn is_signed(f: Format) -> bool {
    match f {
        Format::S8 | Format::S16LE | Format::S16BE | Format::S24LE | Format::S24BE
        | Format::S32LE | Format::S32BE => true,
        _ => false,
    }
}

/// Significant bits of an integer format; 0 for the others.
pub open spec fn wire_bits(f: Format) -> int {
    match f {
        Format::S8 | Format::U8 => 8,
        Format::S16LE | Format::S16BE | Format::U16LE | Format::U16BE => 16,
        Format::S24LE | Format::S24BE | Format::U24LE | Format::U24BE => 24,
        Format::S32LE | Format::S32BE | Format::U32LE | Format::U32BE => 32,
        _ => 0,
    }
}

/// Bytes that an integer format writes for one sample: three for 24 bits.
pub open spec fn wire_size(f: Format) -> int {
    wire_bits(f) / 8
}

/// The bytes that an integer format stores for a sample of the given level
/// (offset binary at the format's width).
pub open spec fn encode_level(f: Format, level: int) -> Seq<u8> {
    let code = if is_signed(f) {
        twos_code(level - weight(wire_bits(f)) / 2, wire_bits(f))
    } else {
        level
    };
    if is_big_endian(f) {
        be_bytes(code, wire_size(f))
    } else {
        le_bytes(code, wire_size(f))
    }
}

/// The level of the sample that an integer format stores as `s`.
pub open spec fn decode_level(f: Format, s: Seq<u8>) -> int {
    let code = if is_big_endian(f) {
        be_value(s)
    } else {
        le_value(s)
    };
    let half = weight(wire_bits(f)) / 2;
    if !is_signed(f) {
        code
    } else if code >= half {
        code - half
    } else {
        code + half
    }
}

/// What an integer format stores for a sample reads back as that sample: the
/// byte order is applied and undone exactly at the byte boundary.
pub proof fn lemma_wire_round_trip(f: Format, level: int)
    requires
        is_integer(f),
        0 <= level < weight(wire_bits(f)),
    ensures
        encode_level(f, level).len() == wire_size(f),
        decode_level(f, encode_level(f, level)) == level,
{
    let bits = wire_bits(f);
    let code = if is_signed(f) {
        twos_code(level - weight(bits) / 2, bits)
    } else {
        level
    };
    assert(0 <= code < weight(bits));
    lemma_bytes_round_trip(code, wire_size(f));
}

/// Returns the endianness of a sample format. `Format::Invalid`, `Format::S8`
/// and `Format::U8` return `Endian::Little`.
pub fn endianness(f: Format) -> (r: Endian)
    ensures
        r == (if is_big_endian(f) { Endian::Big } else { Endian::Little }),
{
    match f {
        Format::Invalid | Format::U8 | Format::S8 | Format::U16LE | Format::S16LE
        | Format::U24LE | Format::S24LE | Format::U32LE | Format::S32LE | Format::Float32LE
        | Format::Float64LE => Endian::Little,
        Format::U16BE | Format::S16BE | Format::U24BE | Format::S24BE | Format::U32BE
        | Format::S32BE | Format::Float32BE | Format::Float64BE => Endian::Big,
    }
}

impl Format {
    /// Whether this is one of the valid formats.
    pub open spec fn is_valid(self) -> bool {
        self != Format::Invalid
    }

    /// Returns the number of bytes used per sample: the size of the storage,
    /// not the number of bits used, so `S24LE` returns 4.
    pub fn bytes_per_sample(&self) -> (r: usize)
        requires
            self.is_valid(),
        ensures
            r == bytes_per_sample_spec(*self),
            1 <= r <= 8,
    {
        match self {
            Format::S8 | Format::U8 => 1,
            Format::S16LE | Format::S16BE | Format::U16LE | Format::U16BE => 2,
            Format::Float64LE | Format::Float64BE => 8,
            _ => 4,
        }
    }

    /// Returns the number of bytes per frame: the bytes of one sample times the
    /// number of channels.
    pub fn bytes_per_frame(&self, channel_count: usize) -> (r: usize)
        requires
            self.is_valid(),
            bytes_per_sample_spec(*self) * channel_count <= usize::MAX,
        ensures
            r == bytes_per_sample_spec(*self) * channel_count,
    {
        self.bytes_per_sample() * channel_count
    }

    /// Returns the number of bytes per second: the bytes per frame times the
    /// number of frames per second (the sample rate).
    pub fn bytes_per_second(&self, channel_count: usize, sample_rate: usize) -> (r: usize)
        requires
            self.is_valid(),
            bytes_per_sample_spec(*self) * channel_count <= usize::MAX,
            bytes_per_sample_spec(*self) * channel_count * sample_rate <= usize::MAX,
        ensures
            r == bytes_per_sample_spec(*self) * channel_count * sample_rate,
    {
        let b = self.bytes_per_sample();
        b * channel_count * sample_rate
    }
}

/// The format that a C format stands for.
pub open spec fn format_of_raw(r: raw::SoundIoFormat) -> Format {
    match r {
        raw::SoundIoFormat::SoundIoFormatInvalid => Format::Invalid,
        raw::SoundIoFormat::SoundIoFormatS8 => Format::S8,
        raw::SoundIoFormat::SoundIoFormatU8 => Format::U8,
        raw::SoundIoFormat::SoundIoFormatS16LE => Format::S16LE,
        raw::SoundIoFormat::SoundIoFormatS16BE => Format::S16BE,
        raw::SoundIoFormat::SoundIoFormatU16LE => Format::U16LE,
        raw::SoundIoFormat::SoundIoFormatU16BE => Format::U16BE,
        raw::SoundIoFormat::SoundIoFormatS24LE => Format::S24LE,
        raw::SoundIoFormat::SoundIoFormatS24BE => Format::S24BE,
        raw::SoundIoFormat::SoundIoFormatU24LE => Format::U24LE,
        raw::SoundIoFormat::SoundIoFormatU24BE => Format::U24BE,
        raw::SoundIoFormat::SoundIoFormatS32LE => Format::S32LE,
        raw::SoundIoFormat::SoundIoFormatS32BE => Format::S32BE,
        raw::SoundIoFormat::SoundIoFormatU32LE => Format::U32LE,
        raw::SoundIoFormat::SoundIoFormatU32BE => Format::U32BE,
        raw::SoundIoFormat::SoundIoFormatFloat32LE => Format::Float32LE,
        raw::SoundIoFormat::SoundIoFormatFloat32BE => Format::Float32BE,
        raw::SoundIoFormat::SoundIoFormatFloat64LE => Format::Float64LE,
        raw::SoundIoFormat::SoundIoFormatFloat64BE => Format::Float64BE,
    }
}

/// The C format of a format.
pub open spec fn raw_of_format(v: Format) -> raw::SoundIoFormat {
    match v {
        Format::Invalid => raw::SoundIoFormat::SoundIoFormatInvalid,
        Format::S8 => raw::SoundIoFormat::SoundIoFormatS8,
        Format::U8 => raw::SoundIoFormat::SoundIoFormatU8,
        Format::S16LE => raw::SoundIoFormat::SoundIoFormatS16LE,
        Format::S16BE => raw::SoundIoFormat::SoundIoFormatS16BE,
        Format::U16LE => raw::SoundIoFormat::SoundIoFormatU16LE,
        Format::U16BE => raw::SoundIoFormat::SoundIoFormatU16BE,
        Format::S24LE => raw::SoundIoFormat::SoundIoFormatS24LE,
        Format::S24BE => raw::SoundIoFormat::SoundIoFormatS24BE,
        Format::U24LE => raw::SoundIoFormat::SoundIoFormatU24LE,
        Format::U24BE => raw::SoundIoFormat::SoundIoFormatU24BE,
        Format::S32LE => raw::SoundIoFormat::SoundIoFormatS32LE,
        Format::S32BE => raw::SoundIoFormat::SoundIoFormatS32BE,
        Format::U32LE => raw::SoundIoFormat::SoundIoFormatU32LE,
        Format::U32BE => raw::SoundIoFormat::SoundIoFormatU32BE,
        Format::Float32LE => raw::SoundIoFormat::SoundIoFormatFloat32LE,
        Format::Float32BE => raw::SoundIoFormat::SoundIoFormatFloat32BE,
        Format::Float64LE => raw::SoundIoFormat::SoundIoFormatFloat64LE,
        Format::Float64BE => raw::SoundIoFormat::SoundIoFormatFloat64BE,
    }
}

impl From<raw::SoundIoFormat> for Format {
    fn from(r: raw::SoundIoFormat) -> Format {
        match r {
            raw::SoundIoFormat::SoundIoFormatInvalid => Format::Invalid,
            raw::SoundIoFormat::SoundIoFormatS8 => Format::S8,
            raw::SoundIoFormat::SoundIoFormatU8 => Format::U8,
            raw::SoundIoFormat::SoundIoFormatS16LE => Format::S16LE,
            raw::SoundIoFormat::SoundIoFormatS16BE => Format::S16BE,
            raw::SoundIoFormat::SoundIoFormatU16LE => Format::U16LE,
            raw::SoundIoFormat::SoundIoFormatU16BE => Format::U16BE,
            raw::SoundIoFormat::SoundIoFormatS24LE => Format::S24LE,
            raw::SoundIoFormat::SoundIoFormatS24BE => Format::S24BE,
            raw::SoundIoFormat::SoundIoFormatU24LE => Format::U24LE,
            raw::SoundIoFormat::SoundIoFormatU24BE => Format::U24BE,
            raw::SoundIoFormat::SoundIoFormatS32LE => Format::S32LE,
            raw::SoundIoFormat::SoundIoFormatS32BE => Format::S32BE,
            raw::SoundIoFormat::SoundIoFormatU32LE => Format::U32LE,
            raw::SoundIoFormat::SoundIoFormatU32BE => Format::U32BE,
            raw::SoundIoFormat::SoundIoFormatFloat32LE => Format::Float32LE,
            raw::SoundIoFormat::SoundIoFormatFloat32BE => Format::Float32BE,
            raw::SoundIoFormat::SoundIoFormatFloat64LE => Format::Float64LE,
            raw::SoundIoFormat::SoundIoFormatFloat64BE => Format::Float64BE,
        }
    }
}

impl vstd::std_specs::convert::FromSpecImpl<raw::SoundIoFormat> for Format {
    open spec fn obeys_from_spec() -> bool {
        true
    }

    open spec fn from_spec(r: raw::SoundIoFormat) -> Format {
        format_of_raw(r)
    }
}

impl From<Format> for raw::SoundIoFormat {
    fn from(v: Format) -> raw::SoundIoFormat {
        match v {
            Format::Invalid => raw::SoundIoFormat::SoundIoFormatInvalid,
            Format::S8 => raw::SoundIoFormat::SoundIoFormatS8,
            Format::U8 => raw::SoundIoFormat::SoundIoFormatU8,
            Format::S16LE => raw::SoundIoFormat::SoundIoFormatS16LE,
            Format::S16BE => raw::SoundIoFormat::SoundIoFormatS16BE,
            Format::U16LE => raw::SoundIoFormat::SoundIoFormatU16LE,
            Format::U16BE => raw::SoundIoFormat::SoundIoFormatU16BE,
            Format::S24LE => raw::SoundIoFormat::SoundIoFormatS24LE,
            Format::S24BE => raw::SoundIoFormat::SoundIoFormatS24BE,
            Format::U24LE => raw::SoundIoFormat::SoundIoFormatU24LE,
            Format::U24BE => raw::SoundIoFormat::SoundIoFormatU24BE,
            Format::S32LE => raw::SoundIoFormat::SoundIoFormatS32LE,
            Format::S32BE => raw::SoundIoFormat::SoundIoFormatS32BE,
            Format::U32LE => raw::SoundIoFormat::SoundIoFormatU32LE,
            Format::U32BE => raw::SoundIoFormat::SoundIoFormatU32BE,
            Format::Float32LE => raw::SoundIoFormat::SoundIoFormatFloat32LE,
            Format::Float32BE => raw::SoundIoFormat::SoundIoFormatFloat32BE,
            Format::Float64LE => raw::SoundIoFormat::SoundIoFormatFloat64LE,
            Format::Float64BE => raw::SoundIoFormat::SoundIoFormatFloat64BE,
        }
    }
}

impl vstd::std_specs::convert::FromSpecImpl<Format> for raw::SoundIoFormat {
    open spec fn obeys_from_spec() -> bool {
        true
    }

    open spec fn from_spec(v: Format) -> raw::SoundIoFormat {
        raw_of_format(v)
    }
}

/// Converting to the C value and back gives the value back, and every C value
/// is reached: the two enumerations correspond one to one.
pub proof fn lemma_format_raw_bijective(v: Format, r: raw::SoundIoFormat)
    ensures
        format_of_raw(raw_of_format(v)) == v,
        raw_of_format(format_of_raw(r)) == r,
{
}

} // verus!
