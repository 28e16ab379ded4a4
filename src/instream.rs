//! The read side of the buffer access protocol.
//!
//! A read callback gets an `InStreamReader` seeded with the frame-count window
//! of this invocation and the interleaved frames that the transport has
//! captured. It repeats acquire (`begin_read`), read (`sample`) and release
//! (`end_read`), each section taking the next frames in order.
use vstd::prelude::*;

use crate::error::Error;
use crate::format::{bytes_per_sample_spec, decode_level, is_integer, wire_bits, wire_size, Format};
use crate::outstream::{lemma_sample_in_section, make_areas, sample_address, section_areas, ChannelArea};
use crate::sample::{i24, rescale, u24, Sample};

verus! {

/// The abstract state of an `InStreamReader`.
pub struct ReaderState {
    /// The stream's wire format.
    pub format: Format,
    pub channel_count: nat,
    /// The window of frame counts that `begin_read` accepts.
    pub frame_count_min: nat,
    pub frame_count_max: nat,
    /// The interleaved frames that the transport captured for this invocation.
    pub captured: Seq<u8>,
    /// Frames released so far; the next section starts here.
    pub position: nat,
    /// A section is acquired.
    pub started: bool,
    /// The frames granted to the acquired section.
    pub frame_count: nat,
    /// The channel areas of the acquired section, relative to its start.
    pub areas: Seq<ChannelArea>,
}

impl ReaderState {
    pub open spec fn bytes_per_sample(self) -> int {
        bytes_per_sample_spec(self.format)
    }

    pub open spec fn bytes_per_frame(self) -> int {
        self.bytes_per_sample() * self.channel_count
    }

    /// The number of captured frames.
    pub open spec fn captured_frames(self) -> int {
        self.captured.len() as int / self.bytes_per_frame()
    }

    /// The byte at which the acquired section starts.
    pub open spec fn section_start(self) -> int {
        self.position * self.bytes_per_frame()
    }

    /// The state is consistent: the captured bytes are whole frames, and the
    /// acquired section lies within them.
    pub open spec fn wf(self) -> bool {
        &&& self.format.is_valid()
        &&& 1 <= self.channel_count
        &&& self.frame_count_min <= self.frame_count_max
        &&& self.bytes_per_frame() <= usize::MAX
        &&& self.captured.len() as int % self.bytes_per_frame() == 0
        &&& self.position <= self.captured_frames()
        &&& if self.started {
            &&& self.frame_count <= self.frame_count_max
            &&& self.position + self.frame_count <= self.captured_frames()
            &&& self.areas == section_areas(self.frame_count, self.channel_count, self.bytes_per_sample())
        } else {
            &&& self.frame_count == 0
            &&& self.areas.len() == 0
        }
    }
}

/// The cursor that a read callback uses to read from the stream.
pub struct InStreamReader {
    format: Format,
    channel_count: usize,
    frame_count_min: usize,
    frame_count_max: usize,
    captured: Vec<u8>,
    position: usize,
    read_started: bool,
    frame_count: usize,
    channel_areas: Vec<ChannelArea>,
}

impl View for InStreamReader {
    type V = ReaderState;

    closed spec fn view(&self) -> ReaderState {
        ReaderState {
            format: self.format,
            channel_count: self.channel_count as nat,
            frame_count_min: self.frame_count_min as nat,
            frame_count_max: self.frame_count_max as nat,
            captured: self.captured@,
            position: self.position as nat,
            started: self.read_started,
            frame_count: self.frame_count as nat,
            areas: self.channel_areas@,
        }
    }
}

impl InStreamReader {
    /// A reader for one invocation of the read callback: samples of `format`
    /// for `channel_count` channels, a `begin_read` window of
    /// `[frame_count_min, frame_count_max]`, and the interleaved frames that
    /// the transport captured.
    pub fn new(
        format: Format,
        channel_count: usize,
        frame_count_min: usize,
        frame_count_max: usize,
        captured: Vec<u8>,
    ) -> (r: InStreamReader)
        requires
            format.is_valid(),
            1 <= channel_count,
            frame_count_min <= frame_count_max,
            bytes_per_sample_spec(format) * channel_count <= usize::MAX,
            captured@.len() as int % (bytes_per_sample_spec(format) * channel_count) == 0,
        ensures
            r@.wf(),
            r@ == (ReaderState {
                format,
                channel_count: channel_count as nat,
                frame_count_min: frame_count_min as nat,
                frame_count_max: frame_count_max as nat,
                captured: captured@,
                position: 0,
                started: false,
                frame_count: 0,
                areas: Seq::empty(),
            }),
    {
        let r = InStreamReader {
            format,
            channel_count,
            frame_count_min,
            frame_count_max,
            captured,
            position: 0,
            read_started: false,
            frame_count: 0,
            channel_areas: Vec::new(),
        };
        assert(r.channel_areas@ =~= Seq::empty());
        r
    }

    /// Acquires a section of `frame_count` frames to read. `frame_count` must
    /// lie in `[frame_count_min, frame_count_max]`.
    ///
    /// Returns the number of frames granted: `frame_count`, or fewer when fewer
    /// captured frames remain. With 0 frames granted the section has no channel
    /// areas; that is no error. While a section is acquired this returns
    /// `Error::Invalid` and changes nothing: release it first.
    pub fn begin_read(&mut self, frame_count: usize) -> (r: Result<usize, Error>)
        requires
            old(self)@.wf(),
            old(self)@.frame_count_min <= frame_count <= old(self)@.frame_count_max,
        ensures
            final(self)@.wf(),
            old(self)@.started ==> r == Err::<usize, Error>(Error::Invalid) && final(self)@ == old(self)@,
            !old(self)@.started ==> {
                let left = old(self)@.captured_frames() - old(self)@.position;
                let n = if frame_count <= left {
                    frame_count as nat
                } else {
                    left as nat
                };
                &&& r == Ok::<usize, Error>(n as usize)
                &&& final(self)@ == (ReaderState {
                    started: true,
                    frame_count: n,
                    areas: section_areas(n, old(self)@.channel_count, old(self)@.bytes_per_sample()),
                    ..old(self)@
                })
            },
    {
        if self.read_started {
            return Err(Error::Invalid);
        }
        let bps = self.format.bytes_per_sample();
        let bpf = bps * self.channel_count;
        let left = self.captured.len() / bpf - self.position;
        let n = if frame_count <= left {
            frame_count
        } else {
            left
        };
        self.channel_areas = make_areas(n, self.channel_count, bps);
        self.frame_count = n;
        self.read_started = true;
        Ok(n)
    }

    /// Where the sample of `channel` in `frame` of the acquired section starts
    /// in the captured bytes.
    fn address(&self, channel: usize, frame: usize) -> (at: usize)
        requires
            self@.wf(),
            self@.started,
            channel < self@.channel_count,
            frame < self@.frame_count,
        ensures
            at == self@.section_start() + sample_address(self@.areas, channel as int, frame as int),
            at + self@.bytes_per_sample() <= self@.captured.len(),
    {
        let ghost bps = self@.bytes_per_sample();
        let ghost bpf = self@.bytes_per_frame();
        let len = self.captured.len();
        proof {
            lemma_sample_in_section(
                channel as int,
                self.channel_count as int,
                frame as int,
                self.frame_count as int,
                bps,
            );
            vstd::arithmetic::div_mod::lemma_fundamental_div_mod(len as int, bpf);
            vstd::arithmetic::mul::lemma_mul_inequality(
                self.position + self.frame_count,
                self@.captured_frames(),
                bpf,
            );
            vstd::arithmetic::mul::lemma_mul_is_distributive_add_other_way(
                bpf,
                self.position as int,
                self.frame_count as int,
            );
            vstd::arithmetic::mul::lemma_mul_is_commutative(bpf, self@.captured_frames());
        }
        let area = self.channel_areas[channel];
        assert(area.offset == channel * bps);
        assert(area.step == self.channel_count * bps);
        let bpf_exec = self.format.bytes_per_sample() * self.channel_count;
        self.position * bpf_exec + (area.offset + frame * area.step)
    }

    /// Reads the sample of `channel` in `frame` of the acquired section,
    /// decoded from the stream's wire format and converted to `T`.
    pub fn sample<T: Sample>(&self, channel: usize, frame: usize) -> (r: T)
        requires
            self@.wf(),
            self@.started,
            channel < self@.channel_count,
            frame < self@.frame_count,
            is_integer(self@.format),
        ensures
            r.wf(),
            ({
                let at = self@.section_start() + sample_address(self@.areas, channel as int, frame as int);
                r.level() == rescale(
                    decode_level(self@.format, self@.captured.subrange(at, at + wire_size(self@.format))),
                    wire_bits(self@.format),
                    T::bits(),
                )
            }),
    {
        let at = self.address(channel, frame);
        let bytes = self.captured.as_slice();
        match self.format {
            Format::S8 => T::from_i8(<i8 as Sample>::from_raw_le(bytes, at)),
            Format::U8 => T::from_u8(<u8 as Sample>::from_raw_le(bytes, at)),
            Format::S16LE => T::from_i16(<i16 as Sample>::from_raw_le(bytes, at)),
            Format::S16BE => T::from_i16(<i16 as Sample>::from_raw_be(bytes, at)),
            Format::U16LE => T::from_u16(<u16 as Sample>::from_raw_le(bytes, at)),
            Format::U16BE => T::from_u16(<u16 as Sample>::from_raw_be(bytes, at)),
            Format::S24LE => T::from_i24(<i24 as Sample>::from_raw_le(bytes, at)),
            Format::S24BE => T::from_i24(<i24 as Sample>::from_raw_be(bytes, at)),
            Format::U24LE => T::from_u24(<u24 as Sample>::from_raw_le(bytes, at)),
            Format::U24BE => T::from_u24(<u24 as Sample>::from_raw_be(bytes, at)),
            Format::S32LE => T::from_i32(<i32 as Sample>::from_raw_le(bytes, at)),
            Format::S32BE => T::from_i32(<i32 as Sample>::from_raw_be(bytes, at)),
            Format::U32LE => T::from_u32(<u32 as Sample>::from_raw_le(bytes, at)),
            Format::U32BE => T::from_u32(<u32 as Sample>::from_raw_be(bytes, at)),
            _ => T::from_u8(0),
        }
    }

    /// The stored bytes of the sample of `channel` in `frame` of the acquired
    /// section, as they are. This serves the formats that `sample` does not
    /// convert from, such as floating point.
    pub fn sample_bytes(&self, channel: usize, frame: usize) -> (r: Vec<u8>)
        requires
            self@.wf(),
            self@.started,
            channel < self@.channel_count,
            frame < self@.frame_count,
        ensures
            ({
                let at = self@.section_start() + sample_address(self@.areas, channel as int, frame as int);
                r@ == self@.captured.subrange(at, at + self@.bytes_per_sample())
            }),
    {
        let at = self.address(channel, frame);
        let n = self.format.bytes_per_sample();
        let len = self.captured.len();
        let mut r: Vec<u8> = Vec::new();
        let mut i: usize = 0;
        while i < n
            invariant
                i <= n,
                n == self@.bytes_per_sample(),
                at + n <= self@.captured.len(),
                len == self@.captured.len(),
                r@ == self@.captured.subrange(at as int, at + i),
            decreases n - i,
        {
            r.push(self.captured[at + i]);
            i = i + 1;
            assert(r@ =~= self@.captured.subrange(at as int, at + i));
        }
        r
    }

    /// Releases the acquired section; the next one starts after it. Without an
    /// acquired section this does nothing.
    pub fn end_read(&mut self)
        requires
            old(self)@.wf(),
        ensures
            final(self)@.wf(),
            !old(self)@.started ==> final(self)@ == old(self)@,
            old(self)@.started ==> final(self)@ == (ReaderState {
                started: false,
                frame_count: 0,
                areas: Seq::empty(),
                position: old(self)@.position + old(self)@.frame_count,
                ..old(self)@
            }),
    {
        if self.read_started {
            let len = self.captured.len();
            proof {
                let bpf = self@.bytes_per_frame();
                assert(1 <= bpf) by (nonlinear_arith)
                    requires
                        bpf == bytes_per_sample_spec(self.format) * self.channel_count,
                        1 <= bytes_per_sample_spec(self.format),
                        1 <= self.channel_count,
                ;
                vstd::arithmetic::div_mod::lemma_div_is_ordered_by_denominator(len as int, 1, bpf);
            }
            self.position = self.position + self.frame_count;
            self.frame_count = 0;
            self.channel_areas = Vec::new();
            self.read_started = false;
            assert(self.channel_areas@ =~= Seq::empty());
        }
    }

    /// The least frame count that `begin_read` accepts.
    pub fn frame_count_min(&self) -> (r: usize)
        ensures
            r == self@.frame_count_min,
    {
        self.frame_count_min
    }

    /// The greatest frame count that `begin_read` accepts.
    pub fn frame_count_max(&self) -> (r: usize)
        ensures
            r == self@.frame_count_max,
    {
        self.frame_count_max
    }

    /// The number of frames granted to the acquired section.
    pub fn frame_count(&self) -> (r: usize)
        requires
            self@.started,
        ensures
            r == self@.frame_count,
    {
        self.frame_count
    }

    /// The number of channels of the stream.
    pub fn channel_count(&self) -> (r: usize)
        ensures
            r == self@.channel_count,
    {
        self.channel_count
    }

    /// The stream's wire format.
    pub fn format(&self) -> (r: Format)
        ensures
            r == self@.format,
    {
        self.format
    }

    /// The channel areas of the acquired section, relative to its start.
    pub fn channel_areas(&self) -> (r: &[ChannelArea])
        ensures
            r@ == self@.areas,
    {
        self.channel_areas.as_slice()
    }
}

} // verus!
