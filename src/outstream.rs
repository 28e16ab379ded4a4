//! The write side of the buffer access protocol.
//!
//! A write callback gets an `OutStreamWriter` seeded with the frame-count
//! window of this invocation and the number of frames that the transport can
//! take. It repeats acquire (`begin_write`), fill (`set_sample`) and commit
//! (`end_write`) until it has supplied enough frames. Each section is laid out
//! interleaved: channel `c` of frame `f` sits at byte
//! `c * bytes_per_sample + f * bytes_per_frame`.
use vstd::prelude::*;

use crate::error::Error;
use crate::format::{bytes_per_sample_spec, encode_level, is_integer, wire_bits, Format};
use crate::sample::{i24, rescale, splice, u24, Sample};

verus! {

/// Where the samples of one channel lie in an acquired section: the byte
/// offset of the channel's sample in frame 0, and the distance in bytes from
/// one frame to the next.
#[derive(Copy, Clone, Debug, PartialEq, Eq, Structural)]
pub struct ChannelArea {
    pub offset: usize,
    pub step: usize,
}

/// The areas of an interleaved section of `channels` channels whose samples
/// take `bps` bytes each.
pub open spec fn interleaved_areas(channels: nat, bps: int) -> Seq<ChannelArea> {
    Seq::new(
        channels,
        |c: int| ChannelArea { offset: (c * bps) as usize, step: (channels * bps) as usize },
    )
}

/// The areas that a section of `frames` frames has: none when it is empty.
pub open spec fn section_areas(frames: nat, channels: nat, bps: int) -> Seq<ChannelArea> {
    if frames == 0 {
        Seq::empty()
    } else {
        interleaved_areas(channels, bps)
    }
}

/// The byte at which the sample of a channel and frame starts.
pub open spec fn sample_address(areas: Seq<ChannelArea>, channel: int, frame: int) -> int {
    areas[channel].offset + frame * areas[channel].step
}

/// Builds the areas of a section of `frames` frames.
pub(crate) fn make_areas(frames: usize, channels: usize, bps: usize) -> (r: Vec<ChannelArea>)
    requires
        channels * bps <= usize::MAX,
    ensures
        r@ == section_areas(frames as nat, channels as nat, bps as int),
{
    let mut r: Vec<ChannelArea> = Vec::new();
    if frames == 0 {
        return r;
    }
    let step = channels * bps;
    let mut c: usize = 0;
    while c < channels
        invariant
            c <= channels,
            step == channels * bps,
            channels * bps <= usize::MAX,
            r@ == interleaved_areas(channels as nat, bps as int).subrange(0, c as int),
        decreases channels - c,
    {
        proof {
            vstd::arithmetic::mul::lemma_mul_inequality(c as int, channels as int, bps as int);
        }
        r.push(ChannelArea { offset: c * bps, step });
        c = c + 1;
        assert(r@ =~= interleaved_areas(channels as nat, bps as int).subrange(0, c as int));
    }
    assert(r@ =~= interleaved_areas(channels as nat, bps as int));
    r
}

/// A sample of a section lies inside it, with room for all of its storage.
pub(crate) proof fn lemma_sample_in_section(c: int, channels: int, f: int, frames: int, bps: int)
    requires
        0 <= c < channels,
        0 <= f < frames,
        0 < bps,
    ensures
        0 <= c * bps,
        0 <= f * (channels * bps),
        c * bps + f * (channels * bps) + bps <= frames * (channels * bps),
{
    assert(0 <= c * bps) by (nonlinear_arith)
        requires
            0 <= c,
            0 < bps,
    ;
    assert(0 <= f * (channels * bps)) by (nonlinear_arith)
        requires
            0 <= f,
            0 <= c < channels,
            0 < bps,
    ;
    assert(c * bps + bps <= channels * bps) by (nonlinear_arith)
        requires
            c < channels,
            0 < bps,
    ;
    assert(f * (channels * bps) + channels * bps <= frames * (channels * bps)) by (nonlinear_arith)
        requires
            f < frames,
            0 <= c < channels,
            0 < bps,
    ;
}

/// The abstract state of an `OutStreamWriter`.
pub struct WriterState {
    /// The stream's wire format.
    pub format: Format,
    pub channel_count: nat,
    /// The window of frame counts that `begin_write` accepts.
    pub frame_count_min: nat,
    pub frame_count_max: nat,
    /// Frames that the transport can still take in this invocation.
    pub free_frames: nat,
    /// A section is acquired.
    pub started: bool,
    /// The frames granted to the acquired section.
    pub frame_count: nat,
    /// The channel areas of the acquired section.
    pub areas: Seq<ChannelArea>,
    /// The memory of the acquired section.
    pub section: Seq<u8>,
    /// The bytes of the sections committed so far, in order.
    pub committed: Seq<u8>,
    pub committed_frames: nat,
}

impl WriterState {
    pub open spec fn bytes_per_sample(self) -> int {
        bytes_per_sample_spec(self.format)
    }

    pub open spec fn bytes_per_frame(self) -> int {
        self.bytes_per_sample() * self.channel_count
    }

    /// The state is consistent: the acquired section has one area per channel
    /// (none when it is empty) and room for all of its frames.
    pub open spec fn wf(self) -> bool {
        &&& self.format.is_valid()
        &&& 1 <= self.channel_count
        &&& self.frame_count_min <= self.frame_count_max
        &&& self.bytes_per_frame() <= usize::MAX
        &&& self.frame_count_max * self.bytes_per_frame() <= usize::MAX
        &&& (self.committed_frames + self.free_frames) * self.bytes_per_frame() <= usize::MAX
        &&& self.committed.len() == self.committed_frames * self.bytes_per_frame()
        &&& if self.started {
            &&& self.frame_count <= self.frame_count_max
            &&& self.frame_count <= self.free_frames
            &&& self.section.len() == self.frame_count * self.bytes_per_frame()
            &&& self.areas == section_areas(self.frame_count, self.channel_count, self.bytes_per_sample())
        } else {
            &&& self.frame_count == 0
            &&& self.section.len() == 0
            &&& self.areas.len() == 0
        }
    }
}

/// The cursor that a write callback uses to write to the stream.
pub struct OutStreamWriter {
    format: Format,
    channel_count: usize,
    frame_count_min: usize,
    frame_count_max: usize,
    free_frames: usize,
    write_started: bool,
    frame_count: usize,
    channel_areas: Vec<ChannelArea>,
    section: Vec<u8>,
    committed: Vec<u8>,
    committed_frames: usize,
}

impl View for OutStreamWriter {
    type V = WriterState;

    closed spec fn view(&self) -> WriterState {
        WriterState {
            format: self.format,
            channel_count: self.channel_count as nat,
            frame_count_min: self.frame_count_min as nat,
            frame_count_max: self.frame_count_max as nat,
            free_frames: self.free_frames as nat,
            started: self.write_started,
            frame_count: self.frame_count as nat,
            areas: self.channel_areas@,
            section: self.section@,
            committed: self.committed@,
            committed_frames: self.committed_frames as nat,
        }
    }
}

impl OutStreamWriter {
    /// A writer for one invocation of the write callback: samples of `format`
    /// for `channel_count` channels, a `begin_write` window of
    /// `[frame_count_min, frame_count_max]`, and room in the transport for
    /// `free_frames` frames.
    pub fn new(
        format: Format,
        channel_count: usize,
        frame_count_min: usize,
        frame_count_max: usize,
        free_frames: usize,
    ) -> (r: OutStreamWriter)
        requires
            format.is_valid(),
            1 <= channel_count,
            frame_count_min <= frame_count_max,
            bytes_per_sample_spec(format) * channel_count <= usize::MAX,
            frame_count_max * (bytes_per_sample_spec(format) * channel_count) <= usize::MAX,
            free_frames * (bytes_per_sample_spec(format) * channel_count) <= usize::MAX,
        ensures
            r@.wf(),
            r@ == (WriterState {
                format,
                channel_count: channel_count as nat,
                frame_count_min: frame_count_min as nat,
                frame_count_max: frame_count_max as nat,
                free_frames: free_frames as nat,
                started: false,
                frame_count: 0,
                areas: Seq::empty(),
                section: Seq::empty(),
                committed: Seq::empty(),
                committed_frames: 0,
            }),
    {
        let r = OutStreamWriter {
            format,
            channel_count,
            frame_count_min,
            frame_count_max,
            free_frames,
            write_started: false,
            frame_count: 0,
            channel_areas: Vec::new(),
            section: Vec::new(),
            committed: Vec::new(),
            committed_frames: 0,
        };
        assert(r.channel_areas@ =~= Seq::empty());
        r
    }

    /// Acquires a section of `frame_count` frames to write. `frame_count` must
    /// lie in `[frame_count_min, frame_count_max]`.
    ///
    /// Returns the number of frames granted: `frame_count`, or fewer when the
    /// transport has less room. With 0 frames granted the section has no
    /// channel areas; that is no error. While a section is acquired this
    /// returns `Error::Invalid` and changes nothing: commit it first.
    pub fn begin_write(&mut self, frame_count: usize) -> (r: Result<usize, Error>)
        requires
            old(self)@.wf(),
            old(self)@.frame_count_min <= frame_count <= old(self)@.frame_count_max,
        ensures
            final(self)@.wf(),
            old(self)@.started ==> r == Err::<usize, Error>(Error::Invalid) && final(self)@ == old(self)@,
            !old(self)@.started ==> {
                let n = if frame_count <= old(self)@.free_frames {
                    frame_count as nat
                } else {
                    old(self)@.free_frames
                };
                &&& r == Ok::<usize, Error>(n as usize)
                &&& final(self)@ == (WriterState {
                    started: true,
                    frame_count: n,
                    areas: section_areas(n, old(self)@.channel_count, old(self)@.bytes_per_sample()),
                    section: Seq::new((n * old(self)@.bytes_per_frame()) as nat, |i: int| 0u8),
                    ..old(self)@
                })
            },
    {
        if self.write_started {
            return Err(Error::Invalid);
        }
        let n = if frame_count <= self.free_frames {
            frame_count
        } else {
            self.free_frames
        };
        let bps = self.format.bytes_per_sample();
        let bpf = bps * self.channel_count;
        proof {
            vstd::arithmetic::mul::lemma_mul_inequality(n as int, self.frame_count_max as int, bpf as int);
        }
        self.section = vec![0u8; n * bpf];
        self.channel_areas = make_areas(n, self.channel_count, bps);
        self.frame_count = n;
        self.write_started = true;
        assert(self.section@ =~= Seq::new((n * bpf) as nat, |i: int| 0u8));
        Ok(n)
    }

    /// Where the sample of `channel` in `frame` starts in the acquired section.
    fn address(&self, channel: usize, frame: usize) -> (at: usize)
        requires
            self@.wf(),
            self@.started,
            channel < self@.channel_count,
            frame < self@.frame_count,
        ensures
            at == sample_address(self@.areas, channel as int, frame as int),
            at + self@.bytes_per_sample() <= self@.section.len(),
            self@.section.len() <= usize::MAX,
    {
        let ghost bps = self@.bytes_per_sample();
        proof {
            vstd::arithmetic::mul::lemma_mul_inequality(
                self.frame_count as int,
                self.frame_count_max as int,
                self@.bytes_per_frame(),
            );
            lemma_sample_in_section(
                channel as int,
                self.channel_count as int,
                frame as int,
                self.frame_count as int,
                bps,
            );
        }
        let area = self.channel_areas[channel];
        assert(area.offset == channel * bps);
        assert(area.step == self.channel_count * bps);
        area.offset + frame * area.step
    }

    /// Writes `sample` to `channel` in `frame` of the acquired section,
    /// converted to the stream's wire format and encoded in its byte order.
    pub fn set_sample<T: Sample>(&mut self, channel: usize, frame: usize, sample: T)
        requires
            old(self)@.wf(),
            old(self)@.started,
            channel < old(self)@.channel_count,
            frame < old(self)@.frame_count,
            is_integer(old(self)@.format),
            sample.wf(),
        ensures
            final(self)@.wf(),
            final(self)@ == (WriterState {
                section: splice(
                    old(self)@.section,
                    sample_address(old(self)@.areas, channel as int, frame as int),
                    encode_level(
                        old(self)@.format,
                        rescale(sample.level(), T::bits(), wire_bits(old(self)@.format)),
                    ),
                ),
                ..old(self)@
            }),
    {
        let at = self.address(channel, frame);
        match self.format {
            Format::S8 => {
                let x = T::to_i8(sample);
                <i8 as Sample>::to_raw_le(x, &mut self.section, at);
            },
            Format::U8 => {
                let x = T::to_u8(sample);
                <u8 as Sample>::to_raw_le(x, &mut self.section, at);
            },
            Format::S16LE => {
                let x = T::to_i16(sample);
                <i16 as Sample>::to_raw_le(x, &mut self.section, at);
            },
            Format::S16BE => {
                let x = T::to_i16(sample);
                <i16 as Sample>::to_raw_be(x, &mut self.section, at);
            },
            Format::U16LE => {
                let x = T::to_u16(sample);
                <u16 as Sample>::to_raw_le(x, &mut self.section, at);
            },
            Format::U16BE => {
                let x = T::to_u16(sample);
                <u16 as Sample>::to_raw_be(x, &mut self.section, at);
            },
            Format::S24LE => {
                let x = T::to_i24(sample);
                <i24 as Sample>::to_raw_le(x, &mut self.section, at);
            },
            Format::S24BE => {
                let x = T::to_i24(sample);
                <i24 as Sample>::to_raw_be(x, &mut self.section, at);
            },
            Format::U24LE => {
                let x = T::to_u24(sample);
                <u24 as Sample>::to_raw_le(x, &mut self.section, at);
            },
            Format::U24BE => {
                let x = T::to_u24(sample);
                <u24 as Sample>::to_raw_be(x, &mut self.section, at);
            },
            Format::S32LE => {
                let x = T::to_i32(sample);
                <i32 as Sample>::to_raw_le(x, &mut self.section, at);
            },
            Format::S32BE => {
                let x = T::to_i32(sample);
                <i32 as Sample>::to_raw_be(x, &mut self.section, at);
            },
            Format::U32LE => {
                let x = T::to_u32(sample);
                <u32 as Sample>::to_raw_le(x, &mut self.section, at);
            },
            Format::U32BE => {
                let x = T::to_u32(sample);
                <u32 as Sample>::to_raw_be(x, &mut self.section, at);
            },
            _ => {},
        }
        assert(self.section@.len() == old(self).section@.len());
    }

    /// Writes the encoding of a sample, as given, to `channel` in `frame` of the
    /// acquired section. This serves the formats that `set_sample` does not
    /// convert to, such as floating point.
    pub fn set_sample_bytes(&mut self, channel: usize, frame: usize, bytes: &[u8])
        requires
            old(self)@.wf(),
            old(self)@.started,
            channel < old(self)@.channel_count,
            frame < old(self)@.frame_count,
            bytes@.len() <= old(self)@.bytes_per_sample(),
        ensures
            final(self)@.wf(),
            final(self)@ == (WriterState {
                section: splice(
                    old(self)@.section,
                    sample_address(old(self)@.areas, channel as int, frame as int),
                    bytes@,
                ),
                ..old(self)@
            }),
    {
        let at = self.address(channel, frame);
        let mut i: usize = 0;
        while i < bytes.len()
            invariant
                self@.wf(),
                self.format == old(self).format,
                self.channel_count == old(self).channel_count,
                self.frame_count_min == old(self).frame_count_min,
                self.frame_count_max == old(self).frame_count_max,
                self.free_frames == old(self).free_frames,
                self.write_started == old(self).write_started,
                self.frame_count == old(self).frame_count,
                self.channel_areas@ == old(self).channel_areas@,
                self.committed@ == old(self).committed@,
                self.committed_frames == old(self).committed_frames,
                i <= bytes@.len(),
                at + bytes@.len() <= self.section@.len(),
                self.section@.len() <= usize::MAX,
                self.section@ == splice(old(self).section@, at as int, bytes@.subrange(0, i as int)),
                self.section@.len() == old(self).section@.len(),
            decreases bytes@.len() - i,
        {
            self.section[at + i] = bytes[i];
            i = i + 1;
            assert(self.section@ =~= splice(old(self).section@, at as int, bytes@.subrange(0, i as int)));
        }
        assert(bytes@.subrange(0, i as int) =~= bytes@);
    }

    /// Commits the acquired section: its frames join those committed, and the
    /// transport has that much less room. Without an acquired section this
    /// does nothing.
    pub fn end_write(&mut self)
        requires
            old(self)@.wf(),
        ensures
            final(self)@.wf(),
            !old(self)@.started ==> final(self)@ == old(self)@,
            old(self)@.started ==> final(self)@ == (WriterState {
                started: false,
                frame_count: 0,
                areas: Seq::empty(),
                section: Seq::empty(),
                committed: old(self)@.committed + old(self)@.section,
                committed_frames: old(self)@.committed_frames + old(self)@.frame_count,
                free_frames: (old(self)@.free_frames - old(self)@.frame_count) as nat,
                ..old(self)@
            }),
    {
        if self.write_started {
            let ghost bpf = self@.bytes_per_frame();
            let ghost total = self.committed_frames + self.free_frames;
            proof {
                assert(1 <= bpf) by (nonlinear_arith)
                    requires
                        bpf == bytes_per_sample_spec(self.format) * self.channel_count,
                        1 <= bytes_per_sample_spec(self.format),
                        1 <= self.channel_count,
                ;
                assert(total <= total * bpf) by (nonlinear_arith)
                    requires
                        1 <= bpf,
                        0 <= total,
                ;
            }
            self.committed.append(&mut self.section);
            self.committed_frames = self.committed_frames + self.frame_count;
            self.free_frames = self.free_frames - self.frame_count;
            self.frame_count = 0;
            self.channel_areas = Vec::new();
            self.write_started = false;
            proof {
                vstd::arithmetic::mul::lemma_mul_is_distributive_add_other_way(
                    bpf,
                    old(self).committed_frames as int,
                    old(self).frame_count as int,
                );
            }
            assert(self.channel_areas@ =~= Seq::empty());
            assert(self.section@ =~= Seq::empty());
        }
    }

    /// Ends the invocation: commits the acquired section, if any, and returns
    /// every byte committed in this invocation.
    pub fn finish(self) -> (r: Vec<u8>)
        requires
            self@.wf(),
        ensures
            r@ == if self@.started {
                self@.committed + self@.section
            } else {
                self@.committed
            },
    {
        let mut w = self;
        w.end_write();
        w.committed
    }

    /// The least frame count that `begin_write` accepts.
    pub fn frame_count_min(&self) -> (r: usize)
        ensures
            r == self@.frame_count_min,
    {
        self.frame_count_min
    }

    /// The greatest frame count that `begin_write` accepts.
    pub fn frame_count_max(&self) -> (r: usize)
        ensures
            r == self@.frame_count_max,
    {
        self.frame_count_max
    }

    /// The number of frames granted to the acquired section.
    pub fn frame_count(&self) -> (r: usize)
        requires
            self@.started,
        ensures
            r == self@.frame_count,
    {
        self.frame_count
    }

    /// The number of channels of the stream.
    pub fn channel_count(&self) -> (r: usize)
        ensures
            r == self@.channel_count,
    {
        self.channel_count
    }

    /// The stream's wire format.
    pub fn format(&self) -> (r: Format)
        ensures
            r == self@.format,
    {
        self.format
    }

    /// The channel areas of the acquired section; empty when none is acquired
    /// or it has no frames.
    pub fn channel_areas(&self) -> (r: &[ChannelArea])
        ensures
            r@ == self@.areas,
    {
        self.channel_areas.as_slice()
    }

    /// The bytes of the acquired section.
    pub fn section(&self) -> (r: &[u8])
        ensures
            r@ == self@.section,
    {
        self.section.as_slice()
    }

    /// The bytes committed so far in this invocation.
    pub fn committed(&self) -> (r: &[u8])
        ensures
            r@ == self@.committed,
    {
        self.committed.as_slice()
    }

    /// Whether the frames committed so far reach the least frame count of this
    /// invocation; a callback that stops short risks an audible gap.
    pub fn satisfied(&self) -> (r: bool)
        ensures
            r == (self@.committed_frames >= self@.frame_count_min),
    {
        self.committed_frames >= self.frame_count_min
    }

    /// The number of frames committed so far in this invocation.
    pub fn committed_frames(&self) -> (r: usize)
        ensures
            r == self@.committed_frames,
    {
        self.committed_frames
    }
}

} // verus!
