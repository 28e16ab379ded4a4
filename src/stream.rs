//! Stream options and the lifecycle of a stream.
use vstd::prelude::*;

use crate::channels::ChannelId;
use crate::error::{error_of_code, Error};
use crate::format::Format;
use crate::layout::ChannelLayout;
use crate::native;

verus! {

/// The sample rate to ask for: exactly this rate, or the supported rate
/// nearest to it.
#[derive(Debug, Copy, Clone, PartialEq, Eq, Structural)]
pub enum SampleRate {
    Exact(i32),
    NearestTo(i32),
}

/// What to open a stream with. `Frame` is the type that the stream's callback
/// sees a frame as.
pub struct StreamOptions<Frame> {
    pub sample_rate: SampleRate,
    pub format: Format,
    pub desired_frames_per_buffer: Option<i32>,
    pub layout: ChannelLayout,
    pub phantom: core::marker::PhantomData<Frame>,
}

/// The frame count that a write callback asks for within the window
/// `[frame_count_min, frame_count_max]`: the desired count, raised to the
/// minimum and then lowered to the maximum. No desired count, or a negative
/// one, counts as 0.
pub open spec fn chosen_frame_count(desired: Option<i32>, frame_count_min: int, frame_count_max: int) -> int {
    let want: int = match desired {
        Some(d) => if d > 0 {
            d as int
        } else {
            0
        },
        None => 0,
    };
    let raised = if want < frame_count_min {
        frame_count_min
    } else {
        want
    };
    if raised > frame_count_max {
        frame_count_max
    } else {
        raised
    }
}

impl<Frame> StreamOptions<Frame> {
    /// Options with the given sample rate and format, the stereo layout and no
    /// desired buffer size.
    pub fn new(sample_rate: SampleRate, format: Format) -> (r: StreamOptions<Frame>)
        ensures
            r.sample_rate == sample_rate,
            r.format == format,
            r.desired_frames_per_buffer is None,
            r.layout.channels@ == seq![ChannelId::FrontLeft, ChannelId::FrontRight],
    {
        StreamOptions {
            sample_rate,
            format,
            layout: ChannelLayout::stereo(),
            desired_frames_per_buffer: None,
            phantom: core::marker::PhantomData,
        }
    }

    /// The frame count to request from a window of
    /// `[frame_count_min, frame_count_max]`.
    pub fn frame_count_for(&self, frame_count_min: usize, frame_count_max: usize) -> (r: usize)
        ensures
            r == chosen_frame_count(self.desired_frames_per_buffer, frame_count_min as int, frame_count_max as int),
    {
        let want: usize = match self.desired_frames_per_buffer {
            Some(d) => if d > 0 {
                d as usize
            } else {
                0
            },
            None => 0,
        };
        let raised = if want < frame_count_min {
            frame_count_min
        } else {
            want
        };
        if raised > frame_count_max {
            frame_count_max
        } else {
            raised
        }
    }
}

impl<Frame> Default for StreamOptions<Frame> {
    /// 44.1 kHz or the nearest rate, 32-bit float samples in host byte order,
    /// stereo.
    fn default() -> (r: StreamOptions<Frame>)
        ensures
            r.sample_rate == SampleRate::NearestTo(44100),
            r.format == native::Float32NE,
            r.desired_frames_per_buffer is None,
            r.layout.channels@ == seq![ChannelId::FrontLeft, ChannelId::FrontRight],
    {
        StreamOptions::new(SampleRate::NearestTo(44100), native::Float32NE)
    }
}

/// The states of a stream. A stream is opened once; a failed open leaves it
/// to be destroyed. Once started it can be paused and resumed until it is
/// destroyed.
#[derive(Debug, Copy, Clone, PartialEq, Eq, Structural)]
pub enum StreamState {
    Created,
    Open,
    Started,
    Paused,
    Destroyed,
}

impl StreamState {
    /// The state after the transport answered an open request with status
    /// `code`: `Open` on success; on failure the stream can only be
    /// destroyed, so the state is `Destroyed` and the error is returned.
    pub fn opened(self, code: i32) -> (r: (StreamState, Result<(), Error>))
        requires
            self == StreamState::Created,
        ensures
            code == 0 ==> r == (StreamState::Open, Ok::<(), Error>(())),
            code != 0 ==> r == (StreamState::Destroyed, Err::<(), Error>(error_of_code(code))),
    {
        if code == 0 {
            (StreamState::Open, Ok(()))
        } else {
            (StreamState::Destroyed, Err(Error::from(code)))
        }
    }

    /// The state after the transport answered a start request with status
    /// `code`: `Started` on success, unchanged on failure.
    pub fn started(self, code: i32) -> (r: (StreamState, Result<(), Error>))
        requires
            self == StreamState::Open,
        ensures
            code == 0 ==> r == (StreamState::Started, Ok::<(), Error>(())),
            code != 0 ==> r == (StreamState::Open, Err::<(), Error>(error_of_code(code))),
    {
        if code == 0 {
            (StreamState::Started, Ok(()))
        } else {
            (StreamState::Open, Err(Error::from(code)))
        }
    }

    /// The state after the transport answered a request to pause (`pause`) or
    /// resume (`!pause`) with status `code`. Pausing a paused stream, or
    /// resuming a running one, changes nothing.
    pub fn paused(self, pause: bool, code: i32) -> (r: (StreamState, Result<(), Error>))
        requires
            self == StreamState::Started || self == StreamState::Paused,
        ensures
            code == 0 ==> r == (
                if pause {
                    StreamState::Paused
                } else {
                    StreamState::Started
                },
                Ok::<(), Error>(()),
            ),
            code != 0 ==> r == (self, Err::<(), Error>(error_of_code(code))),
    {
        if code != 0 {
            (self, Err(Error::from(code)))
        } else if pause {
            (StreamState::Paused, Ok(()))
        } else {
            (StreamState::Started, Ok(()))
        }
    }
}

} // verus!
