use vstd::prelude::*;

use crate::channels::{channel_id_of_raw, raw_of_channel_id, ChannelId};
use crate::raw;

verus! {

/// A number of channels, and the position of each. The name is only for
/// display and plays no part in comparisons.
#[derive(Debug, Clone)]
pub struct ChannelLayout {
    /// The name of the layout.
    pub name: String,
    /// The channels, in order.
    pub channels: Vec<ChannelId>,
}

/// Whether some layout of `layouts` has the channels `channels`.
pub open spec fn has_channels(layouts: Seq<ChannelLayout>, channels: Seq<ChannelId>) -> bool {
    exists|k: int| 0 <= k < layouts.len() && #[trigger] layouts[k].channels@ == channels
}

/// Whether `i` is the first index of `preferred` whose channels some layout of
/// `available` has.
pub open spec fn is_first_match(preferred: Seq<ChannelLayout>, available: Seq<ChannelLayout>, i: int) -> bool {
    &&& 0 <= i < preferred.len()
    &&& has_channels(available, preferred[i].channels@)
    &&& forall|j: int| 0 <= j < i ==> !has_channels(available, #[trigger] preferred[j].channels@)
}

/// Whether channel-count order holds: no layout has more channels than a later one.
pub open spec fn sorted_by_channel_count(layouts: Seq<ChannelLayout>) -> bool {
    forall|i: int, j: int|
        0 <= i <= j < layouts.len() ==> #[trigger] layouts[i].channels@.len() <= #[trigger] layouts[j].channels@.len()
}

/// Relies on `<[T]>::sort_by_key`, documented as a stable sort by the key:
/// the result is a permutation of the input, ordered by channel count.
#[verifier::external_body]
fn sort_by_channel_count(layouts: &mut [ChannelLayout])
    ensures
        final(layouts)@.to_multiset() == old(layouts)@.to_multiset(),
        sorted_by_channel_count(final(layouts)@),
{
    layouts.sort_by_key(|l| l.channels.len());
}

/// Whether two channel lists are equal, element by element.
fn same_channels(a: &Vec<ChannelId>, b: &Vec<ChannelId>) -> (r: bool)
    ensures
        r == (a@ == b@),
{
    if a.len() != b.len() {
        return false;
    }
    let mut i: usize = 0;
    while i < a.len()
        invariant
            i <= a@.len(),
            a@.len() == b@.len(),
            forall|k: int| 0 <= k < i ==> a@[k] == b@[k],
        decreases a@.len() - i,
    {
        if a[i] != b[i] {
            return false;
        }
        i = i + 1;
    }
    assert(a@ =~= b@);
    true
}

impl PartialEq for ChannelLayout {
    fn eq(&self, other: &ChannelLayout) -> bool {
        same_channels(&self.channels, &other.channels)
    }
}

impl vstd::std_specs::cmp::PartialEqSpecImpl for ChannelLayout {
    open spec fn obeys_eq_spec() -> bool {
        true
    }

    open spec fn eq_spec(&self, other: &ChannelLayout) -> bool {
        self.channels@ == other.channels@
    }
}

impl Eq for ChannelLayout {
}

impl ChannelLayout {
    /// A copy of the layout, name and channels.
    pub fn duplicate(&self) -> (r: ChannelLayout)
        ensures
            r.name@ == self.name@,
            r.channels@ == self.channels@,
    {
        let mut channels: Vec<ChannelId> = Vec::new();
        let mut i: usize = 0;
        while i < self.channels.len()
            invariant
                i <= self.channels@.len(),
                channels@ == self.channels@.subrange(0, i as int),
            decreases self.channels@.len() - i,
        {
            channels.push(self.channels[i]);
            i = i + 1;
            assert(channels@ =~= self.channels@.subrange(0, i as int));
        }
        assert(channels@ =~= self.channels@);
        ChannelLayout { name: self.name.clone(), channels }
    }

    /// The two-channel layout: front left, front right.
    pub fn stereo() -> (r: ChannelLayout)
        ensures
            r.channels@ == seq![ChannelId::FrontLeft, ChannelId::FrontRight],
    {
        let mut channels: Vec<ChannelId> = Vec::new();
        channels.push(ChannelId::FrontLeft);
        channels.push(ChannelId::FrontRight);
        assert(channels@ =~= seq![ChannelId::FrontLeft, ChannelId::FrontRight]);
        ChannelLayout { name: String::from_str("Stereo"), channels }
    }

    /// The first layout of `preferred_layouts` whose channels one of
    /// `available_layouts` has (compared as `==` does), or `None` if there is
    /// none.
    pub fn best_matching_channel_layout(
        preferred_layouts: &Vec<ChannelLayout>,
        available_layouts: &Vec<ChannelLayout>,
    ) -> (r: Option<ChannelLayout>)
        ensures
            r is None <==> forall|i: int|
                0 <= i < preferred_layouts@.len() ==> !has_channels(
                    available_layouts@,
                    #[trigger] preferred_layouts@[i].channels@,
                ),
            r matches Some(l) ==> exists|i: int|
                is_first_match(preferred_layouts@, available_layouts@, i)
                    && l.channels@ == #[trigger] preferred_layouts@[i].channels@
                    && l.name@ == preferred_layouts@[i].name@,
    {
        let mut i: usize = 0;
        while i < preferred_layouts.len()
            invariant
                i <= preferred_layouts@.len(),
                forall|j: int|
                    0 <= j < i ==> !has_channels(available_layouts@, #[trigger] preferred_layouts@[j].channels@),
            decreases preferred_layouts@.len() - i,
        {
            let p = &preferred_layouts[i];
            let mut k: usize = 0;
            while k < available_layouts.len()
                invariant
                    i < preferred_layouts@.len(),
                    *p == preferred_layouts@[i as int],
                    k <= available_layouts@.len(),
                    forall|j: int|
                        0 <= j < i ==> !has_channels(available_layouts@, #[trigger] preferred_layouts@[j].channels@),
                    forall|m: int| 0 <= m < k ==> #[trigger] available_layouts@[m].channels@ != p.channels@,
                decreases available_layouts@.len() - k,
            {
                if same_channels(&available_layouts[k].channels, &p.channels) {
                    assert(has_channels(available_layouts@, p.channels@));
                    let r = p.duplicate();
                    assert(is_first_match(preferred_layouts@, available_layouts@, i as int));
                    assert(r.channels@ == preferred_layouts@[i as int].channels@);
                    return Some(r);
                }
                k = k + 1;
            }
            i = i + 1;
        }
        None
    }

    /// The index of the first channel of the layout that is `channel`, or
    /// `None` if it has none.
    pub fn find_channel(&self, channel: ChannelId) -> (r: Option<usize>)
        ensures
            r matches Some(i) ==> i < self.channels@.len() && self.channels@[i as int] == channel
                && forall|j: int| 0 <= j < i ==> self.channels@[j] != channel,
            r is None ==> forall|j: int| 0 <= j < self.channels@.len() ==> self.channels@[j] != channel,
    {
        let mut i: usize = 0;
        while i < self.channels.len()
            invariant
                i <= self.channels@.len(),
                forall|j: int| 0 <= j < i ==> self.channels@[j] != channel,
            decreases self.channels@.len() - i,
        {
            if self.channels[i] == channel {
                return Some(i);
            }
            i = i + 1;
        }
        None
    }

    /// Sorts layouts by channel count, fewest first, keeping the order of
    /// layouts with equally many channels. Names and channel positions play
    /// no part.
    pub fn sort(layouts: &mut [ChannelLayout])
        ensures
            final(layouts)@.to_multiset() == old(layouts)@.to_multiset(),
            sorted_by_channel_count(final(layouts)@),
    {
        sort_by_channel_count(layouts);
    }
}

/// The most channels that the C interface's layout holds.
pub const MAX_CHANNELS: usize = 24;

impl ChannelLayout {
    /// The channels in the C interface's fixed-size form: the first
    /// `MAX_CHANNELS` channels (more are dropped), then `Invalid` up to
    /// `MAX_CHANNELS` entries.
    pub fn raw_channels(&self) -> (r: Vec<raw::SoundIoChannelId>)
        ensures
            r@.len() == MAX_CHANNELS,
            forall|i: int|
                0 <= i < MAX_CHANNELS ==> #[trigger] r@[i] == if i < self.channels@.len() {
                    raw_of_channel_id(self.channels@[i])
                } else {
                    raw::SoundIoChannelId::SoundIoChannelIdInvalid
                },
    {
        let mut r: Vec<raw::SoundIoChannelId> = Vec::new();
        let mut i: usize = 0;
        while i < MAX_CHANNELS
            invariant
                i <= MAX_CHANNELS,
                r@.len() == i,
                forall|k: int|
                    0 <= k < i ==> #[trigger] r@[k] == if k < self.channels@.len() {
                        raw_of_channel_id(self.channels@[k])
                    } else {
                        raw::SoundIoChannelId::SoundIoChannelIdInvalid
                    },
            decreases MAX_CHANNELS - i,
        {
            if i < self.channels.len() {
                r.push(raw::SoundIoChannelId::from(self.channels[i]));
            } else {
                r.push(raw::SoundIoChannelId::SoundIoChannelIdInvalid);
            }
            i = i + 1;
        }
        r
    }

    /// The number of channels that the C interface's form keeps.
    pub fn raw_channel_count(&self) -> (r: usize)
        ensures
            r == if self.channels@.len() < MAX_CHANNELS {
                self.channels@.len() as int
            } else {
                MAX_CHANNELS as int
            },
    {
        if self.channels.len() < MAX_CHANNELS {
            self.channels.len()
        } else {
            MAX_CHANNELS
        }
    }

    /// The layout that the C interface describes by a name and the first
    /// `channel_count` entries of `channels`.
    pub fn from_raw(name: String, channels: &[raw::SoundIoChannelId], channel_count: usize) -> (r: ChannelLayout)
        requires
            channel_count <= channels@.len(),
        ensures
            r.name@ == name@,
            r.channels@.len() == channel_count,
            forall|i: int| 0 <= i < channel_count ==> #[trigger] r.channels@[i] == channel_id_of_raw(channels@[i]),
    {
        let mut out: Vec<ChannelId> = Vec::new();
        let mut i: usize = 0;
        while i < channel_count
            invariant
                i <= channel_count,
                channel_count <= channels@.len(),
                out@.len() == i,
                forall|k: int| 0 <= k < i ==> #[trigger] out@[k] == channel_id_of_raw(channels@[k]),
            decreases channel_count - i,
        {
            out.push(ChannelId::from(channels[i]));
            i = i + 1;
        }
        ChannelLayout { name, channels: out }
    }
}

/// Built-in channel layouts. A leading `C` stands before names that start
/// with a digit: `C2Point1` is 2.1.
#[derive(Debug, Copy, Clone, PartialEq, Eq, Structural)]
pub enum ChannelLayoutId {
    Mono,
    Stereo,
    C2Point1,
    C3Point0,
    C3Point0Back,
    C3Point1,
    C4Point0,
    Quad,
    QuadSide,
    C4Point1,
    C5Point0Back,
    C5Point0Side,
    C5Point1,
    C5Point1Back,
    C6Point0Side,
    C6Point0Front,
    Hexagonal,
    C6Point1,
    C6Point1Back,
    C6Point1Front,
    C7Point0,
    C7Point0Front,
    C7Point1,
    C7Point1Wide,
    C7Point1WideBack,
    Octagonal,
}

/// The layout id that a C layout id stands for.
pub open spec fn layout_id_of_raw(r: raw::SoundIoChannelLayoutId) -> ChannelLayoutId {
    match r {
        raw::SoundIoChannelLayoutId::SoundIoChannelLayoutIdMono => ChannelLayoutId::Mono,
        raw::SoundIoChannelLayoutId::SoundIoChannelLayoutIdStereo => ChannelLayoutId::Stereo,
        raw::SoundIoChannelLayoutId::SoundIoChannelLayoutId2Point1 => ChannelLayoutId::C2Point1,
        raw::SoundIoChannelLayoutId::SoundIoChannelLayoutId3Point0 => ChannelLayoutId::C3Point0,
        raw::SoundIoChannelLayoutId::SoundIoChannelLayoutId3Point0Back => ChannelLayoutId::C3Point0Back,
        raw::SoundIoChannelLayoutId::SoundIoChannelLayoutId3Point1 => ChannelLayoutId::C3Point1,
        raw::SoundIoChannelLayoutId::SoundIoChannelLayoutId4Point0 => ChannelLayoutId::C4Point0,
        raw::SoundIoChannelLayoutId::SoundIoChannelLayoutIdQuad => ChannelLayoutId::Quad,
        raw::SoundIoChannelLayoutId::SoundIoChannelLayoutIdQuadSide => ChannelLayoutId::QuadSide,
        raw::SoundIoChannelLayoutId::SoundIoChannelLayoutId4Point1 => ChannelLayoutId::C4Point1,
        raw::SoundIoChannelLayoutId::SoundIoChannelLayoutId5Point0Back => ChannelLayoutId::C5Point0Back,
        raw::SoundIoChannelLayoutId::SoundIoChannelLayoutId5Point0Side => ChannelLayoutId::C5Point0Side,
        raw::SoundIoChannelLayoutId::SoundIoChannelLayoutId5Point1 => ChannelLayoutId::C5Point1,
        raw::SoundIoChannelLayoutId::SoundIoChannelLayoutId5Point1Back => ChannelLayoutId::C5Point1Back,
        raw::SoundIoChannelLayoutId::SoundIoChannelLayoutId6Point0Side => ChannelLayoutId::C6Point0Side,
        raw::SoundIoChannelLayoutId::SoundIoChannelLayoutId6Point0Front => ChannelLayoutId::C6Point0Front,
        raw::SoundIoChannelLayoutId::SoundIoChannelLayoutIdHexagonal => ChannelLayoutId::Hexagonal,
        raw::SoundIoChannelLayoutId::SoundIoChannelLayoutId6Point1 => ChannelLayoutId::C6Point1,
        raw::SoundIoChannelLayoutId::SoundIoChannelLayoutId6Point1Back => ChannelLayoutId::C6Point1Back,
        raw::SoundIoChannelLayoutId::SoundIoChannelLayoutId6Point1Front => ChannelLayoutId::C6Point1Front,
        raw::SoundIoChannelLayoutId::SoundIoChannelLayoutId7Point0 => ChannelLayoutId::C7Point0,
        raw::SoundIoChannelLayoutId::SoundIoChannelLayoutId7Point0Front => ChannelLayoutId::C7Point0Front,
        raw::SoundIoChannelLayoutId::SoundIoChannelLayoutId7Point1 => ChannelLayoutId::C7Point1,
        raw::SoundIoChannelLayoutId::SoundIoChannelLayoutId7Point1Wide => ChannelLayoutId::C7Point1Wide,
        raw::SoundIoChannelLayoutId::SoundIoChannelLayoutId7Point1WideBack => ChannelLayoutId::C7Point1WideBack,
        raw::SoundIoChannelLayoutId::SoundIoChannelLayoutIdOctagonal => ChannelLayoutId::Octagonal,
    }
}

/// The C layout id of a layout id.
pub open spec fn raw_of_layout_id(v: ChannelLayoutId) -> raw::SoundIoChannelLayoutId {
    match v {
        ChannelLayoutId::Mono => raw::SoundIoChannelLayoutId::SoundIoChannelLayoutIdMono,
        ChannelLayoutId::Stereo => raw::SoundIoChannelLayoutId::SoundIoChannelLayoutIdStereo,
        ChannelLayoutId::C2Point1 => raw::SoundIoChannelLayoutId::SoundIoChannelLayoutId2Point1,
        ChannelLayoutId::C3Point0 => raw::SoundIoChannelLayoutId::SoundIoChannelLayoutId3Point0,
        ChannelLayoutId::C3Point0Back => raw::SoundIoChannelLayoutId::SoundIoChannelLayoutId3Point0Back,
        ChannelLayoutId::C3Point1 => raw::SoundIoChannelLayoutId::SoundIoChannelLayoutId3Point1,
        ChannelLayoutId::C4Point0 => raw::SoundIoChannelLayoutId::SoundIoChannelLayoutId4Point0,
        ChannelLayoutId::Quad => raw::SoundIoChannelLayoutId::SoundIoChannelLayoutIdQuad,
        ChannelLayoutId::QuadSide => raw::SoundIoChannelLayoutId::SoundIoChannelLayoutIdQuadSide,
        ChannelLayoutId::C4Point1 => raw::SoundIoChannelLayoutId::SoundIoChannelLayoutId4Point1,
        ChannelLayoutId::C5Point0Back => raw::SoundIoChannelLayoutId::SoundIoChannelLayoutId5Point0Back,
        ChannelLayoutId::C5Point0Side => raw::SoundIoChannelLayoutId::SoundIoChannelLayoutId5Point0Side,
        ChannelLayoutId::C5Point1 => raw::SoundIoChannelLayoutId::SoundIoChannelLayoutId5Point1,
        ChannelLayoutId::C5Point1Back => raw::SoundIoChannelLayoutId::SoundIoChannelLayoutId5Point1Back,
        ChannelLayoutId::C6Point0Side => raw::SoundIoChannelLayoutId::SoundIoChannelLayoutId6Point0Side,
        ChannelLayoutId::C6Point0Front => raw::SoundIoChannelLayoutId::SoundIoChannelLayoutId6Point0Front,
        ChannelLayoutId::Hexagonal => raw::SoundIoChannelLayoutId::SoundIoChannelLayoutIdHexagonal,
        ChannelLayoutId::C6Point1 => raw::SoundIoChannelLayoutId::SoundIoChannelLayoutId6Point1,
        ChannelLayoutId::C6Point1Back => raw::SoundIoChannelLayoutId::SoundIoChannelLayoutId6Point1Back,
        ChannelLayoutId::C6Point1Front => raw::SoundIoChannelLayoutId::SoundIoChannelLayoutId6Point1Front,
        ChannelLayoutId::C7Point0 => raw::SoundIoChannelLayoutId::SoundIoChannelLayoutId7Point0,
        ChannelLayoutId::C7Point0Front => raw::SoundIoChannelLayoutId::SoundIoChannelLayoutId7Point0Front,
        ChannelLayoutId::C7Point1 => raw::SoundIoChannelLayoutId::SoundIoChannelLayoutId7Point1,
        ChannelLayoutId::C7Point1Wide => raw::SoundIoChannelLayoutId::SoundIoChannelLayoutId7Point1Wide,
        ChannelLayoutId::C7Point1WideBack => raw::SoundIoChannelLayoutId::SoundIoChannelLayoutId7Point1WideBack,
        ChannelLayoutId::Octagonal => raw::SoundIoChannelLayoutId::SoundIoChannelLayoutIdOctagonal,
    }
}

impl From<raw::SoundIoChannelLayoutId> for ChannelLayoutId {
    fn from(r: raw::SoundIoChannelLayoutId) -> ChannelLayoutId {
        match r {
            raw::SoundIoChannelLayoutId::SoundIoChannelLayoutIdMono => ChannelLayoutId::Mono,
            raw::SoundIoChannelLayoutId::SoundIoChannelLayoutIdStereo => ChannelLayoutId::Stereo,
            raw::SoundIoChannelLayoutId::SoundIoChannelLayoutId2Point1 => ChannelLayoutId::C2Point1,
            raw::SoundIoChannelLayoutId::SoundIoChannelLayoutId3Point0 => ChannelLayoutId::C3Point0,
            raw::SoundIoChannelLayoutId::SoundIoChannelLayoutId3Point0Back => ChannelLayoutId::C3Point0Back,
            raw::SoundIoChannelLayoutId::SoundIoChannelLayoutId3Point1 => ChannelLayoutId::C3Point1,
            raw::SoundIoChannelLayoutId::SoundIoChannelLayoutId4Point0 => ChannelLayoutId::C4Point0,
            raw::SoundIoChannelLayoutId::SoundIoChannelLayoutIdQuad => ChannelLayoutId::Quad,
            raw::SoundIoChannelLayoutId::SoundIoChannelLayoutIdQuadSide => ChannelLayoutId::QuadSide,
            raw::SoundIoChannelLayoutId::SoundIoChannelLayoutId4Point1 => ChannelLayoutId::C4Point1,
            raw::SoundIoChannelLayoutId::SoundIoChannelLayoutId5Point0Back => ChannelLayoutId::C5Point0Back,
            raw::SoundIoChannelLayoutId::SoundIoChannelLayoutId5Point0Side => ChannelLayoutId::C5Point0Side,
            raw::SoundIoChannelLayoutId::SoundIoChannelLayoutId5Point1 => ChannelLayoutId::C5Point1,
            raw::SoundIoChannelLayoutId::SoundIoChannelLayoutId5Point1Back => ChannelLayoutId::C5Point1Back,
            raw::SoundIoChannelLayoutId::SoundIoChannelLayoutId6Point0Side => ChannelLayoutId::C6Point0Side,
            raw::SoundIoChannelLayoutId::SoundIoChannelLayoutId6Point0Front => ChannelLayoutId::C6Point0Front,
            raw::SoundIoChannelLayoutId::SoundIoChannelLayoutIdHexagonal => ChannelLayoutId::Hexagonal,
            raw::SoundIoChannelLayoutId::SoundIoChannelLayoutId6Point1 => ChannelLayoutId::C6Point1,
            raw::SoundIoChannelLayoutId::SoundIoChannelLayoutId6Point1Back => ChannelLayoutId::C6Point1Back,
            raw::SoundIoChannelLayoutId::SoundIoChannelLayoutId6Point1Front => ChannelLayoutId::C6Point1Front,
            raw::SoundIoChannelLayoutId::SoundIoChannelLayoutId7Point0 => ChannelLayoutId::C7Point0,
            raw::SoundIoChannelLayoutId::SoundIoChannelLayoutId7Point0Front => ChannelLayoutId::C7Point0Front,
            raw::SoundIoChannelLayoutId::SoundIoChannelLayoutId7Point1 => ChannelLayoutId::C7Point1,
            raw::SoundIoChannelLayoutId::SoundIoChannelLayoutId7Point1Wide => ChannelLayoutId::C7Point1Wide,
            raw::SoundIoChannelLayoutId::SoundIoChannelLayoutId7Point1WideBack => ChannelLayoutId::C7Point1WideBack,
            raw::SoundIoChannelLayoutId::SoundIoChannelLayoutIdOctagonal => ChannelLayoutId::Octagonal,
        }
    }
}

impl vstd::std_specs::convert::FromSpecImpl<raw::SoundIoChannelLayoutId> for ChannelLayoutId {
    open spec fn obeys_from_spec() -> bool {
        true
    }

    open spec fn from_spec(r: raw::SoundIoChannelLayoutId) -> ChannelLayoutId {
        layout_id_of_raw(r)
    }
}

impl From<ChannelLayoutId> for raw::SoundIoChannelLayoutId {
    fn from(v: ChannelLayoutId) -> raw::SoundIoChannelLayoutId {
        match v {
            ChannelLayoutId::Mono => raw::SoundIoChannelLayoutId::SoundIoChannelLayoutIdMono,
            ChannelLayoutId::Stereo => raw::SoundIoChannelLayoutId::SoundIoChannelLayoutIdStereo,
            ChannelLayoutId::C2Point1 => raw::SoundIoChannelLayoutId::SoundIoChannelLayoutId2Point1,
            ChannelLayoutId::C3Point0 => raw::SoundIoChannelLayoutId::SoundIoChannelLayoutId3Point0,
            ChannelLayoutId::C3Point0Back => raw::SoundIoChannelLayoutId::SoundIoChannelLayoutId3Point0Back,
            ChannelLayoutId::C3Point1 => raw::SoundIoChannelLayoutId::SoundIoChannelLayoutId3Point1,
            ChannelLayoutId::C4Point0 => raw::SoundIoChannelLayoutId::SoundIoChannelLayoutId4Point0,
            ChannelLayoutId::Quad => raw::SoundIoChannelLayoutId::SoundIoChannelLayoutIdQuad,
            ChannelLayoutId::QuadSide => raw::SoundIoChannelLayoutId::SoundIoChannelLayoutIdQuadSide,
            ChannelLayoutId::C4Point1 => raw::SoundIoChannelLayoutId::SoundIoChannelLayoutId4Point1,
            ChannelLayoutId::C5Point0Back => raw::SoundIoChannelLayoutId::SoundIoChannelLayoutId5Point0Back,
            ChannelLayoutId::C5Point0Side => raw::SoundIoChannelLayoutId::SoundIoChannelLayoutId5Point0Side,
            ChannelLayoutId::C5Point1 => raw::SoundIoChannelLayoutId::SoundIoChannelLayoutId5Point1,
            ChannelLayoutId::C5Point1Back => raw::SoundIoChannelLayoutId::SoundIoChannelLayoutId5Point1Back,
            ChannelLayoutId::C6Point0Side => raw::SoundIoChannelLayoutId::SoundIoChannelLayoutId6Point0Side,
            ChannelLayoutId::C6Point0Front => raw::SoundIoChannelLayoutId::SoundIoChannelLayoutId6Point0Front,
            ChannelLayoutId::Hexagonal => raw::SoundIoChannelLayoutId::SoundIoChannelLayoutIdHexagonal,
            ChannelLayoutId::C6Point1 => raw::SoundIoChannelLayoutId::SoundIoChannelLayoutId6Point1,
            ChannelLayoutId::C6Point1Back => raw::SoundIoChannelLayoutId::SoundIoChannelLayoutId6Point1Back,
            ChannelLayoutId::C6Point1Front => raw::SoundIoChannelLayoutId::SoundIoChannelLayoutId6Point1Front,
            ChannelLayoutId::C7Point0 => raw::SoundIoChannelLayoutId::SoundIoChannelLayoutId7Point0,
            ChannelLayoutId::C7Point0Front => raw::SoundIoChannelLayoutId::SoundIoChannelLayoutId7Point0Front,
            ChannelLayoutId::C7Point1 => raw::SoundIoChannelLayoutId::SoundIoChannelLayoutId7Point1,
            ChannelLayoutId::C7Point1Wide => raw::SoundIoChannelLayoutId::SoundIoChannelLayoutId7Point1Wide,
            ChannelLayoutId::C7Point1WideBack => raw::SoundIoChannelLayoutId::SoundIoChannelLayoutId7Point1WideBack,
            ChannelLayoutId::Octagonal => raw::SoundIoChannelLayoutId::SoundIoChannelLayoutIdOctagonal,
        }
    }
}

impl vstd::std_specs::convert::FromSpecImpl<ChannelLayoutId> for raw::SoundIoChannelLayoutId {
    open spec fn obeys_from_spec() -> bool {
        true
    }

    open spec fn from_spec(v: ChannelLayoutId) -> raw::SoundIoChannelLayoutId {
        raw_of_layout_id(v)
    }
}

/// Converting to the C value and back gives the value back, and every C value
/// is reached: the two enumerations correspond one to one.
pub proof fn lemma_layout_id_raw_bijective(v: ChannelLayoutId, r: raw::SoundIoChannelLayoutId)
    ensures
        layout_id_of_raw(raw_of_layout_id(v)) == v,
        raw_of_layout_id(layout_id_of_raw(r)) == r,
{
}

} // verus!
