use vstd::prelude::*;

use crate::raw;

verus! {

/// The location or intent of a channel (left, right, LFE, ...).
#[derive(Debug, Copy, Clone, PartialEq, Eq, Structural)]
pub enum ChannelId {
    Invalid,

    /// The more commonly supported ids.
    FrontLeft,
    FrontRight,
    FrontCenter,
    Lfe,
    BackLeft,
    BackRight,
    FrontLeftCenter,
    FrontRightCenter,
    BackCenter,
    SideLeft,
    SideRight,
    TopCenter,
    TopFrontLeft,
    TopFrontCenter,
    TopFrontRight,
    TopBackLeft,
    TopBackCenter,
    TopBackRight,

    /// The less commonly supported ids.
    BackLeftCenter,
    BackRightCenter,
    FrontLeftWide,
    FrontRightWide,
    FrontLeftHigh,
    FrontCenterHigh,
    FrontRightHigh,
    TopFrontLeftCenter,
    TopFrontRightCenter,
    TopSideLeft,
    TopSideRight,
    LeftLfe,
    RightLfe,
    Lfe2,
    BottomCenter,
    BottomLeftCenter,
    BottomRightCenter,

    /// Mid/side recording
    MsMid,
    MsSide,

    /// First order ambisonic channels
    AmbisonicW,
    AmbisonicX,
    AmbisonicY,
    AmbisonicZ,

    /// X-Y Recording
    XyX,
    XyY,

    /// The "other" channel ids
    HeadphonesLeft,
    HeadphonesRight,
    ClickTrack,
    ForeignLanguage,
    HearingImpaired,
    Narration,
    Haptic,
    DialogCentricMix,

    Aux,
    Aux0,
    Aux1,
    Aux2,
    Aux3,
    Aux4,
    Aux5,
    Aux6,
    Aux7,
    Aux8,
    Aux9,
    Aux10,
    Aux11,
    Aux12,
    Aux13,
    Aux14,
    Aux15,
}

/// The channel id that a C channel id stands for.
pub open spec fn channel_id_of_raw(r: raw::SoundIoChannelId) -> ChannelId {
    match r {
        raw::SoundIoChannelId::SoundIoChannelIdInvalid => ChannelId::Invalid,
        raw::SoundIoChannelId::SoundIoChannelIdFrontLeft => ChannelId::FrontLeft,
        raw::SoundIoChannelId::SoundIoChannelIdFrontRight => ChannelId::FrontRight,
        raw::SoundIoChannelId::SoundIoChannelIdFrontCenter => ChannelId::FrontCenter,
        raw::SoundIoChannelId::SoundIoChannelIdLfe => ChannelId::Lfe,
        raw::SoundIoChannelId::SoundIoChannelIdBackLeft => ChannelId::BackLeft,
        raw::SoundIoChannelId::SoundIoChannelIdBackRight => ChannelId::BackRight,
        raw::SoundIoChannelId::SoundIoChannelIdFrontLeftCenter => ChannelId::FrontLeftCenter,
        raw::SoundIoChannelId::SoundIoChannelIdFrontRightCenter => ChannelId::FrontRightCenter,
        raw::SoundIoChannelId::SoundIoChannelIdBackCenter => ChannelId::BackCenter,
        raw::SoundIoChannelId::SoundIoChannelIdSideLeft => ChannelId::SideLeft,
        raw::SoundIoChannelId::SoundIoChannelIdSideRight => ChannelId::SideRight,
        raw::SoundIoChannelId::SoundIoChannelIdTopCenter => ChannelId::TopCenter,
        raw::SoundIoChannelId::SoundIoChannelIdTopFrontLeft => ChannelId::TopFrontLeft,
        raw::SoundIoChannelId::SoundIoChannelIdTopFrontCenter => ChannelId::TopFrontCenter,
        raw::SoundIoChannelId::SoundIoChannelIdTopFrontRight => ChannelId::TopFrontRight,
        raw::SoundIoChannelId::SoundIoChannelIdTopBackLeft => ChannelId::TopBackLeft,
        raw::SoundIoChannelId::SoundIoChannelIdTopBackCenter => ChannelId::TopBackCenter,
        raw::SoundIoChannelId::SoundIoChannelIdTopBackRight => ChannelId::TopBackRight,
        raw::SoundIoChannelId::SoundIoChannelIdBackLeftCenter => ChannelId::BackLeftCenter,
        raw::SoundIoChannelId::SoundIoChannelIdBackRightCenter => ChannelId::BackRightCenter,
        raw::SoundIoChannelId::SoundIoChannelIdFrontLeftWide => ChannelId::FrontLeftWide,
        raw::SoundIoChannelId::SoundIoChannelIdFrontRightWide => ChannelId::FrontRightWide,
        raw::SoundIoChannelId::SoundIoChannelIdFrontLeftHigh => ChannelId::FrontLeftHigh,
        raw::SoundIoChannelId::SoundIoChannelIdFrontCenterHigh => ChannelId::FrontCenterHigh,
        raw::SoundIoChannelId::SoundIoChannelIdFrontRightHigh => ChannelId::FrontRightHigh,
        raw::SoundIoChannelId::SoundIoChannelIdTopFrontLeftCenter => ChannelId::TopFrontLeftCenter,
        raw::SoundIoChannelId::SoundIoChannelIdTopFrontRightCenter => ChannelId::TopFrontRightCenter,
        raw::SoundIoChannelId::SoundIoChannelIdTopSideLeft => ChannelId::TopSideLeft,
        raw::SoundIoChannelId::SoundIoChannelIdTopSideRight => ChannelId::TopSideRight,
        raw::SoundIoChannelId::SoundIoChannelIdLeftLfe => ChannelId::LeftLfe,
        raw::SoundIoChannelId::SoundIoChannelIdRightLfe => ChannelId::RightLfe,
        raw::SoundIoChannelId::SoundIoChannelIdLfe2 => ChannelId::Lfe2,
        raw::SoundIoChannelId::SoundIoChannelIdBottomCenter => ChannelId::BottomCenter,
        raw::SoundIoChannelId::SoundIoChannelIdBottomLeftCenter => ChannelId::BottomLeftCenter,
        raw::SoundIoChannelId::SoundIoChannelIdBottomRightCenter => ChannelId::BottomRightCenter,
        raw::SoundIoChannelId::SoundIoChannelIdMsMid => ChannelId::MsMid,
        raw::SoundIoChannelId::SoundIoChannelIdMsSide => ChannelId::MsSide,
        raw::SoundIoChannelId::SoundIoChannelIdAmbisonicW => ChannelId::AmbisonicW,
        raw::SoundIoChannelId::SoundIoChannelIdAmbisonicX => ChannelId::AmbisonicX,
        raw::SoundIoChannelId::SoundIoChannelIdAmbisonicY => ChannelId::AmbisonicY,
        raw::SoundIoChannelId::SoundIoChannelIdAmbisonicZ => ChannelId::AmbisonicZ,
        raw::SoundIoChannelId::SoundIoChannelIdXyX => ChannelId::XyX,
        raw::SoundIoChannelId::SoundIoChannelIdXyY => ChannelId::XyY,
        raw::SoundIoChannelId::SoundIoChannelIdHeadphonesLeft => ChannelId::HeadphonesLeft,
        raw::SoundIoChannelId::SoundIoChannelIdHeadphonesRight => ChannelId::HeadphonesRight,
        raw::SoundIoChannelId::SoundIoChannelIdClickTrack => ChannelId::ClickTrack,
        raw::SoundIoChannelId::SoundIoChannelIdForeignLanguage => ChannelId::ForeignLanguage,
        raw::SoundIoChannelId::SoundIoChannelIdHearingImpaired => ChannelId::HearingImpaired,
        raw::SoundIoChannelId::SoundIoChannelIdNarration => ChannelId::Narration,
        raw::SoundIoChannelId::SoundIoChannelIdHaptic => ChannelId::Haptic,
        raw::SoundIoChannelId::SoundIoChannelIdDialogCentricMix => ChannelId::DialogCentricMix,
        raw::SoundIoChannelId::SoundIoChannelIdAux => ChannelId::Aux,
        raw::SoundIoChannelId::SoundIoChannelIdAux0 => ChannelId::Aux0,
        raw::SoundIoChannelId::SoundIoChannelIdAux1 => ChannelId::Aux1,
        raw::SoundIoChannelId::SoundIoChannelIdAux2 => ChannelId::Aux2,
        raw::SoundIoChannelId::SoundIoChannelIdAux3 => ChannelId::Aux3,
        raw::SoundIoChannelId::SoundIoChannelIdAux4 => ChannelId::Aux4,
        raw::SoundIoChannelId::SoundIoChannelIdAux5 => ChannelId::Aux5,
        raw::SoundIoChannelId::SoundIoChannelIdAux6 => ChannelId::Aux6,
        raw::SoundIoChannelId::SoundIoChannelIdAux7 => ChannelId::Aux7,
        raw::SoundIoChannelId::SoundIoChannelIdAux8 => ChannelId::Aux8,
        raw::SoundIoChannelId::SoundIoChannelIdAux9 => ChannelId::Aux9,
        raw::SoundIoChannelId::SoundIoChannelIdAux10 => ChannelId::Aux10,
        raw::SoundIoChannelId::SoundIoChannelIdAux11 => ChannelId::Aux11,
        raw::SoundIoChannelId::SoundIoChannelIdAux12 => ChannelId::Aux12,
        raw::SoundIoChannelId::SoundIoChannelIdAux13 => ChannelId::Aux13,
        raw::SoundIoChannelId::SoundIoChannelIdAux14 => ChannelId::Aux14,
        raw::SoundIoChannelId::SoundIoChannelIdAux15 => ChannelId::Aux15,
    }
}

/// The C channel id of a channel id.
pub open spec fn raw_of_channel_id(v: ChannelId) -> raw::SoundIoChannelId {
    match v {
        ChannelId::Invalid => raw::SoundIoChannelId::SoundIoChannelIdInvalid,
        ChannelId::FrontLeft => raw::SoundIoChannelId::SoundIoChannelIdFrontLeft,
        ChannelId::FrontRight => raw::SoundIoChannelId::SoundIoChannelIdFrontRight,
        ChannelId::FrontCenter => raw::SoundIoChannelId::SoundIoChannelIdFrontCenter,
        ChannelId::Lfe => raw::SoundIoChannelId::SoundIoChannelIdLfe,
        ChannelId::BackLeft => raw::SoundIoChannelId::SoundIoChannelIdBackLeft,
        ChannelId::BackRight => raw::SoundIoChannelId::SoundIoChannelIdBackRight,
        ChannelId::FrontLeftCenter => raw::SoundIoChannelId::SoundIoChannelIdFrontLeftCenter,
        ChannelId::FrontRightCenter => raw::SoundIoChannelId::SoundIoChannelIdFrontRightCenter,
        ChannelId::BackCenter => raw::SoundIoChannelId::SoundIoChannelIdBackCenter,
        ChannelId::SideLeft => raw::SoundIoChannelId::SoundIoChannelIdSideLeft,
        ChannelId::SideRight => raw::SoundIoChannelId::SoundIoChannelIdSideRight,
        ChannelId::TopCenter => raw::SoundIoChannelId::SoundIoChannelIdTopCenter,
        ChannelId::TopFrontLeft => raw::SoundIoChannelId::SoundIoChannelIdTopFrontLeft,
        ChannelId::TopFrontCenter => raw::SoundIoChannelId::SoundIoChannelIdTopFrontCenter,
        ChannelId::TopFrontRight => raw::SoundIoChannelId::SoundIoChannelIdTopFrontRight,
        ChannelId::TopBackLeft => raw::SoundIoChannelId::SoundIoChannelIdTopBackLeft,
        ChannelId::TopBackCenter => raw::SoundIoChannelId::SoundIoChannelIdTopBackCenter,
        ChannelId::TopBackRight => raw::SoundIoChannelId::SoundIoChannelIdTopBackRight,
        ChannelId::BackLeftCenter => raw::SoundIoChannelId::SoundIoChannelIdBackLeftCenter,
        ChannelId::BackRightCenter => raw::SoundIoChannelId::SoundIoChannelIdBackRightCenter,
        ChannelId::FrontLeftWide => raw::SoundIoChannelId::SoundIoChannelIdFrontLeftWide,
        ChannelId::FrontRightWide => raw::SoundIoChannelId::SoundIoChannelIdFrontRightWide,
        ChannelId::FrontLeftHigh => raw::SoundIoChannelId::SoundIoChannelIdFrontLeftHigh,
        ChannelId::FrontCenterHigh => raw::SoundIoChannelId::SoundIoChannelIdFrontCenterHigh,
        ChannelId::FrontRightHigh => raw::SoundIoChannelId::SoundIoChannelIdFrontRightHigh,
        ChannelId::TopFrontLeftCenter => raw::SoundIoChannelId::SoundIoChannelIdTopFrontLeftCenter,
        ChannelId::TopFrontRightCenter => raw::SoundIoChannelId::SoundIoChannelIdTopFrontRightCenter,
        ChannelId::TopSideLeft => raw::SoundIoChannelId::SoundIoChannelIdTopSideLeft,
        ChannelId::TopSideRight => raw::SoundIoChannelId::SoundIoChannelIdTopSideRight,
        ChannelId::LeftLfe => raw::SoundIoChannelId::SoundIoChannelIdLeftLfe,
        ChannelId::RightLfe => raw::SoundIoChannelId::SoundIoChannelIdRightLfe,
        ChannelId::Lfe2 => raw::SoundIoChannelId::SoundIoChannelIdLfe2,
        ChannelId::BottomCenter => raw::SoundIoChannelId::SoundIoChannelIdBottomCenter,
        ChannelId::BottomLeftCenter => raw::SoundIoChannelId::SoundIoChannelIdBottomLeftCenter,
        ChannelId::BottomRightCenter => raw::SoundIoChannelId::SoundIoChannelIdBottomRightCenter,
        ChannelId::MsMid => raw::SoundIoChannelId::SoundIoChannelIdMsMid,
        ChannelId::MsSide => raw::SoundIoChannelId::SoundIoChannelIdMsSide,
        ChannelId::AmbisonicW => raw::SoundIoChannelId::SoundIoChannelIdAmbisonicW,
        ChannelId::AmbisonicX => raw::SoundIoChannelId::SoundIoChannelIdAmbisonicX,
        ChannelId::AmbisonicY => raw::SoundIoChannelId::SoundIoChannelIdAmbisonicY,
        ChannelId::AmbisonicZ => raw::SoundIoChannelId::SoundIoChannelIdAmbisonicZ,
        ChannelId::XyX => raw::SoundIoChannelId::SoundIoChannelIdXyX,
        ChannelId::XyY => raw::SoundIoChannelId::SoundIoChannelIdXyY,
        ChannelId::HeadphonesLeft => raw::SoundIoChannelId::SoundIoChannelIdHeadphonesLeft,
        ChannelId::HeadphonesRight => raw::SoundIoChannelId::SoundIoChannelIdHeadphonesRight,
        ChannelId::ClickTrack => raw::SoundIoChannelId::SoundIoChannelIdClickTrack,
        ChannelId::ForeignLanguage => raw::SoundIoChannelId::SoundIoChannelIdForeignLanguage,
        ChannelId::HearingImpaired => raw::SoundIoChannelId::SoundIoChannelIdHearingImpaired,
        ChannelId::Narration => raw::SoundIoChannelId::SoundIoChannelIdNarration,
        ChannelId::Haptic => raw::SoundIoChannelId::SoundIoChannelIdHaptic,
        ChannelId::DialogCentricMix => raw::SoundIoChannelId::SoundIoChannelIdDialogCentricMix,
        ChannelId::Aux => raw::SoundIoChannelId::SoundIoChannelIdAux,
        ChannelId::Aux0 => raw::SoundIoChannelId::SoundIoChannelIdAux0,
        ChannelId::Aux1 => raw::SoundIoChannelId::SoundIoChannelIdAux1,
        ChannelId::Aux2 => raw::SoundIoChannelId::SoundIoChannelIdAux2,
        ChannelId::Aux3 => raw::SoundIoChannelId::SoundIoChannelIdAux3,
        ChannelId::Aux4 => raw::SoundIoChannelId::SoundIoChannelIdAux4,
        ChannelId::Aux5 => raw::SoundIoChannelId::SoundIoChannelIdAux5,
        ChannelId::Aux6 => raw::SoundIoChannelId::SoundIoChannelIdAux6,
        ChannelId::Aux7 => raw::SoundIoChannelId::SoundIoChannelIdAux7,
        ChannelId::Aux8 => raw::SoundIoChannelId::SoundIoChannelIdAux8,
        ChannelId::Aux9 => raw::SoundIoChannelId::SoundIoChannelIdAux9,
        ChannelId::Aux10 => raw::SoundIoChannelId::SoundIoChannelIdAux10,
        ChannelId::Aux11 => raw::SoundIoChannelId::SoundIoChannelIdAux11,
        ChannelId::Aux12 => raw::SoundIoChannelId::SoundIoChannelIdAux12,
        ChannelId::Aux13 => raw::SoundIoChannelId::SoundIoChannelIdAux13,
        ChannelId::Aux14 => raw::SoundIoChannelId::SoundIoChannelIdAux14,
        ChannelId::Aux15 => raw::SoundIoChannelId::SoundIoChannelIdAux15,
    }
}

impl From<raw::SoundIoChannelId> for ChannelId {
    fn from(r: raw::SoundIoChannelId) -> ChannelId {
        match r {
            raw::SoundIoChannelId::SoundIoChannelIdInvalid => ChannelId::Invalid,
            raw::SoundIoChannelId::SoundIoChannelIdFrontLeft => ChannelId::FrontLeft,
            raw::SoundIoChannelId::SoundIoChannelIdFrontRight => ChannelId::FrontRight,
            raw::SoundIoChannelId::SoundIoChannelIdFrontCenter => ChannelId::FrontCenter,
            raw::SoundIoChannelId::SoundIoChannelIdLfe => ChannelId::Lfe,
            raw::SoundIoChannelId::SoundIoChannelIdBackLeft => ChannelId::BackLeft,
            raw::SoundIoChannelId::SoundIoChannelIdBackRight => ChannelId::BackRight,
            raw::SoundIoChannelId::SoundIoChannelIdFrontLeftCenter => ChannelId::FrontLeftCenter,
            raw::SoundIoChannelId::SoundIoChannelIdFrontRightCenter => ChannelId::FrontRightCenter,
            raw::SoundIoChannelId::SoundIoChannelIdBackCenter => ChannelId::BackCenter,
            raw::SoundIoChannelId::SoundIoChannelIdSideLeft => ChannelId::SideLeft,
            raw::SoundIoChannelId::SoundIoChannelIdSideRight => ChannelId::SideRight,
            raw::SoundIoChannelId::SoundIoChannelIdTopCenter => ChannelId::TopCenter,
            raw::SoundIoChannelId::SoundIoChannelIdTopFrontLeft => ChannelId::TopFrontLeft,
            raw::SoundIoChannelId::SoundIoChannelIdTopFrontCenter => ChannelId::TopFrontCenter,
            raw::SoundIoChannelId::SoundIoChannelIdTopFrontRight => ChannelId::TopFrontRight,
            raw::SoundIoChannelId::SoundIoChannelIdTopBackLeft => ChannelId::TopBackLeft,
            raw::SoundIoChannelId::SoundIoChannelIdTopBackCenter => ChannelId::TopBackCenter,
            raw::SoundIoChannelId::SoundIoChannelIdTopBackRight => ChannelId::TopBackRight,
            raw::SoundIoChannelId::SoundIoChannelIdBackLeftCenter => ChannelId::BackLeftCenter,
            raw::SoundIoChannelId::SoundIoChannelIdBackRightCenter => ChannelId::BackRightCenter,
            raw::SoundIoChannelId::SoundIoChannelIdFrontLeftWide => ChannelId::FrontLeftWide,
            raw::SoundIoChannelId::SoundIoChannelIdFrontRightWide => ChannelId::FrontRightWide,
            raw::SoundIoChannelId::SoundIoChannelIdFrontLeftHigh => ChannelId::FrontLeftHigh,
            raw::SoundIoChannelId::SoundIoChannelIdFrontCenterHigh => ChannelId::FrontCenterHigh,
            raw::SoundIoChannelId::SoundIoChannelIdFrontRightHigh => ChannelId::FrontRightHigh,
            raw::SoundIoChannelId::SoundIoChannelIdTopFrontLeftCenter => ChannelId::TopFrontLeftCenter,
            raw::SoundIoChannelId::SoundIoChannelIdTopFrontRightCenter => ChannelId::TopFrontRightCenter,
            raw::SoundIoChannelId::SoundIoChannelIdTopSideLeft => ChannelId::TopSideLeft,
            raw::SoundIoChannelId::SoundIoChannelIdTopSideRight => ChannelId::TopSideRight,
            raw::SoundIoChannelId::SoundIoChannelIdLeftLfe => ChannelId::LeftLfe,
            raw::SoundIoChannelId::SoundIoChannelIdRightLfe => ChannelId::RightLfe,
            raw::SoundIoChannelId::SoundIoChannelIdLfe2 => ChannelId::Lfe2,
            raw::SoundIoChannelId::SoundIoChannelIdBottomCenter => ChannelId::BottomCenter,
            raw::SoundIoChannelId::SoundIoChannelIdBottomLeftCenter => ChannelId::BottomLeftCenter,
            raw::SoundIoChannelId::SoundIoChannelIdBottomRightCenter => ChannelId::BottomRightCenter,
            raw::SoundIoChannelId::SoundIoChannelIdMsMid => ChannelId::MsMid,
            raw::SoundIoChannelId::SoundIoChannelIdMsSide => ChannelId::MsSide,
            raw::SoundIoChannelId::SoundIoChannelIdAmbisonicW => ChannelId::AmbisonicW,
            raw::SoundIoChannelId::SoundIoChannelIdAmbisonicX => ChannelId::AmbisonicX,
            raw::SoundIoChannelId::SoundIoChannelIdAmbisonicY => ChannelId::AmbisonicY,
            raw::SoundIoChannelId::SoundIoChannelIdAmbisonicZ => ChannelId::AmbisonicZ,
            raw::SoundIoChannelId::SoundIoChannelIdXyX => ChannelId::XyX,
            raw::SoundIoChannelId::SoundIoChannelIdXyY => ChannelId::XyY,
            raw::SoundIoChannelId::SoundIoChannelIdHeadphonesLeft => ChannelId::HeadphonesLeft,
            raw::SoundIoChannelId::SoundIoChannelIdHeadphonesRight => ChannelId::HeadphonesRight,
            raw::SoundIoChannelId::SoundIoChannelIdClickTrack => ChannelId::ClickTrack,
            raw::SoundIoChannelId::SoundIoChannelIdForeignLanguage => ChannelId::ForeignLanguage,
            raw::SoundIoChannelId::SoundIoChannelIdHearingImpaired => ChannelId::HearingImpaired,
            raw::SoundIoChannelId::SoundIoChannelIdNarration => ChannelId::Narration,
            raw::SoundIoChannelId::SoundIoChannelIdHaptic => ChannelId::Haptic,
            raw::SoundIoChannelId::SoundIoChannelIdDialogCentricMix => ChannelId::DialogCentricMix,
            raw::SoundIoChannelId::SoundIoChannelIdAux => ChannelId::Aux,
            raw::SoundIoChannelId::SoundIoChannelIdAux0 => ChannelId::Aux0,
            raw::SoundIoChannelId::SoundIoChannelIdAux1 => ChannelId::Aux1,
            raw::SoundIoChannelId::SoundIoChannelIdAux2 => ChannelId::Aux2,
            raw::SoundIoChannelId::SoundIoChannelIdAux3 => ChannelId::Aux3,
            raw::SoundIoChannelId::SoundIoChannelIdAux4 => ChannelId::Aux4,
            raw::SoundIoChannelId::SoundIoChannelIdAux5 => ChannelId::Aux5,
            raw::SoundIoChannelId::SoundIoChannelIdAux6 => ChannelId::Aux6,
            raw::SoundIoChannelId::SoundIoChannelIdAux7 => ChannelId::Aux7,
            raw::SoundIoChannelId::SoundIoChannelIdAux8 => ChannelId::Aux8,
            raw::SoundIoChannelId::SoundIoChannelIdAux9 => ChannelId::Aux9,
            raw::SoundIoChannelId::SoundIoChannelIdAux10 => ChannelId::Aux10,
            raw::SoundIoChannelId::SoundIoChannelIdAux11 => ChannelId::Aux11,
            raw::SoundIoChannelId::SoundIoChannelIdAux12 => ChannelId::Aux12,
            raw::SoundIoChannelId::SoundIoChannelIdAux13 => ChannelId::Aux13,
            raw::SoundIoChannelId::SoundIoChannelIdAux14 => ChannelId::Aux14,
            raw::SoundIoChannelId::SoundIoChannelIdAux15 => ChannelId::Aux15,
        }
    }
}

impl vstd::std_specs::convert::FromSpecImpl<raw::SoundIoChannelId> for ChannelId {
    open spec fn obeys_from_spec() -> bool {
        true
    }

    open spec fn from_spec(r: raw::SoundIoChannelId) -> ChannelId {
        channel_id_of_raw(r)
    }
}

impl From<ChannelId> for raw::SoundIoChannelId {
    fn from(v: ChannelId) -> raw::SoundIoChannelId {
        match v {
            ChannelId::Invalid => raw::SoundIoChannelId::SoundIoChannelIdInvalid,
            ChannelId::FrontLeft => raw::SoundIoChannelId::SoundIoChannelIdFrontLeft,
            ChannelId::FrontRight => raw::SoundIoChannelId::SoundIoChannelIdFrontRight,
            ChannelId::FrontCenter => raw::SoundIoChannelId::SoundIoChannelIdFrontCenter,
            ChannelId::Lfe => raw::SoundIoChannelId::SoundIoChannelIdLfe,
            ChannelId::BackLeft => raw::SoundIoChannelId::SoundIoChannelIdBackLeft,
            ChannelId::BackRight => raw::SoundIoChannelId::SoundIoChannelIdBackRight,
            ChannelId::FrontLeftCenter => raw::SoundIoChannelId::SoundIoChannelIdFrontLeftCenter,
            ChannelId::FrontRightCenter => raw::SoundIoChannelId::SoundIoChannelIdFrontRightCenter,
            ChannelId::BackCenter => raw::SoundIoChannelId::SoundIoChannelIdBackCenter,
            ChannelId::SideLeft => raw::SoundIoChannelId::SoundIoChannelIdSideLeft,
            ChannelId::SideRight => raw::SoundIoChannelId::SoundIoChannelIdSideRight,
            ChannelId::TopCenter => raw::SoundIoChannelId::SoundIoChannelIdTopCenter,
            ChannelId::TopFrontLeft => raw::SoundIoChannelId::SoundIoChannelIdTopFrontLeft,
            ChannelId::TopFrontCenter => raw::SoundIoChannelId::SoundIoChannelIdTopFrontCenter,
            ChannelId::TopFrontRight => raw::SoundIoChannelId::SoundIoChannelIdTopFrontRight,
            ChannelId::TopBackLeft => raw::SoundIoChannelId::SoundIoChannelIdTopBackLeft,
            ChannelId::TopBackCenter => raw::SoundIoChannelId::SoundIoChannelIdTopBackCenter,
            ChannelId::TopBackRight => raw::SoundIoChannelId::SoundIoChannelIdTopBackRight,
            ChannelId::BackLeftCenter => raw::SoundIoChannelId::SoundIoChannelIdBackLeftCenter,
            ChannelId::BackRightCenter => raw::SoundIoChannelId::SoundIoChannelIdBackRightCenter,
            ChannelId::FrontLeftWide => raw::SoundIoChannelId::SoundIoChannelIdFrontLeftWide,
            ChannelId::FrontRightWide => raw::SoundIoChannelId::SoundIoChannelIdFrontRightWide,
            ChannelId::FrontLeftHigh => raw::SoundIoChannelId::SoundIoChannelIdFrontLeftHigh,
            ChannelId::FrontCenterHigh => raw::SoundIoChannelId::SoundIoChannelIdFrontCenterHigh,
            ChannelId::FrontRightHigh => raw::SoundIoChannelId::SoundIoChannelIdFrontRightHigh,
            ChannelId::TopFrontLeftCenter => raw::SoundIoChannelId::SoundIoChannelIdTopFrontLeftCenter,
            ChannelId::TopFrontRightCenter => raw::SoundIoChannelId::SoundIoChannelIdTopFrontRightCenter,
            ChannelId::TopSideLeft => raw::SoundIoChannelId::SoundIoChannelIdTopSideLeft,
            ChannelId::TopSideRight => raw::SoundIoChannelId::SoundIoChannelIdTopSideRight,
            ChannelId::LeftLfe => raw::SoundIoChannelId::SoundIoChannelIdLeftLfe,
            ChannelId::RightLfe => raw::SoundIoChannelId::SoundIoChannelIdRightLfe,
            ChannelId::Lfe2 => raw::SoundIoChannelId::SoundIoChannelIdLfe2,
            ChannelId::BottomCenter => raw::SoundIoChannelId::SoundIoChannelIdBottomCenter,
            ChannelId::BottomLeftCenter => raw::SoundIoChannelId::SoundIoChannelIdBottomLeftCenter,
            ChannelId::BottomRightCenter => raw::SoundIoChannelId::SoundIoChannelIdBottomRightCenter,
            ChannelId::MsMid => raw::SoundIoChannelId::SoundIoChannelIdMsMid,
            ChannelId::MsSide => raw::SoundIoChannelId::SoundIoChannelIdMsSide,
            ChannelId::AmbisonicW => raw::SoundIoChannelId::SoundIoChannelIdAmbisonicW,
            ChannelId::AmbisonicX => raw::SoundIoChannelId::SoundIoChannelIdAmbisonicX,
            ChannelId::AmbisonicY => raw::SoundIoChannelId::SoundIoChannelIdAmbisonicY,
            ChannelId::AmbisonicZ => raw::SoundIoChannelId::SoundIoChannelIdAmbisonicZ,
            ChannelId::XyX => raw::SoundIoChannelId::SoundIoChannelIdXyX,
            ChannelId::XyY => raw::SoundIoChannelId::SoundIoChannelIdXyY,
            ChannelId::HeadphonesLeft => raw::SoundIoChannelId::SoundIoChannelIdHeadphonesLeft,
            ChannelId::HeadphonesRight => raw::SoundIoChannelId::SoundIoChannelIdHeadphonesRight,
            ChannelId::ClickTrack => raw::SoundIoChannelId::SoundIoChannelIdClickTrack,
            ChannelId::ForeignLanguage => raw::SoundIoChannelId::SoundIoChannelIdForeignLanguage,
            ChannelId::HearingImpaired => raw::SoundIoChannelId::SoundIoChannelIdHearingImpaired,
            ChannelId::Narration => raw::SoundIoChannelId::SoundIoChannelIdNarration,
            ChannelId::Haptic => raw::SoundIoChannelId::SoundIoChannelIdHaptic,
            ChannelId::DialogCentricMix => raw::SoundIoChannelId::SoundIoChannelIdDialogCentricMix,
            ChannelId::Aux => raw::SoundIoChannelId::SoundIoChannelIdAux,
            ChannelId::Aux0 => raw::SoundIoChannelId::SoundIoChannelIdAux0,
            ChannelId::Aux1 => raw::SoundIoChannelId::SoundIoChannelIdAux1,
            ChannelId::Aux2 => raw::SoundIoChannelId::SoundIoChannelIdAux2,
            ChannelId::Aux3 => raw::SoundIoChannelId::SoundIoChannelIdAux3,
            ChannelId::Aux4 => raw::SoundIoChannelId::SoundIoChannelIdAux4,
            ChannelId::Aux5 => raw::SoundIoChannelId::SoundIoChannelIdAux5,
            ChannelId::Aux6 => raw::SoundIoChannelId::SoundIoChannelIdAux6,
            ChannelId::Aux7 => raw::SoundIoChannelId::SoundIoChannelIdAux7,
            ChannelId::Aux8 => raw::SoundIoChannelId::SoundIoChannelIdAux8,
            ChannelId::Aux9 => raw::SoundIoChannelId::SoundIoChannelIdAux9,
            ChannelId::Aux10 => raw::SoundIoChannelId::SoundIoChannelIdAux10,
            ChannelId::Aux11 => raw::SoundIoChannelId::SoundIoChannelIdAux11,
            ChannelId::Aux12 => raw::SoundIoChannelId::SoundIoChannelIdAux12,
            ChannelId::Aux13 => raw::SoundIoChannelId::SoundIoChannelIdAux13,
            ChannelId::Aux14 => raw::SoundIoChannelId::SoundIoChannelIdAux14,
            ChannelId::Aux15 => raw::SoundIoChannelId::SoundIoChannelIdAux15,
        }
    }
}

impl vstd::std_specs::convert::FromSpecImpl<ChannelId> for raw::SoundIoChannelId {
    open spec fn obeys_from_spec() -> bool {
        true
    }

    open spec fn from_spec(v: ChannelId) -> raw::SoundIoChannelId {
        raw_of_channel_id(v)
    }
}

/// Converting to the C value and back gives the value back, and every C value
/// is reached: the two enumerations correspond one to one.
pub proof fn lemma_channel_id_raw_bijective(v: ChannelId, r: raw::SoundIoChannelId)
    ensures
        channel_id_of_raw(raw_of_channel_id(v)) == v,
        raw_of_channel_id(channel_id_of_raw(r)) == r,
{
}

} // verus!
