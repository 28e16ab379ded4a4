//! The enumerations of the audio transport's C interface, in its order.
use vstd::prelude::*;

verus! {

/// Error codes of the transport's C interface; `SoundIoErrorNone` is success.
#[derive(Debug, Copy, Clone, PartialEq, Eq, Structural)]
pub enum SoundIoError {
    SoundIoErrorNone,
    SoundIoErrorNoMem,
    SoundIoErrorInitAudioBackend,
    SoundIoErrorSystemResources,
    SoundIoErrorOpeningDevice,
    SoundIoErrorNoSuchDevice,
    SoundIoErrorInvalid,
    SoundIoErrorBackendUnavailable,
    SoundIoErrorStreaming,
    SoundIoErrorIncompatibleDevice,
    SoundIoErrorNoSuchClient,
    SoundIoErrorIncompatibleBackend,
    SoundIoErrorBackendDisconnected,
    SoundIoErrorInterrupted,
    SoundIoErrorUnderflow,
    SoundIoErrorEncodingString,
}

/// Channel positions of the transport's C interface.
#[derive(Debug, Copy, Clone, PartialEq, Eq, Structural)]
pub enum SoundIoChannelId {
    SoundIoChannelIdInvalid,
    SoundIoChannelIdFrontLeft,
    SoundIoChannelIdFrontRight,
    SoundIoChannelIdFrontCenter,
    SoundIoChannelIdLfe,
    SoundIoChannelIdBackLeft,
    SoundIoChannelIdBackRight,
    SoundIoChannelIdFrontLeftCenter,
    SoundIoChannelIdFrontRightCenter,
    SoundIoChannelIdBackCenter,
    SoundIoChannelIdSideLeft,
    SoundIoChannelIdSideRight,
    SoundIoChannelIdTopCenter,
    SoundIoChannelIdTopFrontLeft,
    SoundIoChannelIdTopFrontCenter,
    SoundIoChannelIdTopFrontRight,
    SoundIoChannelIdTopBackLeft,
    SoundIoChannelIdTopBackCenter,
    SoundIoChannelIdTopBackRight,
    SoundIoChannelIdBackLeftCenter,
    SoundIoChannelIdBackRightCenter,
    SoundIoChannelIdFrontLeftWide,
    SoundIoChannelIdFrontRightWide,
    SoundIoChannelIdFrontLeftHigh,
    SoundIoChannelIdFrontCenterHigh,
    SoundIoChannelIdFrontRightHigh,
    SoundIoChannelIdTopFrontLeftCenter,
    SoundIoChannelIdTopFrontRightCenter,
    SoundIoChannelIdTopSideLeft,
    SoundIoChannelIdTopSideRight,
    SoundIoChannelIdLeftLfe,
    SoundIoChannelIdRightLfe,
    SoundIoChannelIdLfe2,
    SoundIoChannelIdBottomCenter,
    SoundIoChannelIdBottomLeftCenter,
    SoundIoChannelIdBottomRightCenter,
    SoundIoChannelIdMsMid,
    SoundIoChannelIdMsSide,
    SoundIoChannelIdAmbisonicW,
    SoundIoChannelIdAmbisonicX,
    SoundIoChannelIdAmbisonicY,
    SoundIoChannelIdAmbisonicZ,
    SoundIoChannelIdXyX,
    SoundIoChannelIdXyY,
    SoundIoChannelIdHeadphonesLeft,
    SoundIoChannelIdHeadphonesRight,
    SoundIoChannelIdClickTrack,
    SoundIoChannelIdForeignLanguage,
    SoundIoChannelIdHearingImpaired,
    SoundIoChannelIdNarration,
    SoundIoChannelIdHaptic,
    SoundIoChannelIdDialogCentricMix,
    SoundIoChannelIdAux,
    SoundIoChannelIdAux0,
    SoundIoChannelIdAux1,
    SoundIoChannelIdAux2,
    SoundIoChannelIdAux3,
    SoundIoChannelIdAux4,
    SoundIoChannelIdAux5,
    SoundIoChannelIdAux6,
    SoundIoChannelIdAux7,
    SoundIoChannelIdAux8,
    SoundIoChannelIdAux9,
    SoundIoChannelIdAux10,
    SoundIoChannelIdAux11,
    SoundIoChannelIdAux12,
    SoundIoChannelIdAux13,
    SoundIoChannelIdAux14,
    SoundIoChannelIdAux15,
}

/// Built-in channel layouts of the transport's C interface.
#[derive(Debug, Copy, Clone, PartialEq, Eq, Structural)]
pub enum SoundIoChannelLayoutId {
    SoundIoChannelLayoutIdMono,
    SoundIoChannelLayoutIdStereo,
    SoundIoChannelLayoutId2Point1,
    SoundIoChannelLayoutId3Point0,
    SoundIoChannelLayoutId3Point0Back,
    SoundIoChannelLayoutId3Point1,
    SoundIoChannelLayoutId4Point0,
    SoundIoChannelLayoutIdQuad,
    SoundIoChannelLayoutIdQuadSide,
    SoundIoChannelLayoutId4Point1,
    SoundIoChannelLayoutId5Point0Back,
    SoundIoChannelLayoutId5Point0Side,
    SoundIoChannelLayoutId5Point1,
    SoundIoChannelLayoutId5Point1Back,
    SoundIoChannelLayoutId6Point0Side,
    SoundIoChannelLayoutId6Point0Front,
    SoundIoChannelLayoutIdHexagonal,
    SoundIoChannelLayoutId6Point1,
    SoundIoChannelLayoutId6Point1Back,
    SoundIoChannelLayoutId6Point1Front,
    SoundIoChannelLayoutId7Point0,
    SoundIoChannelLayoutId7Point0Front,
    SoundIoChannelLayoutId7Point1,
    SoundIoChannelLayoutId7Point1Wide,
    SoundIoChannelLayoutId7Point1WideBack,
    SoundIoChannelLayoutIdOctagonal,
}

/// Audio backends of the transport's C interface.
#[derive(Debug, Copy, Clone, PartialEq, Eq, Structural)]
pub enum SoundIoBackend {
    SoundIoBackendNone,
    SoundIoBackendJack,
    SoundIoBackendPulseAudio,
    SoundIoBackendAlsa,
    SoundIoBackendCoreAudio,
    SoundIoBackendWasapi,
    SoundIoBackendDummy,
}

/// Device directions of the transport's C interface.
#[derive(Debug, Copy, Clone, PartialEq, Eq, Structural)]
pub enum SoundIoDeviceAim {
    SoundIoDeviceAimInput,
    SoundIoDeviceAimOutput,
}

/// Sample formats of the transport's C interface.
#[derive(Debug, Copy, Clone, PartialEq, Eq, Structural)]
pub enum SoundIoFormat {
    SoundIoFormatInvalid,
    SoundIoFormatS8,
    SoundIoFormatU8,
    SoundIoFormatS16LE,
    SoundIoFormatS16BE,
    SoundIoFormatU16LE,
    SoundIoFormatU16BE,
    SoundIoFormatS24LE,
    SoundIoFormatS24BE,
    SoundIoFormatU24LE,
    SoundIoFormatU24BE,
    SoundIoFormatS32LE,
    SoundIoFormatS32BE,
    SoundIoFormatU32LE,
    SoundIoFormatU32BE,
    SoundIoFormatFloat32LE,
    SoundIoFormatFloat32BE,
    SoundIoFormatFloat64LE,
    SoundIoFormatFloat64BE,
}

impl SoundIoError {
    /// The value of the constant in the C interface: its position.
    pub open spec fn code_spec(self) -> u32 {
        match self {
            SoundIoError::SoundIoErrorNone => 0,
            SoundIoError::SoundIoErrorNoMem => 1,
            SoundIoError::SoundIoErrorInitAudioBackend => 2,
            SoundIoError::SoundIoErrorSystemResources => 3,
            SoundIoError::SoundIoErrorOpeningDevice => 4,
            SoundIoError::SoundIoErrorNoSuchDevice => 5,
            SoundIoError::SoundIoErrorInvalid => 6,
            SoundIoError::SoundIoErrorBackendUnavailable => 7,
            SoundIoError::SoundIoErrorStreaming => 8,
            SoundIoError::SoundIoErrorIncompatibleDevice => 9,
            SoundIoError::SoundIoErrorNoSuchClient => 10,
            SoundIoError::SoundIoErrorIncompatibleBackend => 11,
            SoundIoError::SoundIoErrorBackendDisconnected => 12,
            SoundIoError::SoundIoErrorInterrupted => 13,
            SoundIoError::SoundIoErrorUnderflow => 14,
            SoundIoError::SoundIoErrorEncodingString => 15,
        }
    }

    /// The value of the constant in the C interface.
    pub fn code(self) -> (r: u32)
        ensures
            r == self.code_spec(),
    {
        match self {
            SoundIoError::SoundIoErrorNone => 0,
            SoundIoError::SoundIoErrorNoMem => 1,
            SoundIoError::SoundIoErrorInitAudioBackend => 2,
            SoundIoError::SoundIoErrorSystemResources => 3,
            SoundIoError::SoundIoErrorOpeningDevice => 4,
            SoundIoError::SoundIoErrorNoSuchDevice => 5,
            SoundIoError::SoundIoErrorInvalid => 6,
            SoundIoError::SoundIoErrorBackendUnavailable => 7,
            SoundIoError::SoundIoErrorStreaming => 8,
            SoundIoError::SoundIoErrorIncompatibleDevice => 9,
            SoundIoError::SoundIoErrorNoSuchClient => 10,
            SoundIoError::SoundIoErrorIncompatibleBackend => 11,
            SoundIoError::SoundIoErrorBackendDisconnected => 12,
            SoundIoError::SoundIoErrorInterrupted => 13,
            SoundIoError::SoundIoErrorUnderflow => 14,
            SoundIoError::SoundIoErrorEncodingString => 15,
        }
    }

    /// The constant with C value `c`, if there is one.
    pub fn from_code(c: u32) -> (r: Option<SoundIoError>)
        ensures
            r is None <==> c >= 16,
            r matches Some(v) ==> v.code_spec() == c,
    {
        match c {
            0 => Some(SoundIoError::SoundIoErrorNone),
            1 => Some(SoundIoError::SoundIoErrorNoMem),
            2 => Some(SoundIoError::SoundIoErrorInitAudioBackend),
            3 => Some(SoundIoError::SoundIoErrorSystemResources),
            4 => Some(SoundIoError::SoundIoErrorOpeningDevice),
            5 => Some(SoundIoError::SoundIoErrorNoSuchDevice),
            6 => Some(SoundIoError::SoundIoErrorInvalid),
            7 => Some(SoundIoError::SoundIoErrorBackendUnavailable),
            8 => Some(SoundIoError::SoundIoErrorStreaming),
            9 => Some(SoundIoError::SoundIoErrorIncompatibleDevice),
            10 => Some(SoundIoError::SoundIoErrorNoSuchClient),
            11 => Some(SoundIoError::SoundIoErrorIncompatibleBackend),
            12 => Some(SoundIoError::SoundIoErrorBackendDisconnected),
            13 => Some(SoundIoError::SoundIoErrorInterrupted),
            14 => Some(SoundIoError::SoundIoErrorUnderflow),
            15 => Some(SoundIoError::SoundIoErrorEncodingString),
            _ => None,
        }
    }
}

impl SoundIoChannelId {
    /// The value of the constant in the C interface: its position.
    pub open spec fn code_spec(self) -> u32 {
        match self {
            SoundIoChannelId::SoundIoChannelIdInvalid => 0,
            SoundIoChannelId::SoundIoChannelIdFrontLeft => 1,
            SoundIoChannelId::SoundIoChannelIdFrontRight => 2,
            SoundIoChannelId::SoundIoChannelIdFrontCenter => 3,
            SoundIoChannelId::SoundIoChannelIdLfe => 4,
            SoundIoChannelId::SoundIoChannelIdBackLeft => 5,
            SoundIoChannelId::SoundIoChannelIdBackRight => 6,
            SoundIoChannelId::SoundIoChannelIdFrontLeftCenter => 7,
            SoundIoChannelId::SoundIoChannelIdFrontRightCenter => 8,
            SoundIoChannelId::SoundIoChannelIdBackCenter => 9,
            SoundIoChannelId::SoundIoChannelIdSideLeft => 10,
            SoundIoChannelId::SoundIoChannelIdSideRight => 11,
            SoundIoChannelId::SoundIoChannelIdTopCenter => 12,
            SoundIoChannelId::SoundIoChannelIdTopFrontLeft => 13,
            SoundIoChannelId::SoundIoChannelIdTopFrontCenter => 14,
            SoundIoChannelId::SoundIoChannelIdTopFrontRight => 15,
            SoundIoChannelId::SoundIoChannelIdTopBackLeft => 16,
            SoundIoChannelId::SoundIoChannelIdTopBackCenter => 17,
            SoundIoChannelId::SoundIoChannelIdTopBackRight => 18,
            SoundIoChannelId::SoundIoChannelIdBackLeftCenter => 19,
            SoundIoChannelId::SoundIoChannelIdBackRightCenter => 20,
            SoundIoChannelId::SoundIoChannelIdFrontLeftWide => 21,
            SoundIoChannelId::SoundIoChannelIdFrontRightWide => 22,
            SoundIoChannelId::SoundIoChannelIdFrontLeftHigh => 23,
            SoundIoChannelId::SoundIoChannelIdFrontCenterHigh => 24,
            SoundIoChannelId::SoundIoChannelIdFrontRightHigh => 25,
            SoundIoChannelId::SoundIoChannelIdTopFrontLeftCenter => 26,
            SoundIoChannelId::SoundIoChannelIdTopFrontRightCenter => 27,
            SoundIoChannelId::SoundIoChannelIdTopSideLeft => 28,
            SoundIoChannelId::SoundIoChannelIdTopSideRight => 29,
            SoundIoChannelId::SoundIoChannelIdLeftLfe => 30,
            SoundIoChannelId::SoundIoChannelIdRightLfe => 31,
            SoundIoChannelId::SoundIoChannelIdLfe2 => 32,
            SoundIoChannelId::SoundIoChannelIdBottomCenter => 33,
            SoundIoChannelId::SoundIoChannelIdBottomLeftCenter => 34,
            SoundIoChannelId::SoundIoChannelIdBottomRightCenter => 35,
            SoundIoChannelId::SoundIoChannelIdMsMid => 36,
            SoundIoChannelId::SoundIoChannelIdMsSide => 37,
            SoundIoChannelId::SoundIoChannelIdAmbisonicW => 38,
            SoundIoChannelId::SoundIoChannelIdAmbisonicX => 39,
            SoundIoChannelId::SoundIoChannelIdAmbisonicY => 40,
            SoundIoChannelId::SoundIoChannelIdAmbisonicZ => 41,
            SoundIoChannelId::SoundIoChannelIdXyX => 42,
            SoundIoChannelId::SoundIoChannelIdXyY => 43,
            SoundIoChannelId::SoundIoChannelIdHeadphonesLeft => 44,
            SoundIoChannelId::SoundIoChannelIdHeadphonesRight => 45,
            SoundIoChannelId::SoundIoChannelIdClickTrack => 46,
            SoundIoChannelId::SoundIoChannelIdForeignLanguage => 47,
            SoundIoChannelId::SoundIoChannelIdHearingImpaired => 48,
            SoundIoChannelId::SoundIoChannelIdNarration => 49,
            SoundIoChannelId::SoundIoChannelIdHaptic => 50,
            SoundIoChannelId::SoundIoChannelIdDialogCentricMix => 51,
            SoundIoChannelId::SoundIoChannelIdAux => 52,
            SoundIoChannelId::SoundIoChannelIdAux0 => 53,
            SoundIoChannelId::SoundIoChannelIdAux1 => 54,
            SoundIoChannelId::SoundIoChannelIdAux2 => 55,
            SoundIoChannelId::SoundIoChannelIdAux3 => 56,
            SoundIoChannelId::SoundIoChannelIdAux4 => 57,
            SoundIoChannelId::SoundIoChannelIdAux5 => 58,
            SoundIoChannelId::SoundIoChannelIdAux6 => 59,
            SoundIoChannelId::SoundIoChannelIdAux7 => 60,
            SoundIoChannelId::SoundIoChannelIdAux8 => 61,
            SoundIoChannelId::SoundIoChannelIdAux9 => 62,
            SoundIoChannelId::SoundIoChannelIdAux10 => 63,
            SoundIoChannelId::SoundIoChannelIdAux11 => 64,
            SoundIoChannelId::SoundIoChannelIdAux12 => 65,
            SoundIoChannelId::SoundIoChannelIdAux13 => 66,
            SoundIoChannelId::SoundIoChannelIdAux14 => 67,
            SoundIoChannelId::SoundIoChannelIdAux15 => 68,
        }
    }

    /// The value of the constant in the C interface.
    pub fn code(self) -> (r: u32)
        ensures
            r == self.code_spec(),
    {
        match self {
            SoundIoChannelId::SoundIoChannelIdInvalid => 0,
            SoundIoChannelId::SoundIoChannelIdFrontLeft => 1,
            SoundIoChannelId::SoundIoChannelIdFrontRight => 2,
            SoundIoChannelId::SoundIoChannelIdFrontCenter => 3,
            SoundIoChannelId::SoundIoChannelIdLfe => 4,
            SoundIoChannelId::SoundIoChannelIdBackLeft => 5,
            SoundIoChannelId::SoundIoChannelIdBackRight => 6,
            SoundIoChannelId::SoundIoChannelIdFrontLeftCenter => 7,
            SoundIoChannelId::SoundIoChannelIdFrontRightCenter => 8,
            SoundIoChannelId::SoundIoChannelIdBackCenter => 9,
            SoundIoChannelId::SoundIoChannelIdSideLeft => 10,
            SoundIoChannelId::SoundIoChannelIdSideRight => 11,
            SoundIoChannelId::SoundIoChannelIdTopCenter => 12,
            SoundIoChannelId::SoundIoChannelIdTopFrontLeft => 13,
            SoundIoChannelId::SoundIoChannelIdTopFrontCenter => 14,
            SoundIoChannelId::SoundIoChannelIdTopFrontRight => 15,
            SoundIoChannelId::SoundIoChannelIdTopBackLeft => 16,
            SoundIoChannelId::SoundIoChannelIdTopBackCenter => 17,
            SoundIoChannelId::SoundIoChannelIdTopBackRight => 18,
            SoundIoChannelId::SoundIoChannelIdBackLeftCenter => 19,
            SoundIoChannelId::SoundIoChannelIdBackRightCenter => 20,
            SoundIoChannelId::SoundIoChannelIdFrontLeftWide => 21,
            SoundIoChannelId::SoundIoChannelIdFrontRightWide => 22,
            SoundIoChannelId::SoundIoChannelIdFrontLeftHigh => 23,
            SoundIoChannelId::SoundIoChannelIdFrontCenterHigh => 24,
            SoundIoChannelId::SoundIoChannelIdFrontRightHigh => 25,
            SoundIoChannelId::SoundIoChannelIdTopFrontLeftCenter => 26,
            SoundIoChannelId::SoundIoChannelIdTopFrontRightCenter => 27,
            SoundIoChannelId::SoundIoChannelIdTopSideLeft => 28,
            SoundIoChannelId::SoundIoChannelIdTopSideRight => 29,
            SoundIoChannelId::SoundIoChannelIdLeftLfe => 30,
            SoundIoChannelId::SoundIoChannelIdRightLfe => 31,
            SoundIoChannelId::SoundIoChannelIdLfe2 => 32,
            SoundIoChannelId::SoundIoChannelIdBottomCenter => 33,
            SoundIoChannelId::SoundIoChannelIdBottomLeftCenter => 34,
            SoundIoChannelId::SoundIoChannelIdBottomRightCenter => 35,
            SoundIoChannelId::SoundIoChannelIdMsMid => 36,
            SoundIoChannelId::SoundIoChannelIdMsSide => 37,
            SoundIoChannelId::SoundIoChannelIdAmbisonicW => 38,
            SoundIoChannelId::SoundIoChannelIdAmbisonicX => 39,
            SoundIoChannelId::SoundIoChannelIdAmbisonicY => 40,
            SoundIoChannelId::SoundIoChannelIdAmbisonicZ => 41,
            SoundIoChannelId::SoundIoChannelIdXyX => 42,
            SoundIoChannelId::SoundIoChannelIdXyY => 43,
            SoundIoChannelId::SoundIoChannelIdHeadphonesLeft => 44,
            SoundIoChannelId::SoundIoChannelIdHeadphonesRight => 45,
            SoundIoChannelId::SoundIoChannelIdClickTrack => 46,
            SoundIoChannelId::SoundIoChannelIdForeignLanguage => 47,
            SoundIoChannelId::SoundIoChannelIdHearingImpaired => 48,
            SoundIoChannelId::SoundIoChannelIdNarration => 49,
            SoundIoChannelId::SoundIoChannelIdHaptic => 50,
            SoundIoChannelId::SoundIoChannelIdDialogCentricMix => 51,
            SoundIoChannelId::SoundIoChannelIdAux => 52,
            SoundIoChannelId::SoundIoChannelIdAux0 => 53,
            SoundIoChannelId::SoundIoChannelIdAux1 => 54,
            SoundIoChannelId::SoundIoChannelIdAux2 => 55,
            SoundIoChannelId::SoundIoChannelIdAux3 => 56,
            SoundIoChannelId::SoundIoChannelIdAux4 => 57,
            SoundIoChannelId::SoundIoChannelIdAux5 => 58,
            SoundIoChannelId::SoundIoChannelIdAux6 => 59,
            SoundIoChannelId::SoundIoChannelIdAux7 => 60,
            SoundIoChannelId::SoundIoChannelIdAux8 => 61,
            SoundIoChannelId::SoundIoChannelIdAux9 => 62,
            SoundIoChannelId::SoundIoChannelIdAux10 => 63,
            SoundIoChannelId::SoundIoChannelIdAux11 => 64,
            SoundIoChannelId::SoundIoChannelIdAux12 => 65,
            SoundIoChannelId::SoundIoChannelIdAux13 => 66,
            SoundIoChannelId::SoundIoChannelIdAux14 => 67,
            SoundIoChannelId::SoundIoChannelIdAux15 => 68,
        }
    }

    /// The constant with C value `c`, if there is one.
    pub fn from_code(c: u32) -> (r: Option<SoundIoChannelId>)
        ensures
            r is None <==> c >= 69,
            r matches Some(v) ==> v.code_spec() == c,
    {
        match c {
            0 => Some(SoundIoChannelId::SoundIoChannelIdInvalid),
            1 => Some(SoundIoChannelId::SoundIoChannelIdFrontLeft),
            2 => Some(SoundIoChannelId::SoundIoChannelIdFrontRight),
            3 => Some(SoundIoChannelId::SoundIoChannelIdFrontCenter),
            4 => Some(SoundIoChannelId::SoundIoChannelIdLfe),
            5 => Some(SoundIoChannelId::SoundIoChannelIdBackLeft),
            6 => Some(SoundIoChannelId::SoundIoChannelIdBackRight),
            7 => Some(SoundIoChannelId::SoundIoChannelIdFrontLeftCenter),
            8 => Some(SoundIoChannelId::SoundIoChannelIdFrontRightCenter),
            9 => Some(SoundIoChannelId::SoundIoChannelIdBackCenter),
            10 => Some(SoundIoChannelId::SoundIoChannelIdSideLeft),
            11 => Some(SoundIoChannelId::SoundIoChannelIdSideRight),
            12 => Some(SoundIoChannelId::SoundIoChannelIdTopCenter),
            13 => Some(SoundIoChannelId::SoundIoChannelIdTopFrontLeft),
            14 => Some(SoundIoChannelId::SoundIoChannelIdTopFrontCenter),
            15 => Some(SoundIoChannelId::SoundIoChannelIdTopFrontRight),
            16 => Some(SoundIoChannelId::SoundIoChannelIdTopBackLeft),
            17 => Some(SoundIoChannelId::SoundIoChannelIdTopBackCenter),
            18 => Some(SoundIoChannelId::SoundIoChannelIdTopBackRight),
            19 => Some(SoundIoChannelId::SoundIoChannelIdBackLeftCenter),
            20 => Some(SoundIoChannelId::SoundIoChannelIdBackRightCenter),
            21 => Some(SoundIoChannelId::SoundIoChannelIdFrontLeftWide),
            22 => Some(SoundIoChannelId::SoundIoChannelIdFrontRightWide),
            23 => Some(SoundIoChannelId::SoundIoChannelIdFrontLeftHigh),
            24 => Some(SoundIoChannelId::SoundIoChannelIdFrontCenterHigh),
            25 => Some(SoundIoChannelId::SoundIoChannelIdFrontRightHigh),
            26 => Some(SoundIoChannelId::SoundIoChannelIdTopFrontLeftCenter),
            27 => Some(SoundIoChannelId::SoundIoChannelIdTopFrontRightCenter),
            28 => Some(SoundIoChannelId::SoundIoChannelIdTopSideLeft),
            29 => Some(SoundIoChannelId::SoundIoChannelIdTopSideRight),
            30 => Some(SoundIoChannelId::SoundIoChannelIdLeftLfe),
            31 => Some(SoundIoChannelId::SoundIoChannelIdRightLfe),
            32 => Some(SoundIoChannelId::SoundIoChannelIdLfe2),
            33 => Some(SoundIoChannelId::SoundIoChannelIdBottomCenter),
            34 => Some(SoundIoChannelId::SoundIoChannelIdBottomLeftCenter),
            35 => Some(SoundIoChannelId::SoundIoChannelIdBottomRightCenter),
            36 => Some(SoundIoChannelId::SoundIoChannelIdMsMid),
            37 => Some(SoundIoChannelId::SoundIoChannelIdMsSide),
            38 => Some(SoundIoChannelId::SoundIoChannelIdAmbisonicW),
            39 => Some(SoundIoChannelId::SoundIoChannelIdAmbisonicX),
            40 => Some(SoundIoChannelId::SoundIoChannelIdAmbisonicY),
            41 => Some(SoundIoChannelId::SoundIoChannelIdAmbisonicZ),
            42 => Some(SoundIoChannelId::SoundIoChannelIdXyX),
            43 => Some(SoundIoChannelId::SoundIoChannelIdXyY),
            44 => Some(SoundIoChannelId::SoundIoChannelIdHeadphonesLeft),
            45 => Some(SoundIoChannelId::SoundIoChannelIdHeadphonesRight),
            46 => Some(SoundIoChannelId::SoundIoChannelIdClickTrack),
            47 => Some(SoundIoChannelId::SoundIoChannelIdForeignLanguage),
            48 => Some(SoundIoChannelId::SoundIoChannelIdHearingImpaired),
            49 => Some(SoundIoChannelId::SoundIoChannelIdNarration),
            50 => Some(SoundIoChannelId::SoundIoChannelIdHaptic),
            51 => Some(SoundIoChannelId::SoundIoChannelIdDialogCentricMix),
            52 => Some(SoundIoChannelId::SoundIoChannelIdAux),
            53 => Some(SoundIoChannelId::SoundIoChannelIdAux0),
            54 => Some(SoundIoChannelId::SoundIoChannelIdAux1),
            55 => Some(SoundIoChannelId::SoundIoChannelIdAux2),
            56 => Some(SoundIoChannelId::SoundIoChannelIdAux3),
            57 => Some(SoundIoChannelId::SoundIoChannelIdAux4),
            58 => Some(SoundIoChannelId::SoundIoChannelIdAux5),
            59 => Some(SoundIoChannelId::SoundIoChannelIdAux6),
            60 => Some(SoundIoChannelId::SoundIoChannelIdAux7),
            61 => Some(SoundIoChannelId::SoundIoChannelIdAux8),
            62 => Some(SoundIoChannelId::SoundIoChannelIdAux9),
            63 => Some(SoundIoChannelId::SoundIoChannelIdAux10),
            64 => Some(SoundIoChannelId::SoundIoChannelIdAux11),
            65 => Some(SoundIoChannelId::SoundIoChannelIdAux12),
            66 => Some(SoundIoChannelId::SoundIoChannelIdAux13),
            67 => Some(SoundIoChannelId::SoundIoChannelIdAux14),
            68 => Some(SoundIoChannelId::SoundIoChannelIdAux15),
            _ => None,
        }
    }
}

impl SoundIoChannelLayoutId {
    /// The value of the constant in the C interface: its position.
    pub open spec fn code_spec(self) -> u32 {
        match self {
            SoundIoChannelLayoutId::SoundIoChannelLayoutIdMono => 0,
            SoundIoChannelLayoutId::SoundIoChannelLayoutIdStereo => 1,
            SoundIoChannelLayoutId::SoundIoChannelLayoutId2Point1 => 2,
            SoundIoChannelLayoutId::SoundIoChannelLayoutId3Point0 => 3,
            SoundIoChannelLayoutId::SoundIoChannelLayoutId3Point0Back => 4,
            SoundIoChannelLayoutId::SoundIoChannelLayoutId3Point1 => 5,
            SoundIoChannelLayoutId::SoundIoChannelLayoutId4Point0 => 6,
            SoundIoChannelLayoutId::SoundIoChannelLayoutIdQuad => 7,
            SoundIoChannelLayoutId::SoundIoChannelLayoutIdQuadSide => 8,
            SoundIoChannelLayoutId::SoundIoChannelLayoutId4Point1 => 9,
            SoundIoChannelLayoutId::SoundIoChannelLayoutId5Point0Back => 10,
            SoundIoChannelLayoutId::SoundIoChannelLayoutId5Point0Side => 11,
            SoundIoChannelLayoutId::SoundIoChannelLayoutId5Point1 => 12,
            SoundIoChannelLayoutId::SoundIoChannelLayoutId5Point1Back => 13,
            SoundIoChannelLayoutId::SoundIoChannelLayoutId6Point0Side => 14,
            SoundIoChannelLayoutId::SoundIoChannelLayoutId6Point0Front => 15,
            SoundIoChannelLayoutId::SoundIoChannelLayoutIdHexagonal => 16,
            SoundIoChannelLayoutId::SoundIoChannelLayoutId6Point1 => 17,
            SoundIoChannelLayoutId::SoundIoChannelLayoutId6Point1Back => 18,
            SoundIoChannelLayoutId::SoundIoChannelLayoutId6Point1Front => 19,
            SoundIoChannelLayoutId::SoundIoChannelLayoutId7Point0 => 20,
            SoundIoChannelLayoutId::SoundIoChannelLayoutId7Point0Front => 21,
            SoundIoChannelLayoutId::SoundIoChannelLayoutId7Point1 => 22,
            SoundIoChannelLayoutId::SoundIoChannelLayoutId7Point1Wide => 23,
            SoundIoChannelLayoutId::SoundIoChannelLayoutId7Point1WideBack => 24,
            SoundIoChannelLayoutId::SoundIoChannelLayoutIdOctagonal => 25,
        }
    }

    /// The value of the constant in the C interface.
    pub fn code(self) -> (r: u32)
        ensures
            r == self.code_spec(),
    {
        match self {
            SoundIoChannelLayoutId::SoundIoChannelLayoutIdMono => 0,
            SoundIoChannelLayoutId::SoundIoChannelLayoutIdStereo => 1,
            SoundIoChannelLayoutId::SoundIoChannelLayoutId2Point1 => 2,
            SoundIoChannelLayoutId::SoundIoChannelLayoutId3Point0 => 3,
            SoundIoChannelLayoutId::SoundIoChannelLayoutId3Point0Back => 4,
            SoundIoChannelLayoutId::SoundIoChannelLayoutId3Point1 => 5,
            SoundIoChannelLayoutId::SoundIoChannelLayoutId4Point0 => 6,
            SoundIoChannelLayoutId::SoundIoChannelLayoutIdQuad => 7,
            SoundIoChannelLayoutId::SoundIoChannelLayoutIdQuadSide => 8,
            SoundIoChannelLayoutId::SoundIoChannelLayoutId4Point1 => 9,
            SoundIoChannelLayoutId::SoundIoChannelLayoutId5Point0Back => 10,
            SoundIoChannelLayoutId::SoundIoChannelLayoutId5Point0Side => 11,
            SoundIoChannelLayoutId::SoundIoChannelLayoutId5Point1 => 12,
            SoundIoChannelLayoutId::SoundIoChannelLayoutId5Point1Back => 13,
            SoundIoChannelLayoutId::SoundIoChannelLayoutId6Point0Side => 14,
            SoundIoChannelLayoutId::SoundIoChannelLayoutId6Point0Front => 15,
            SoundIoChannelLayoutId::SoundIoChannelLayoutIdHexagonal => 16,
            SoundIoChannelLayoutId::SoundIoChannelLayoutId6Point1 => 17,
            SoundIoChannelLayoutId::SoundIoChannelLayoutId6Point1Back => 18,
            SoundIoChannelLayoutId::SoundIoChannelLayoutId6Point1Front => 19,
            SoundIoChannelLayoutId::SoundIoChannelLayoutId7Point0 => 20,
            SoundIoChannelLayoutId::SoundIoChannelLayoutId7Point0Front => 21,
            SoundIoChannelLayoutId::SoundIoChannelLayoutId7Point1 => 22,
            SoundIoChannelLayoutId::SoundIoChannelLayoutId7Point1Wide => 23,
            SoundIoChannelLayoutId::SoundIoChannelLayoutId7Point1WideBack => 24,
            SoundIoChannelLayoutId::SoundIoChannelLayoutIdOctagonal => 25,
        }
    }

    /// The constant with C value `c`, if there is one.
    pub fn from_code(c: u32) -> (r: Option<SoundIoChannelLayoutId>)
        ensures
            r is None <==> c >= 26,
            r matches Some(v) ==> v.code_spec() == c,
    {
        match c {
            0 => Some(SoundIoChannelLayoutId::SoundIoChannelLayoutIdMono),
            1 => Some(SoundIoChannelLayoutId::SoundIoChannelLayoutIdStereo),
            2 => Some(SoundIoChannelLayoutId::SoundIoChannelLayoutId2Point1),
            3 => Some(SoundIoChannelLayoutId::SoundIoChannelLayoutId3Point0),
            4 => Some(SoundIoChannelLayoutId::SoundIoChannelLayoutId3Point0Back),
            5 => Some(SoundIoChannelLayoutId::SoundIoChannelLayoutId3Point1),
            6 => Some(SoundIoChannelLayoutId::SoundIoChannelLayoutId4Point0),
            7 => Some(SoundIoChannelLayoutId::SoundIoChannelLayoutIdQuad),
            8 => Some(SoundIoChannelLayoutId::SoundIoChannelLayoutIdQuadSide),
            9 => Some(SoundIoChannelLayoutId::SoundIoChannelLayoutId4Point1),
            10 => Some(SoundIoChannelLayoutId::SoundIoChannelLayoutId5Point0Back),
            11 => Some(SoundIoChannelLayoutId::SoundIoChannelLayoutId5Point0Side),
            12 => Some(SoundIoChannelLayoutId::SoundIoChannelLayoutId5Point1),
            13 => Some(SoundIoChannelLayoutId::SoundIoChannelLayoutId5Point1Back),
            14 => Some(SoundIoChannelLayoutId::SoundIoChannelLayoutId6Point0Side),
            15 => Some(SoundIoChannelLayoutId::SoundIoChannelLayoutId6Point0Front),
            16 => Some(SoundIoChannelLayoutId::SoundIoChannelLayoutIdHexagonal),
            17 => Some(SoundIoChannelLayoutId::SoundIoChannelLayoutId6Point1),
            18 => Some(SoundIoChannelLayoutId::SoundIoChannelLayoutId6Point1Back),
            19 => Some(SoundIoChannelLayoutId::SoundIoChannelLayoutId6Point1Front),
            20 => Some(SoundIoChannelLayoutId::SoundIoChannelLayoutId7Point0),
            21 => Some(SoundIoChannelLayoutId::SoundIoChannelLayoutId7Point0Front),
            22 => Some(SoundIoChannelLayoutId::SoundIoChannelLayoutId7Point1),
            23 => Some(SoundIoChannelLayoutId::SoundIoChannelLayoutId7Point1Wide),
            24 => Some(SoundIoChannelLayoutId::SoundIoChannelLayoutId7Point1WideBack),
            25 => Some(SoundIoChannelLayoutId::SoundIoChannelLayoutIdOctagonal),
            _ => None,
        }
    }
}

impl SoundIoBackend {
    /// The value of the constant in the C interface: its position.
    pub open spec fn code_spec(self) -> u32 {
        match self {
            SoundIoBackend::SoundIoBackendNone => 0,
            SoundIoBackend::SoundIoBackendJack => 1,
            SoundIoBackend::SoundIoBackendPulseAudio => 2,
            SoundIoBackend::SoundIoBackendAlsa => 3,
            SoundIoBackend::SoundIoBackendCoreAudio => 4,
            SoundIoBackend::SoundIoBackendWasapi => 5,
            SoundIoBackend::SoundIoBackendDummy => 6,
        }
    }

    /// The value of the constant in the C interface.
    pub fn code(self) -> (r: u32)
        ensures
            r == self.code_spec(),
    {
        match self {
            SoundIoBackend::SoundIoBackendNone => 0,
            SoundIoBackend::SoundIoBackendJack => 1,
            SoundIoBackend::SoundIoBackendPulseAudio => 2,
            SoundIoBackend::SoundIoBackendAlsa => 3,
            SoundIoBackend::SoundIoBackendCoreAudio => 4,
            SoundIoBackend::SoundIoBackendWasapi => 5,
            SoundIoBackend::SoundIoBackendDummy => 6,
        }
    }

    /// The constant with C value `c`, if there is one.
    pub fn from_code(c: u32) -> (r: Option<SoundIoBackend>)
        ensures
            r is None <==> c >= 7,
            r matches Some(v) ==> v.code_spec() == c,
    {
        match c {
            0 => Some(SoundIoBackend::SoundIoBackendNone),
            1 => Some(SoundIoBackend::SoundIoBackendJack),
            2 => Some(SoundIoBackend::SoundIoBackendPulseAudio),
            3 => Some(SoundIoBackend::SoundIoBackendAlsa),
            4 => Some(SoundIoBackend::SoundIoBackendCoreAudio),
            5 => Some(SoundIoBackend::SoundIoBackendWasapi),
            6 => Some(SoundIoBackend::SoundIoBackendDummy),
            _ => None,
        }
    }
}

impl SoundIoDeviceAim {
    /// The value of the constant in the C interface: its position.
    pub open spec fn code_spec(self) -> u32 {
        match self {
            SoundIoDeviceAim::SoundIoDeviceAimInput => 0,
            SoundIoDeviceAim::SoundIoDeviceAimOutput => 1,
        }
    }

    /// The value of the constant in the C interface.
    pub fn code(self) -> (r: u32)
        ensures
            r == self.code_spec(),
    {
        match self {
            SoundIoDeviceAim::SoundIoDeviceAimInput => 0,
            SoundIoDeviceAim::SoundIoDeviceAimOutput => 1,
        }
    }

    /// The constant with C value `c`, if there is one.
    pub fn from_code(c: u32) -> (r: Option<SoundIoDeviceAim>)
        ensures
            r is None <==> c >= 2,
            r matches Some(v) ==> v.code_spec() == c,
    {
        match c {
            0 => Some(SoundIoDeviceAim::SoundIoDeviceAimInput),
            1 => Some(SoundIoDeviceAim::SoundIoDeviceAimOutput),
            _ => None,
        }
    }
}

impl SoundIoFormat {
    /// The value of the constant in the C interface: its position.
    pub open spec fn code_spec(self) -> u32 {
        match self {
            SoundIoFormat::SoundIoFormatInvalid => 0,
            SoundIoFormat::SoundIoFormatS8 => 1,
            SoundIoFormat::SoundIoFormatU8 => 2,
            SoundIoFormat::SoundIoFormatS16LE => 3,
            SoundIoFormat::SoundIoFormatS16BE => 4,
            SoundIoFormat::SoundIoFormatU16LE => 5,
            SoundIoFormat::SoundIoFormatU16BE => 6,
            SoundIoFormat::SoundIoFormatS24LE => 7,
            SoundIoFormat::SoundIoFormatS24BE => 8,
            SoundIoFormat::SoundIoFormatU24LE => 9,
            SoundIoFormat::SoundIoFormatU24BE => 10,
            SoundIoFormat::SoundIoFormatS32LE => 11,
            SoundIoFormat::SoundIoFormatS32BE => 12,
            SoundIoFormat::SoundIoFormatU32LE => 13,
            SoundIoFormat::SoundIoFormatU32BE => 14,
            SoundIoFormat::SoundIoFormatFloat32LE => 15,
            SoundIoFormat::SoundIoFormatFloat32BE => 16,
            SoundIoFormat::SoundIoFormatFloat64LE => 17,
            SoundIoFormat::SoundIoFormatFloat64BE => 18,
        }
    }

    /// The value of the constant in the C interface.
    pub fn code(self) -> (r: u32)
        ensures
            r == self.code_spec(),
    {
        match self {
            SoundIoFormat::SoundIoFormatInvalid => 0,
            SoundIoFormat::SoundIoFormatS8 => 1,
            SoundIoFormat::SoundIoFormatU8 => 2,
            SoundIoFormat::SoundIoFormatS16LE => 3,
            SoundIoFormat::SoundIoFormatS16BE => 4,
            SoundIoFormat::SoundIoFormatU16LE => 5,
            SoundIoFormat::SoundIoFormatU16BE => 6,
            SoundIoFormat::SoundIoFormatS24LE => 7,
            SoundIoFormat::SoundIoFormatS24BE => 8,
            SoundIoFormat::SoundIoFormatU24LE => 9,
            SoundIoFormat::SoundIoFormatU24BE => 10,
            SoundIoFormat::SoundIoFormatS32LE => 11,
            SoundIoFormat::SoundIoFormatS32BE => 12,
            SoundIoFormat::SoundIoFormatU32LE => 13,
            SoundIoFormat::SoundIoFormatU32BE => 14,
            SoundIoFormat::SoundIoFormatFloat32LE => 15,
            SoundIoFormat::SoundIoFormatFloat32BE => 16,
            SoundIoFormat::SoundIoFormatFloat64LE => 17,
            SoundIoFormat::SoundIoFormatFloat64BE => 18,
        }
    }

    /// The constant with C value `c`, if there is one.
    pub fn from_code(c: u32) -> (r: Option<SoundIoFormat>)
        ensures
            r is None <==> c >= 19,
            r matches Some(v) ==> v.code_spec() == c,
    {
        match c {
            0 => Some(SoundIoFormat::SoundIoFormatInvalid),
            1 => Some(SoundIoFormat::SoundIoFormatS8),
            2 => Some(SoundIoFormat::SoundIoFormatU8),
            3 => Some(SoundIoFormat::SoundIoFormatS16LE),
            4 => Some(SoundIoFormat::SoundIoFormatS16BE),
            5 => Some(SoundIoFormat::SoundIoFormatU16LE),
            6 => Some(SoundIoFormat::SoundIoFormatU16BE),
            7 => Some(SoundIoFormat::SoundIoFormatS24LE),
            8 => Some(SoundIoFormat::SoundIoFormatS24BE),
            9 => Some(SoundIoFormat::SoundIoFormatU24LE),
            10 => Some(SoundIoFormat::SoundIoFormatU24BE),
            11 => Some(SoundIoFormat::SoundIoFormatS32LE),
            12 => Some(SoundIoFormat::SoundIoFormatS32BE),
            13 => Some(SoundIoFormat::SoundIoFormatU32LE),
            14 => Some(SoundIoFormat::SoundIoFormatU32BE),
            15 => Some(SoundIoFormat::SoundIoFormatFloat32LE),
            16 => Some(SoundIoFormat::SoundIoFormatFloat32BE),
            17 => Some(SoundIoFormat::SoundIoFormatFloat64LE),
            18 => Some(SoundIoFormat::SoundIoFormatFloat64BE),
            _ => None,
        }
    }
}

} // verus!
