use vstd::prelude::*;

use crate::raw;

verus! {

/// Whether a device is an input or an output. A physical device that does
/// both is two devices with the same id and different aims.
#[derive(Debug, Copy, Clone, PartialEq, Eq, Structural)]
pub enum DeviceAim {
    /// Capture / recording
    Input,
    /// Playback
    Output,
}

/// The aim that a C device aim stands for.
pub open spec fn aim_of_raw(r: raw::SoundIoDeviceAim) -> DeviceAim {
    match r {
        raw::SoundIoDeviceAim::SoundIoDeviceAimInput => DeviceAim::Input,
        raw::SoundIoDeviceAim::SoundIoDeviceAimOutput => DeviceAim::Output,
    }
}

/// The C device aim of an aim.
pub open spec fn raw_of_aim(v: DeviceAim) -> raw::SoundIoDeviceAim {
    match v {
        DeviceAim::Input => raw::SoundIoDeviceAim::SoundIoDeviceAimInput,
        DeviceAim::Output => raw::SoundIoDeviceAim::SoundIoDeviceAimOutput,
    }
}

impl From<raw::SoundIoDeviceAim> for DeviceAim {
    fn from(r: raw::SoundIoDeviceAim) -> DeviceAim {
        match r {
            raw::SoundIoDeviceAim::SoundIoDeviceAimInput => DeviceAim::Input,
            raw::SoundIoDeviceAim::SoundIoDeviceAimOutput => DeviceAim::Output,
        }
    }
}

impl vstd::std_specs::convert::FromSpecImpl<raw::SoundIoDeviceAim> for DeviceAim {
    open spec fn obeys_from_spec() -> bool {
        true
    }

    open spec fn from_spec(r: raw::SoundIoDeviceAim) -> DeviceAim {
        aim_of_raw(r)
    }
}

impl From<DeviceAim> for raw::SoundIoDeviceAim {
    fn from(v: DeviceAim) -> raw::SoundIoDeviceAim {
        match v {
            DeviceAim::Input => raw::SoundIoDeviceAim::SoundIoDeviceAimInput,
            DeviceAim::Output => raw::SoundIoDeviceAim::SoundIoDeviceAimOutput,
        }
    }
}

impl vstd::std_specs::convert::FromSpecImpl<DeviceAim> for raw::SoundIoDeviceAim {
    open spec fn obeys_from_spec() -> bool {
        true
    }

    open spec fn from_spec(v: DeviceAim) -> raw::SoundIoDeviceAim {
        raw_of_aim(v)
    }
}

/// Converting to the C value and back gives the value back, and every C value
/// is reached: the two enumerations correspond one to one.
pub proof fn lemma_aim_raw_bijective(v: DeviceAim, r: raw::SoundIoDeviceAim)
    ensures
        aim_of_raw(raw_of_aim(v)) == v,
        raw_of_aim(aim_of_raw(r)) == r,
{
}

/// A range of sample rates that a device supports; `min` and `max` are equal
/// for a single rate.
#[derive(Debug, Copy, Clone, PartialEq, Eq, Structural)]
pub struct SampleRateRange {
    pub min: i32,
    pub max: i32,
}

impl SampleRateRange {
    /// Whether `rate` lies in the range.
    pub fn contains(&self, rate: i32) -> (r: bool)
        ensures
            r == (self.min <= rate <= self.max),
    {
        self.min <= rate && rate <= self.max
    }
}

} // verus!
