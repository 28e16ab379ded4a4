use vstd::prelude::*;

use crate::raw;

verus! {

/// One of the supported audio backends. `Backend::NoBackend` stands for no
/// connected backend.
#[derive(Debug, Copy, Clone, PartialEq, Eq, Structural)]
pub enum Backend {
    /// No backend: the context is not connected.
    NoBackend,
    Jack,
    PulseAudio,
    Alsa,
    CoreAudio,
    Wasapi,
    Dummy,
}

/// The backend that a C backend value stands for.
pub open spec fn backend_of_raw(r: raw::SoundIoBackend) -> Backend {
    match r {
        raw::SoundIoBackend::SoundIoBackendNone => Backend::NoBackend,
        raw::SoundIoBackend::SoundIoBackendJack => Backend::Jack,
        raw::SoundIoBackend::SoundIoBackendPulseAudio => Backend::PulseAudio,
        raw::SoundIoBackend::SoundIoBackendAlsa => Backend::Alsa,
        raw::SoundIoBackend::SoundIoBackendCoreAudio => Backend::CoreAudio,
        raw::SoundIoBackend::SoundIoBackendWasapi => Backend::Wasapi,
        raw::SoundIoBackend::SoundIoBackendDummy => Backend::Dummy,
    }
}

/// The C backend value of a backend.
pub open spec fn raw_of_backend(v: Backend) -> raw::SoundIoBackend {
    match v {
        Backend::NoBackend => raw::SoundIoBackend::SoundIoBackendNone,
        Backend::Jack => raw::SoundIoBackend::SoundIoBackendJack,
        Backend::PulseAudio => raw::SoundIoBackend::SoundIoBackendPulseAudio,
        Backend::Alsa => raw::SoundIoBackend::SoundIoBackendAlsa,
        Backend::CoreAudio => raw::SoundIoBackend::SoundIoBackendCoreAudio,
        Backend::Wasapi => raw::SoundIoBackend::SoundIoBackendWasapi,
        Backend::Dummy => raw::SoundIoBackend::SoundIoBackendDummy,
    }
}

impl From<raw::SoundIoBackend> for Backend {
    fn from(r: raw::SoundIoBackend) -> Backend {
        match r {
            raw::SoundIoBackend::SoundIoBackendNone => Backend::NoBackend,
            raw::SoundIoBackend::SoundIoBackendJack => Backend::Jack,
            raw::SoundIoBackend::SoundIoBackendPulseAudio => Backend::PulseAudio,
            raw::SoundIoBackend::SoundIoBackendAlsa => Backend::Alsa,
            raw::SoundIoBackend::SoundIoBackendCoreAudio => Backend::CoreAudio,
            raw::SoundIoBackend::SoundIoBackendWasapi => Backend::Wasapi,
            raw::SoundIoBackend::SoundIoBackendDummy => Backend::Dummy,
        }
    }
}

impl vstd::std_specs::convert::FromSpecImpl<raw::SoundIoBackend> for Backend {
    open spec fn obeys_from_spec() -> bool {
        true
    }

    open spec fn from_spec(r: raw::SoundIoBackend) -> Backend {
        backend_of_raw(r)
    }
}

impl From<Backend> for raw::SoundIoBackend {
    fn from(v: Backend) -> raw::SoundIoBackend {
        match v {
            Backend::NoBackend => raw::SoundIoBackend::SoundIoBackendNone,
            Backend::Jack => raw::SoundIoBackend::SoundIoBackendJack,
            Backend::PulseAudio => raw::SoundIoBackend::SoundIoBackendPulseAudio,
            Backend::Alsa => raw::SoundIoBackend::SoundIoBackendAlsa,
            Backend::CoreAudio => raw::SoundIoBackend::SoundIoBackendCoreAudio,
            Backend::Wasapi => raw::SoundIoBackend::SoundIoBackendWasapi,
            Backend::Dummy => raw::SoundIoBackend::SoundIoBackendDummy,
        }
    }
}

impl vstd::std_specs::convert::FromSpecImpl<Backend> for raw::SoundIoBackend {
    open spec fn obeys_from_spec() -> bool {
        true
    }

    open spec fn from_spec(v: Backend) -> raw::SoundIoBackend {
        raw_of_backend(v)
    }
}

/// Converting to the C value and back gives the value back, and every C value
/// is reached: the two enumerations correspond one to one.
pub proof fn lemma_backend_raw_bijective(v: Backend, r: raw::SoundIoBackend)
    ensures
        backend_of_raw(raw_of_backend(v)) == v,
        raw_of_backend(backend_of_raw(r)) == r,
{
}

} // verus!
