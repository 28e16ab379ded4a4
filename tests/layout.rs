use soundio::raw::{SoundIoBackend, SoundIoChannelId, SoundIoChannelLayoutId, SoundIoDeviceAim, SoundIoFormat};
use soundio::{
    endianness, from_code, Backend, ChannelId, ChannelLayout, ChannelLayoutId, DeviceAim, Endian, Error, Format,
    SampleRateRange,
};

fn layout(name: &str, channels: Vec<ChannelId>) -> ChannelLayout {
    ChannelLayout { name: name.to_string(), channels }
}

#[test]
fn layouts_compare_by_channels_only() {
    let a = layout("unimportant", vec![ChannelId::FrontLeft, ChannelId::FrontRight]);
    let b = layout("doesn't matter", vec![ChannelId::FrontLeft, ChannelId::FrontRight]);
    let c = layout("unimportant", vec![ChannelId::FrontRight, ChannelId::FrontLeft]);
    assert_eq!(a, b);
    assert_ne!(a, c);
}

#[test]
fn find_channel_gives_first_index() {
    let l = layout("x", vec![ChannelId::FrontLeft, ChannelId::FrontRight, ChannelId::FrontLeft]);
    assert_eq!(l.find_channel(ChannelId::FrontLeft), Some(0));
    assert_eq!(l.find_channel(ChannelId::FrontRight), Some(1));
    assert_eq!(l.find_channel(ChannelId::FrontCenter), None);
}

#[test]
fn best_matching_takes_first_preferred_available() {
    let stereo = ChannelLayout::stereo();
    let mono = layout("Mono", vec![ChannelId::FrontCenter]);
    let quad = layout("Quad", vec![ChannelId::FrontLeft, ChannelId::FrontRight, ChannelId::BackLeft, ChannelId::BackRight]);
    let preferred = vec![quad.clone(), stereo.clone(), mono.clone()];
    let available = vec![layout("m", vec![ChannelId::FrontCenter]), layout("s", vec![ChannelId::FrontLeft, ChannelId::FrontRight])];
    let best = ChannelLayout::best_matching_channel_layout(&preferred, &available).unwrap();
    assert_eq!(best.name, "Stereo");
    assert_eq!(best, stereo);
    assert!(ChannelLayout::best_matching_channel_layout(&vec![quad], &available).is_none());
    assert!(ChannelLayout::best_matching_channel_layout(&vec![], &available).is_none());
}

#[test]
fn sort_orders_by_channel_count() {
    let mut layouts = vec![
        layout("four", vec![ChannelId::Aux0, ChannelId::Aux1, ChannelId::Aux2, ChannelId::Aux3]),
        layout("one", vec![ChannelId::Aux0]),
        layout("two", vec![ChannelId::Aux0, ChannelId::Aux1]),
        layout("one again", vec![ChannelId::Aux5]),
    ];
    ChannelLayout::sort(&mut layouts);
    let names: Vec<&str> = layouts.iter().map(|l| l.name.as_str()).collect();
    assert_eq!(names, vec!["one", "one again", "two", "four"]);
}

#[test]
fn formats_report_sizes_and_byte_order() {
    assert_eq!(Format::S8.bytes_per_sample(), 1);
    assert_eq!(Format::S24LE.bytes_per_sample(), 4);
    assert_eq!(Format::Float64LE.bytes_per_sample(), 8);
    assert_eq!(Format::S8.bytes_per_frame(2), 2);
    assert_eq!(Format::Float64LE.bytes_per_frame(4), 32);
    assert_eq!(Format::S8.bytes_per_second(2, 8000), 16000);
    assert_eq!(Format::Float64LE.bytes_per_second(4, 4000), 128000);
    assert_eq!(endianness(Format::S24LE), Endian::Little);
    assert_eq!(endianness(Format::U8), Endian::Little);
    assert_eq!(endianness(Format::Float64BE), Endian::Big);
}

#[test]
fn error_codes_map_both_ways() {
    assert_eq!(Error::from(1), Error::NoMem);
    assert_eq!(Error::from(14), Error::Underflow);
    assert_eq!(Error::from(99), Error::Unknown);
    assert_eq!(i32::from(Error::Streaming), 8);
    assert_eq!(i32::from(Error::Unknown), -1);
    assert_eq!(from_code(0), Ok(()));
    assert_eq!(from_code(6), Err(Error::Invalid));
}

#[test]
fn enums_match_c_values() {
    assert_eq!(ChannelId::from(SoundIoChannelId::SoundIoChannelIdMsMid), ChannelId::MsMid);
    assert_eq!(SoundIoChannelId::from(ChannelId::Aux15), SoundIoChannelId::SoundIoChannelIdAux15);
    assert_eq!(ChannelId::from(SoundIoChannelId::SoundIoChannelIdInvalid), ChannelId::Invalid);
    assert_eq!(ChannelLayoutId::from(SoundIoChannelLayoutId::SoundIoChannelLayoutId2Point1), ChannelLayoutId::C2Point1);
    assert_eq!(SoundIoChannelLayoutId::from(ChannelLayoutId::Octagonal), SoundIoChannelLayoutId::SoundIoChannelLayoutIdOctagonal);
    assert_eq!(Backend::from(SoundIoBackend::SoundIoBackendNone), Backend::NoBackend);
    assert_eq!(SoundIoBackend::from(Backend::Dummy), SoundIoBackend::SoundIoBackendDummy);
    assert_eq!(DeviceAim::from(SoundIoDeviceAim::SoundIoDeviceAimOutput), DeviceAim::Output);
    assert_eq!(Format::from(SoundIoFormat::SoundIoFormatU24BE), Format::U24BE);
    assert_eq!(SoundIoFormat::from(Format::Invalid), SoundIoFormat::SoundIoFormatInvalid);
}

#[test]
fn sample_rate_range_contains() {
    let r = SampleRateRange { min: 8000, max: 48000 };
    assert!(r.contains(44100));
    assert!(r.contains(8000));
    assert!(!r.contains(96000));
}
