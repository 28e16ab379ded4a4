use soundio::native;
use soundio::{Error, Format, InStreamReader, OutStreamWriter, SampleRate, StreamOptions, StreamState};

#[test]
fn test_default_format() {
    assert_eq!(StreamOptions::<[f32; 2]>::default().format, native::Float32NE);
}

#[test]
fn options_choose_frame_count_within_window() {
    let mut options = StreamOptions::<[i16; 2]>::new(SampleRate::Exact(48000), Format::S16LE);
    assert_eq!(options.layout.channels.len(), 2);
    assert_eq!(options.frame_count_for(16, 64), 16);
    options.desired_frames_per_buffer = Some(32);
    assert_eq!(options.frame_count_for(16, 64), 32);
    assert_eq!(options.frame_count_for(40, 64), 40);
    assert_eq!(options.frame_count_for(0, 20), 20);
    options.desired_frames_per_buffer = Some(-5);
    assert_eq!(options.frame_count_for(3, 20), 3);
}

#[test]
fn write_mid_level_gives_0x80_in_unsigned_8_bit() {
    let mut w = OutStreamWriter::new(Format::U8, 2, 0, 64, 64);
    assert_eq!(w.begin_write(64), Ok(64));
    assert_eq!(w.channel_areas().len(), 2);
    for c in 0..w.channel_count() {
        for f in 0..w.frame_count() {
            w.set_sample::<i16>(c, f, 0);
        }
    }
    w.end_write();
    assert_eq!(w.committed_frames(), 64);
    assert_eq!(w.committed(), &vec![0x80u8; 128][..]);
}

#[test]
fn write_bottom_level_gives_0x00_in_unsigned_8_bit() {
    let mut w = OutStreamWriter::new(Format::U8, 2, 0, 64, 64);
    assert_eq!(w.begin_write(64), Ok(64));
    for c in 0..2 {
        for f in 0..64 {
            w.set_sample::<i16>(c, f, -32768);
        }
    }
    let bytes = w.finish();
    assert_eq!(bytes, vec![0u8; 128]);
}

#[test]
fn write_signed_8_bit_stores_twos_complement() {
    let mut w = OutStreamWriter::new(Format::S8, 2, 0, 64, 64);
    assert_eq!(w.begin_write(4), Ok(4));
    w.set_sample::<u8>(0, 0, 0x80);
    w.set_sample::<u8>(1, 0, 0x00);
    w.set_sample::<i8>(0, 1, -1);
    assert_eq!(&w.section()[0..4], &[0x00, 0x80, 0xFF, 0x00]);
}

#[test]
fn zero_frame_cycle_commits_nothing() {
    let mut w = OutStreamWriter::new(Format::S8, 2, 0, 0, 64);
    assert_eq!(w.begin_write(0), Ok(0));
    assert_eq!(w.frame_count(), 0);
    assert!(w.channel_areas().is_empty());
    w.end_write();
    assert_eq!(w.committed_frames(), 0);
    assert!(w.committed().is_empty());
}

#[test]
fn grant_is_limited_by_free_room() {
    let mut w = OutStreamWriter::new(Format::S16LE, 1, 0, 64, 10);
    assert_eq!(w.begin_write(8), Ok(8));
    w.end_write();
    assert_eq!(w.begin_write(8), Ok(2));
    w.end_write();
    assert_eq!(w.begin_write(8), Ok(0));
    assert!(w.channel_areas().is_empty());
    w.end_write();
    assert_eq!(w.committed_frames(), 10);
    assert_eq!(w.committed().len(), 20);
}

#[test]
fn repeats_until_minimum_is_committed() {
    let mut w = OutStreamWriter::new(Format::S16LE, 1, 12, 64, 64);
    assert!(!w.satisfied());
    assert_eq!(w.begin_write(12), Ok(12));
    assert!(!w.satisfied());
    w.end_write();
    assert!(w.satisfied());
}

#[test]
fn second_acquire_without_commit_is_rejected() {
    let mut w = OutStreamWriter::new(Format::S16LE, 2, 0, 64, 64);
    assert_eq!(w.begin_write(16), Ok(16));
    assert_eq!(w.begin_write(16), Err(Error::Invalid));
    assert_eq!(w.frame_count(), 16);
    w.end_write();
    assert_eq!(w.begin_write(16), Ok(16));
}

#[test]
fn commit_while_idle_does_nothing() {
    let mut w = OutStreamWriter::new(Format::U8, 1, 0, 8, 8);
    w.end_write();
    assert_eq!(w.committed_frames(), 0);
    assert_eq!(w.begin_write(8), Ok(8));
}

#[test]
fn finish_commits_an_open_section() {
    let mut w = OutStreamWriter::new(Format::U16BE, 1, 0, 8, 8);
    assert_eq!(w.begin_write(2), Ok(2));
    w.set_sample::<u16>(0, 0, 0x1234);
    w.set_sample::<u8>(0, 1, 0xAB);
    assert_eq!(w.finish(), vec![0x12, 0x34, 0xAB, 0x00]);
}

#[test]
fn interleaved_areas_and_24_bit_storage() {
    let mut w = OutStreamWriter::new(Format::S24LE, 2, 0, 4, 4);
    assert_eq!(w.begin_write(2), Ok(2));
    let areas = w.channel_areas();
    assert_eq!((areas[0].offset, areas[0].step), (0, 8));
    assert_eq!((areas[1].offset, areas[1].step), (4, 8));
    w.set_sample::<i16>(1, 1, -1);
    assert_eq!(&w.section()[12..16], &[0x00, 0xFF, 0xFF, 0x00]);
    w.set_sample_bytes(0, 1, &[1, 2, 3, 4]);
    assert_eq!(&w.section()[8..12], &[1, 2, 3, 4]);
}

#[test]
fn read_converts_from_wire_format() {
    let captured = vec![0x00, 0x80, 0xFF, 0x7F, 0x34, 0x12, 0x00, 0x00];
    let mut r = InStreamReader::new(Format::S16LE, 2, 0, 8, captured);
    assert_eq!(r.begin_read(8), Ok(2));
    assert_eq!(r.sample::<i16>(0, 0), -32768);
    assert_eq!(r.sample::<i16>(1, 0), 32767);
    assert_eq!(r.sample::<u16>(0, 0), 0);
    assert_eq!(r.sample::<u8>(1, 0), 255);
    assert_eq!(r.sample::<i16>(0, 1), 0x1234);
    assert_eq!(r.sample_bytes(0, 1), vec![0x34, 0x12]);
    assert_eq!(r.begin_read(8), Err(Error::Invalid));
    r.end_read();
    assert_eq!(r.begin_read(8), Ok(0));
    assert!(r.channel_areas().is_empty());
}

#[test]
fn reads_advance_through_captured_frames() {
    let captured = vec![1, 2, 3, 4, 5];
    let mut r = InStreamReader::new(Format::U8, 1, 1, 2, captured);
    assert_eq!(r.begin_read(2), Ok(2));
    assert_eq!(r.sample::<u8>(0, 1), 2);
    r.end_read();
    assert_eq!(r.begin_read(2), Ok(2));
    assert_eq!(r.sample::<u8>(0, 0), 3);
    r.end_read();
    assert_eq!(r.begin_read(2), Ok(1));
    assert_eq!(r.sample::<i8>(0, 0), -123);
}

#[test]
fn lifecycle_transitions() {
    assert_eq!(StreamState::Created.opened(0), (StreamState::Open, Ok(())));
    assert_eq!(StreamState::Created.opened(4), (StreamState::Destroyed, Err(Error::OpeningDevice)));
    assert_eq!(StreamState::Open.started(0), (StreamState::Started, Ok(())));
    assert_eq!(StreamState::Open.started(8), (StreamState::Open, Err(Error::Streaming)));
    assert_eq!(StreamState::Started.paused(true, 0), (StreamState::Paused, Ok(())));
    assert_eq!(StreamState::Paused.paused(true, 0), (StreamState::Paused, Ok(())));
    assert_eq!(StreamState::Paused.paused(false, 0), (StreamState::Started, Ok(())));
    assert_eq!(StreamState::Started.paused(false, 0), (StreamState::Started, Ok(())));
    assert_eq!(StreamState::Started.paused(true, 11), (StreamState::Started, Err(Error::IncompatibleBackend)));
}
