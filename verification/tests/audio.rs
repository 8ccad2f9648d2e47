use std::sync::Arc;
use pixel_engine::asset::{Audio, Cached};
use pixel_engine::audio::spec::{AUDIO_F32, AUDIO_S16, AUDIO_S32, AUDIO_S8, AUDIO_U8, AUDIO_UNKNOWN};
use pixel_engine::audio::{AudioDeviceId, AudioFormat, AudioPlaybackData, AudioSpec, SeekFrom};

fn playback(data: Vec<u8>) -> AudioPlaybackData {
    let spec = AudioSpec { format: AudioFormat::S16, channel_count: 2, freq: 44100 };
    AudioPlaybackData::new(Cached::handle(Arc::new(Audio::from_parts(data, spec))))
}

#[test]
fn audio_format_codes() {
    assert_eq!(AudioFormat::from_code(AUDIO_U8), AudioFormat::U8);
    assert_eq!(AudioFormat::from_code(AUDIO_S8), AudioFormat::S8);
    assert_eq!(AudioFormat::from_code(AUDIO_S16), AudioFormat::S16);
    assert_eq!(AudioFormat::from_code(AUDIO_S32), AudioFormat::S32);
    assert_eq!(AudioFormat::from_code(AUDIO_F32), AudioFormat::F32);
    assert_eq!(AudioFormat::from_code(AUDIO_UNKNOWN), AudioFormat::Unknown);
    assert_eq!(AudioFormat::S16.code(), 0x8010);
    assert_eq!(AudioFormat::F32.code(), 0x8120);
    assert_eq!(AudioFormat::U8.code(), 0x0008);
    for f in [AudioFormat::U8, AudioFormat::S8, AudioFormat::S16, AudioFormat::S32, AudioFormat::F32, AudioFormat::Unknown] {
        assert_eq!(AudioFormat::from_code(f.code()), f);
    }
}

#[test]
fn audio_spec_raw_values() {
    let spec = AudioSpec::from_raw(AUDIO_S32, 2, 48000);
    assert_eq!(spec, AudioSpec { format: AudioFormat::S32, channel_count: 2, freq: 48000 });
    assert_eq!(spec.to_raw(), (AUDIO_S32, 2, 48000));
    let odd = AudioSpec::from_raw(AUDIO_U8, -1, 8000);
    assert_eq!(odd.channel_count, u32::MAX);
    assert_eq!(odd.to_raw(), (AUDIO_U8, -1, 8000));
}

#[test]
fn audio_device_ids() {
    assert_eq!(AudioDeviceId::default_playback().get(), 0xffff_ffff);
    assert_eq!(AudioDeviceId::default_recording().get(), 0xffff_fffe);
    assert_eq!(AudioDeviceId::new(0), None);
    assert_eq!(AudioDeviceId::new(7).map(|d| d.get()), Some(7));
    assert!(AudioDeviceId::try_from_raw(0).is_err());
    assert_eq!(AudioDeviceId::try_from_raw(3).map(|d| d.get()), Ok(3));
}

#[test]
fn audio_data_parts() {
    let spec = AudioSpec { format: AudioFormat::U8, channel_count: 1, freq: 8000 };
    let audio = Audio::from_parts(vec![1, 2, 3], spec);
    assert_eq!(audio.data(), &[1, 2, 3]);
    assert_eq!(*audio.spec(), spec);
}

#[test]
fn playback_starts_paused_at_the_start() {
    let mut p = playback(vec![1, 2, 3]);
    assert!(p.paused());
    assert!(!p.repeat());
    assert_eq!(p.pos(), 0);
    p.set_paused(false);
    p.set_repeat(true);
    assert!(!p.paused());
    assert!(p.repeat());
}

#[test]
fn playback_reads_in_order() {
    let mut p = playback(vec![10, 20, 30, 40, 50]);
    let mut buf = [0u8; 2];
    assert_eq!(p.read(&mut buf), 2);
    assert_eq!(buf, [10, 20]);
    assert_eq!(p.read(&mut buf), 2);
    assert_eq!(buf, [30, 40]);
    assert_eq!(p.read(&mut buf), 1);
    assert_eq!(buf, [50, 40]);
    assert_eq!(p.read(&mut buf), 0);
    assert_eq!(p.pos(), 5);
}

#[test]
fn playback_seeks() {
    let mut p = playback(vec![10, 20, 30, 40, 50]);
    assert_eq!(p.seek(SeekFrom::Start(3)), 3);
    assert_eq!(p.seek(SeekFrom::Current(-2)), 1);
    assert_eq!(p.seek(SeekFrom::End(-1)), 4);
    let mut buf = [0u8; 4];
    assert_eq!(p.read(&mut buf), 1);
    assert_eq!(buf[0], 50);
}

#[test]
fn playback_chunks_while_playing() {
    let mut p = playback(vec![1, 2, 3, 4, 5]);
    assert_eq!(p.next_chunk(2), None);
    p.set_paused(false);
    assert_eq!(p.next_chunk(2), Some(vec![1, 2]));
    assert_eq!(p.next_chunk(10), Some(vec![3, 4, 5]));
    assert_eq!(p.pos(), 5);
    assert_eq!(p.next_chunk(2), None);
    assert_eq!(p.pos(), 5);
}

#[test]
fn playback_chunks_loop_back() {
    let mut p = playback(vec![1, 2, 3]);
    p.set_paused(false);
    p.set_repeat(true);
    assert_eq!(p.next_chunk(3), Some(vec![1, 2, 3]));
    assert_eq!(p.next_chunk(3), None);
    assert_eq!(p.pos(), 0);
    assert_eq!(p.next_chunk(1), Some(vec![1]));
}

#[test]
fn playback_stops_before_the_last_byte_is_handed_alone() {
    // At the last byte the stream is handed nothing.
    let mut p = playback(vec![1, 2, 3]);
    p.set_paused(false);
    p.seek(SeekFrom::Start(2));
    assert_eq!(p.next_chunk(4), None);
    assert_eq!(p.pos(), 2);
}

#[test]
fn playback_set_audio_keeps_position() {
    let mut p = playback(vec![1, 2, 3]);
    p.seek(SeekFrom::Start(1));
    let spec = AudioSpec { format: AudioFormat::U8, channel_count: 1, freq: 8000 };
    p.set_audio(Cached::handle(Arc::new(Audio::from_parts(vec![7, 8, 9, 10], spec))));
    assert_eq!(p.pos(), 1);
    let mut buf = [0u8; 2];
    assert_eq!(p.read(&mut buf), 2);
    assert_eq!(buf, [8, 9]);
}
