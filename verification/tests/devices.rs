use oscilloscope_audio::device::{
    accept_device, queue_slots, setup_audio, AudioDeviceConfig, OutputConfig, SampleFormat,
    SetupError,
};
use oscilloscope_audio::phase::PhaseAccumulator;

fn stereo_f32(sample_rate: u32) -> OutputConfig {
    OutputConfig { sample_rate, channels: 2, format: SampleFormat::F32 }
}

#[test]
fn missing_device_is_named() {
    assert_eq!(accept_device(None), Err(SetupError::NoOutputDevice));
    assert!(matches!(setup_audio(None), Err(SetupError::NoOutputDevice)));
}

#[test]
fn wrong_channel_count_is_named() {
    let mono = OutputConfig { sample_rate: 48000, channels: 1, format: SampleFormat::F32 };
    assert_eq!(accept_device(Some(mono)), Err(SetupError::UnsupportedChannels(1)));
    assert!(matches!(setup_audio(Some(mono)), Err(SetupError::UnsupportedChannels(1))));
    let six = OutputConfig { sample_rate: 48000, channels: 6, format: SampleFormat::I16 };
    assert_eq!(accept_device(Some(six)), Err(SetupError::UnsupportedChannels(6)));
}

#[test]
fn wrong_sample_format_is_named() {
    let pcm = OutputConfig { sample_rate: 48000, channels: 2, format: SampleFormat::I16 };
    assert_eq!(accept_device(Some(pcm)), Err(SetupError::UnsupportedFormat(SampleFormat::I16)));
    assert!(matches!(
        setup_audio(Some(pcm)),
        Err(SetupError::UnsupportedFormat(SampleFormat::I16))
    ));
    let wide = OutputConfig { sample_rate: 48000, channels: 2, format: SampleFormat::F64 };
    assert_eq!(accept_device(Some(wide)), Err(SetupError::UnsupportedFormat(SampleFormat::F64)));
}

#[test]
fn zero_sample_rate_is_refused() {
    assert_eq!(accept_device(Some(stereo_f32(0))), Err(SetupError::UnsupportedSampleRate(0)));
    assert!(matches!(setup_audio(Some(stereo_f32(0))), Err(SetupError::UnsupportedSampleRate(0))));
}

#[test]
fn accepted_device_keeps_its_rate() {
    assert_eq!(
        accept_device(Some(stereo_f32(44100))),
        Ok(AudioDeviceConfig { sample_rate: 44100, channels: 2 })
    );
}

#[test]
fn queue_holds_one_second_of_stereo() {
    assert_eq!(queue_slots(48000), Some(96000));
    assert_eq!(queue_slots(0), Some(0));
    assert_eq!(queue_slots(1), Some(2));
}

#[test]
fn setup_makes_empty_queue_and_zero_phase() {
    match setup_audio(Some(stereo_f32(48000))) {
        Ok(s) => {
            assert_eq!(s.config, AudioDeviceConfig { sample_rate: 48000, channels: 2 });
            assert_eq!(s.queue.capacity(), 96000);
            assert_eq!(s.queue.len(), 0);
            assert_eq!(s.queue.free(), 96000);
            assert_eq!(s.phase, PhaseAccumulator { steps: 0, rate: 48000 });
        }
        Err(e) => panic!("setup failed: {:?}", e),
    }
}
