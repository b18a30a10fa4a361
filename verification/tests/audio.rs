use media_player::audio::{fallback_layout, queue_audio_buffer, AudioError};

#[test]
fn sound_without_channels_is_refused() {
    let refused = queue_audio_buffer(0, 0, &[1, 2, 3, 4]);
    assert_eq!(refused.err(), Some(AudioError::ZeroChannels));
    assert_eq!(AudioError::ZeroChannels.message(), "audio frame has zero channels");
}

#[test]
fn sound_without_a_rate_is_refused() {
    let refused = queue_audio_buffer(2, 0, &[1, 2, 3, 4]);
    assert_eq!(refused.err(), Some(AudioError::ZeroSampleRate));
    assert_eq!(AudioError::ZeroSampleRate.message(), "audio frame has zero sample rate");
}

#[test]
fn samples_are_four_bytes_each() {
    let block = match queue_audio_buffer(2, 48000, &[1, 2, 3, 4, 5, 6, 7, 8, 9]) {
        Ok(Some(block)) => block,
        _ => panic!("sound expected"),
    };
    assert_eq!(block.channels, 2);
    assert_eq!(block.sample_rate, 48000);
    assert_eq!(block.samples, vec![[1, 2, 3, 4], [5, 6, 7, 8]]);
}

#[test]
fn less_than_a_sample_is_nothing() {
    assert!(matches!(queue_audio_buffer(1, 8000, &[1, 2, 3]), Ok(None)));
    assert!(matches!(queue_audio_buffer(1, 8000, &[]), Ok(None)));
}

#[test]
fn layout_falls_back_to_the_number_of_channels() {
    assert_eq!(fallback_layout(true, 6), Some(6));
    assert_eq!(fallback_layout(false, 6), None);
}
