use pixel_audio::playback::{SineWave, SineWaveSource};

#[test]
fn wave_plays_samples_in_order_then_stops() {
    let mut w = SineWave::new(vec![0.5f32, -0.25, 1.0], 44100);
    assert_eq!(w.current_frame_len(), Some(3));
    assert_eq!(w.next(), Some(0.5));
    assert_eq!(w.current_frame_len(), Some(2));
    assert_eq!(w.next(), Some(-0.25));
    assert_eq!(w.next(), Some(1.0));
    assert_eq!(w.current_frame_len(), Some(0));
    assert_eq!(w.next(), None);
    assert_eq!(w.next(), None);
    assert_eq!(w.current_frame_len(), Some(0));
}

#[test]
fn wave_reports_rate_channels_and_count() {
    let w = SineWave::new(vec![0.0f32; 5], 22050);
    assert_eq!(w.sample_rate(), 22050);
    assert_eq!(w.channels(), 1);
    assert_eq!(w.sample_count(), 5);
}

#[test]
fn empty_wave_is_exhausted() {
    let mut w: SineWave<f32> = SineWave::new(vec![], 8000);
    assert_eq!(w.current_frame_len(), Some(0));
    assert_eq!(w.next(), None);
}

#[test]
fn source_plays_waveform_in_order_then_stops() {
    let mut s = SineWaveSource::new(vec![0.1f32, 0.2], 44100);
    assert_eq!(s.next(), Some(0.1));
    assert_eq!(s.next(), Some(0.2));
    assert_eq!(s.next(), None);
    assert_eq!(s.next(), None);
}

#[test]
fn source_frame_is_whole_waveform() {
    let mut s = SineWaveSource::new(vec![1i16, 2, 3], 44100);
    assert_eq!(s.current_frame_len(), Some(3));
    s.next();
    assert_eq!(s.current_frame_len(), Some(3));
    assert_eq!(s.channels(), 1);
    assert_eq!(s.sample_rate(), 44100);
    assert_eq!(s.sample_count(), 3);
}
