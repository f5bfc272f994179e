use hyperthree_native::audio::{
    sanitize_fft_size, AudioIds, DEFAULT_ANALYSER_FFT_SIZE, MAX_ANALYSER_FFT_SIZE,
    MIN_ANALYSER_FFT_SIZE,
};

#[test]
fn fft_sizes_become_supported_powers_of_two() {
    assert_eq!(sanitize_fft_size(0), MIN_ANALYSER_FFT_SIZE);
    assert_eq!(sanitize_fft_size(100), 128);
    assert_eq!(sanitize_fft_size(2048), DEFAULT_ANALYSER_FFT_SIZE);
    assert_eq!(sanitize_fft_size(usize::MAX), MAX_ANALYSER_FFT_SIZE);
    assert_eq!(sanitize_fft_size(sanitize_fft_size(3000)), sanitize_fft_size(3000));
}

#[test]
fn audio_ids_are_never_zero() {
    let mut ids = AudioIds::new();
    assert_eq!(ids.allocate(), 1);
    assert_eq!(ids.allocate(), 2);
}

#[test]
fn audio_ids_do_not_repeat() {
    let mut ids = AudioIds::new();
    let mut seen = std::collections::HashSet::new();
    for _ in 0..1000 {
        assert!(seen.insert(ids.allocate()));
    }
}
