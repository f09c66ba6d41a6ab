use guitar_tuner::buffer::SampleBuffer;
use guitar_tuner::note::{note_name_to_semitones, semitones_to_note};
use guitar_tuner::peak::{accept_frequency, find_peak, neighbours, refinement_defined};
use guitar_tuner::state::{TuningStatus, UiState};
use rustfft::num_complex::Complex;
use rustfft::FftPlanner;

const SAMPLE_RATE: u32 = 44100;
const FFT_SIZE: usize = 4096;

fn sine(frequency: f32, amplitude: f32, start: usize, count: usize) -> Vec<f32> {
    (start..start + count)
        .map(|n| {
            let t = n as f64 / SAMPLE_RATE as f64;
            (amplitude as f64 * (2.0 * std::f64::consts::PI * frequency as f64 * t).sin()) as f32
        })
        .collect()
}

fn magnitudes(window: &[f32]) -> Vec<u32> {
    assert_eq!(window.len(), FFT_SIZE);
    let mut bins: Vec<Complex<f32>> = window
        .iter()
        .enumerate()
        .map(|(i, &s)| {
            let taper = 0.5
                * (1.0 - (2.0 * std::f32::consts::PI * i as f32 / (FFT_SIZE as f32 - 1.0)).cos());
            Complex::new(s * taper, 0.0)
        })
        .collect();
    let mut planner = FftPlanner::new();
    planner.plan_fft_forward(FFT_SIZE).process(&mut bins);
    bins.iter().map(|c| c.norm().to_bits()).collect()
}

fn bin_to_hertz(bin: f32) -> f32 {
    (bin * SAMPLE_RATE as f32) / FFT_SIZE as f32
}

/// The rough and the refined frequency of the dominant bin, before the pitch range is applied.
fn estimate(window: &[f32]) -> Option<(f32, f32)> {
    let spectrum = magnitudes(window);
    let peak = find_peak(&spectrum)?;
    let rough = bin_to_hertz(peak.bin as f32);
    let refined = match neighbours(&spectrum, peak.bin) {
        Some((prev, curr, next)) => {
            let (prev, curr, next) =
                (f32::from_bits(prev), f32::from_bits(curr), f32::from_bits(next));
            let denom = prev + curr + next;
            if refinement_defined(denom.to_bits()) {
                bin_to_hertz(peak.bin as f32 + (next - prev) / (2.0 * denom))
            } else {
                rough
            }
        }
        None => rough,
    };
    Some((rough, refined))
}

fn detect(window: &[f32]) -> Option<f32> {
    let (_, refined) = estimate(window)?;
    accept_frequency(refined.to_bits()).map(f32::from_bits)
}

fn frequency_to_note(frequency: f32, a4: f32) -> (String, i32, f32) {
    let rounded = (12.0 * (frequency / a4).log2()).round() as i32;
    let (name, octave) = semitones_to_note(rounded);
    let nearest = a4 * 2.0_f32.powf(rounded as f32 / 12.0);
    (name, octave, 1200.0 * (frequency / nearest).log2())
}

fn note_name_to_frequency(name: &str, octave: i32, a4: f32) -> f32 {
    a4 * 2.0_f32.powf(note_name_to_semitones(name, octave) as f32 / 12.0)
}

#[test]
fn a_sine_is_found_within_one_bin() {
    let bin_width = SAMPLE_RATE as f32 / FFT_SIZE as f32;
    for f in [25.0f32, 82.41, 110.0, 261.63, 329.63, 415.0, 440.0, 880.0, 1000.0, 2500.0, 4900.0] {
        let (rough, refined) = estimate(&sine(f, 1.0, 0, FFT_SIZE)).unwrap();
        assert!((rough - f).abs() <= bin_width, "{f}: rough {rough}");
        assert!((refined - f).abs() <= bin_width, "{f}: refined {refined}");
    }
}

#[test]
fn refinement_moves_towards_the_sine() {
    for f in [82.41f32, 110.0, 261.63, 329.63, 415.0, 440.0, 880.0, 1000.0, 2500.0, 4900.0] {
        let (rough, refined) = estimate(&sine(f, 1.0, 0, FFT_SIZE)).unwrap();
        assert!((refined - f).abs() < (rough - f).abs(), "{f}: {rough} -> {refined}");
    }
}

#[test]
fn concert_pitch_is_found_within_a_hertz() {
    let (rough, refined) = estimate(&sine(440.0, 1.0, 0, FFT_SIZE)).unwrap();
    // Bin 41 of 4096 at 44100 Hz.
    assert_eq!(rough, 41.0 * 44100.0 / 4096.0);
    assert!((refined - 440.9).abs() < 0.1, "{refined}");
    assert!((refined - 440.0).abs() < 1.0, "{refined}");
    assert_eq!(detect(&sine(440.0, 1.0, 0, FFT_SIZE)), Some(refined));
}

#[test]
fn a_quiet_sine_is_still_found() {
    // The floor is on the spectrum: a window full of a sine of amplitude
    // 0.0001 has a peak near 0.1.
    let found = detect(&sine(440.0, 0.0001, 0, FFT_SIZE)).unwrap();
    assert!((found - 440.0).abs() < 1.0, "{found}");
    assert_eq!(detect(&sine(440.0, 0.000001, 0, FFT_SIZE)), None);
}

#[test]
fn silence_is_no_pitch() {
    assert_eq!(detect(&vec![0.0f32; FFT_SIZE]), None);
    assert_eq!(estimate(&vec![0.0f32; FFT_SIZE]), None);
    assert_eq!(detect(&vec![-0.0f32; FFT_SIZE]), None);
}

#[test]
fn a_sine_outside_the_range_is_no_pitch() {
    assert_eq!(detect(&sine(10.0, 1.0, 0, FFT_SIZE)), None);
    assert_eq!(detect(&sine(6000.0, 1.0, 0, FFT_SIZE)), None);
    assert_eq!(detect(&sine(15000.0, 1.0, 0, FFT_SIZE)), None);
}

#[test]
fn detecting_twice_gives_the_same_pitch() {
    let mut buffer: SampleBuffer<f32> = SampleBuffer::new();
    buffer.append(sine(329.63, 0.8, 0, 5000));
    let first = detect(buffer.window().unwrap());
    let second = detect(buffer.window().unwrap());
    assert!(first.is_some());
    assert_eq!(first, second);
}

#[test]
fn the_reference_itself_is_a4() {
    let (name, octave, cents) = frequency_to_note(440.0, 440.0);
    assert_eq!(name, "A");
    assert_eq!(octave, 4);
    assert!(cents.abs() < 1e-3, "{cents}");
}

#[test]
fn just_below_a4_is_g_sharp_4() {
    let (name, octave, cents) = frequency_to_note(415.0, 440.0);
    assert_eq!(name, "G#");
    assert_eq!(octave, 4);
    // G#4 is 415.30 Hz: 415 Hz lies 1.27 cents below it.
    assert!((cents + 1.27).abs() < 0.05, "{cents}");
}

#[test]
fn twice_the_reference_is_a5() {
    assert_eq!(frequency_to_note(880.0, 440.0).0, "A");
    assert_eq!(frequency_to_note(880.0, 440.0).1, 5);
    assert_eq!(frequency_to_note(864.0, 432.0).0, "A");
    assert_eq!(frequency_to_note(864.0, 432.0).1, 5);
    for f in [55.0f32, 82.41, 261.63, 440.0, 1000.0] {
        let (name, octave, _) = frequency_to_note(f, 440.0);
        let (twice_name, twice_octave, _) = frequency_to_note(2.0 * f, 440.0);
        assert_eq!(twice_name, name, "{f}");
        assert_eq!(twice_octave, octave + 1, "{f}");
    }
}

#[test]
fn a_named_note_has_the_frequency_of_its_count() {
    // "F#" stands at the tenth place, so F#4 is where the count is zero.
    assert_eq!(note_name_to_frequency("F#", 4, 440.0), 440.0);
    // "A" in octave 4 is counted nine semitones below the reference.
    let a = note_name_to_frequency("A", 4, 440.0);
    assert!((a - 261.63).abs() < 0.01, "{a}");
    let unknown = note_name_to_frequency("?", 4, 440.0);
    assert_eq!(unknown, a);
}

#[test]
fn a_named_note_comes_back_three_places_on_in_its_octave() {
    let names = ["A", "A#", "B", "C", "C#", "D", "D#", "E", "F", "F#", "G", "G#"];
    for octave in 0..9 {
        for (place, name) in names.iter().enumerate() {
            let f = note_name_to_frequency(name, octave, 440.0);
            let (back, back_octave, cents) = frequency_to_note(f, 440.0);
            assert_eq!(back, names[(place + 3) % 12], "{name}{octave}");
            assert_eq!(back_octave, octave, "{name}{octave}");
            assert!(cents.abs() < 0.01, "{name}{octave}: {cents}");
        }
    }
}

#[test]
fn a_stream_of_concert_pitch_reads_a4() {
    let mut buffer: SampleBuffer<f32> = SampleBuffer::new();
    let mut state = UiState::new();
    let mut passes = 0;
    for block in 0..5 {
        buffer.append(sine(440.0, 0.5, block * 1024, 1024));
        if block < 4 {
            // Four blocks make a window's worth, and that alone is not
            // more than a window.
            assert!(!buffer.is_ready(), "block {block}");
        }
        if let Some(window) = buffer.take_window() {
            passes += 1;
            match detect(&window) {
                Some(frequency) => {
                    let (name, octave, cents) = frequency_to_note(frequency, 440.0);
                    assert_eq!(name, "A");
                    assert_eq!(octave, 4);
                    assert!(cents.abs() < 5.0, "{cents}");
                    let target = note_name_to_frequency("F#", 4, 440.0);
                    let deviation = 1200.0 * (frequency / target).log2();
                    state.show_reading(frequency.to_bits(), name, octave, deviation.to_bits());
                }
                None => state.clear_reading(),
            }
        }
    }
    assert_eq!(passes, 1);
    assert_eq!(buffer.len(), 2048);
    assert_eq!(state.current_note, Some("A".to_string()));
    assert_eq!(state.current_octave, Some(4));
    assert_eq!(state.get_tuning_status(), TuningStatus::Perfect);
}

#[test]
fn silence_after_a_tone_clears_the_reading() {
    let mut buffer: SampleBuffer<f32> = SampleBuffer::new();
    let mut state = UiState::new();
    buffer.append(sine(440.0, 0.5, 0, 4097));
    let window = buffer.take_window().unwrap();
    let frequency = detect(&window).unwrap();
    state.show_reading(frequency.to_bits(), "A".to_string(), 4, 0);
    assert_eq!(state.get_tuning_status(), TuningStatus::Perfect);
    buffer.append(vec![0.0; 4096]);
    let quiet = buffer.take_window().unwrap();
    assert_eq!(detect(&quiet), None);
    state.clear_reading();
    assert_eq!(state.get_tuning_status(), TuningStatus::NoSignal);
    assert_eq!(state.current_freq, None);
}
