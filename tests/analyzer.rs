use audio_visualizer::analyzer::{frame_due, AnalysisError, AudioAnalyzer};
use audio_visualizer::buckets::{LogFrequenciesContainer, MAGNITUDE_SCALE};
use audio_visualizer::cli::Args;
use audio_visualizer::render::BarVisualizer;
use spectrum_analyzer::{samples_fft_to_spectrum, FrequencyLimit};

const SAMPLE_RATE: u32 = 48000;

// The bucket a frequency falls into: floor(log2(f / range + 1) * count / log2(range));
// at or above the range, an index past the last bucket.
fn bucket_index(f: f32, bucket_count: usize, freq_range: f32) -> usize {
    if f >= freq_range {
        return bucket_count;
    }
    let log_range = freq_range.log2();
    let scaling = bucket_count as f32 / log_range;
    ((f / freq_range + 1.0).log2() * scaling) as usize
}

fn spectrum_points(window: &[f32]) -> Vec<(usize, u64)> {
    let spectrum = samples_fft_to_spectrum(window, SAMPLE_RATE, FrequencyLimit::All, None).unwrap();
    spectrum
        .data()
        .iter()
        .map(|(hz, m)| {
            (
                bucket_index(hz.val(), 50, 24000.0),
                (m.val().max(0.0) * MAGNITUDE_SCALE as f32) as u64,
            )
        })
        .collect()
}

fn sine_analyzer(freq: f32) -> AudioAnalyzer<f32, BarVisualizer> {
    let mut a = AudioAnalyzer::new(
        1024,
        Some(BarVisualizer::new(720, 220, 0)),
        LogFrequenciesContainer::new(50),
    );
    for t in 0..1024 {
        let x = (2.0 * std::f32::consts::PI * freq * t as f32 / SAMPLE_RATE as f32).sin();
        a.push_audio(x);
    }
    a
}

fn peak(values: &[u64]) -> usize {
    let mut best = 0;
    for i in 0..values.len() {
        if values[i] > values[best] {
            best = i;
        }
    }
    best
}

#[test]
fn sine_energy_lands_in_formula_bucket() {
    let freq = 9000.0;
    let mut a = sine_analyzer(freq);
    assert_eq!(a.progress(), 1024);
    let window = a.frame_window().unwrap().unwrap();
    assert_eq!(window.len(), 1024);
    let points = spectrum_points(&window);
    let frame = a.get_frame(&points).unwrap().unwrap();
    assert_eq!(frame.bars.len(), 50);
    let expected = bucket_index(freq, 50, 24000.0);
    assert_eq!(expected, 1);
    let first = a.buckets_snapshot();
    assert_eq!(peak(&first), expected);

    let again = spectrum_points(&a.frame_window().unwrap().unwrap());
    a.get_frame(&again).unwrap().unwrap();
    let second = a.buckets_snapshot();
    assert_eq!(peak(&second), expected);
    let (x, y) = (first[expected] as f64, second[expected] as f64);
    assert!((x - y).abs() <= 1e-3 * x.max(1.0));
}

#[test]
fn no_visualizer_never_gives_frames() {
    let mut a: AudioAnalyzer<f32, BarVisualizer> = AudioAnalyzer::new(16, None, LogFrequenciesContainer::new(50));
    assert!(!a.off());
    assert_eq!(a.frame_window(), Ok(None));
    assert!(matches!(a.get_frame(&vec![(0, 5)]), Ok(None)));
    for t in 0..100 {
        a.push_audio(t as f32);
        assert_eq!(a.frame_window(), Ok(None));
        assert!(matches!(a.get_frame(&vec![(1, 5)]), Ok(None)));
    }
    assert_eq!(a.progress(), 100);
    assert_eq!(a.buckets_snapshot(), vec![0u64; 50]);
}

#[test]
fn empty_window_is_an_error() {
    let mut a: AudioAnalyzer<f32, BarVisualizer> = AudioAnalyzer::new(
        8,
        Some(BarVisualizer::new(100, 50, 1)),
        LogFrequenciesContainer::new(4),
    );
    assert!(a.off());
    assert_eq!(a.frame_window(), Err(AnalysisError::EmptyInput));
    assert!(matches!(a.get_frame(&vec![(1, 5000)]), Err(AnalysisError::EmptyInput)));
    assert_eq!(a.buckets_snapshot(), vec![0u64; 4]);
    assert_eq!(a.progress(), 0);
    a.push_audio(0.5);
    assert_eq!(a.frame_window(), Ok(Some(vec![0.5])));
    let f = a.get_frame(&vec![(1, 5000)]).unwrap().unwrap();
    assert_eq!(a.buckets_snapshot(), vec![0, 5000, 0, 0]);
    assert_eq!(f.bars.len(), 4);
}

#[test]
fn frame_rebuilds_buckets_each_time() {
    let mut a: AudioAnalyzer<f32, BarVisualizer> = AudioAnalyzer::new(
        2,
        Some(BarVisualizer::new(100, 220, 0)),
        LogFrequenciesContainer::new(4),
    );
    a.push_audio(0.5);
    a.push_audio(0.25);
    a.push_audio(0.125);
    assert_eq!(a.frame_window(), Ok(Some(vec![0.25, 0.125])));
    a.get_frame(&vec![(0, 1000), (2, 3000), (0, 1000), (7, 9)]).unwrap().unwrap();
    assert_eq!(a.buckets_snapshot(), vec![2000, 0, 3000, 0]);
    let f = a.get_frame(&vec![(3, 99000)]).unwrap().unwrap();
    assert_eq!(a.buckets_snapshot(), vec![0, 0, 0, 99000]);
    assert_eq!(f.bars[3].height, 110);
    assert_eq!(f.bars[0].height, 5);
}

#[test]
fn args_paths() {
    let args = Args::new(String::from("in.mp3"), String::from("tmp.mp4"), String::from("out.mp4"));
    assert_eq!(args.input_path(), "in.mp3");
    assert_eq!(args.temp_path(), "tmp.mp4");
    assert_eq!(args.output_path(), "out.mp4");
}

#[test]
fn frames_due_on_step_after_warmup() {
    assert!(!frame_due(0, 800, 1024));
    assert!(!frame_due(800, 800, 1024));
    assert!(!frame_due(1000, 800, 1024));
    assert!(frame_due(1600, 800, 1024));
    assert!(!frame_due(1601, 800, 1024));
}
