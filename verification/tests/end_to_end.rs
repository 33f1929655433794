use audio_waterfall::config::PipelineConfig;
use audio_waterfall::intensity::{Color, ColorScheme};
use audio_waterfall::pipeline::Pipeline;
use audio_waterfall::ring::SampleRingBuffer;
use audio_waterfall::spectrum::{magnitudes, Bin};
use rustfft::num_complex::Complex;
use rustfft::FftPlanner;

/// The forward transform of `samples`, with each part rounded to the nearest
/// whole number.
fn forward_bins(samples: &[i32]) -> Vec<Bin> {
    let mut planner = FftPlanner::<f64>::new();
    let fft = planner.plan_fft_forward(samples.len());
    let mut buffer: Vec<Complex<f64>> =
        samples.iter().map(|&sample| Complex { re: sample as f64, im: 0.0 }).collect();
    fft.process(&mut buffer);
    buffer.iter().map(|bin| Bin { re: bin.re.round() as i64, im: bin.im.round() as i64 }).collect()
}

fn loudest_bin(spectrum: &[u64]) -> usize {
    let mut loudest = 0;
    for (bin, magnitude) in spectrum.iter().enumerate() {
        if *magnitude > spectrum[loudest] {
            loudest = bin;
        }
    }
    loudest
}

fn sinusoid(frequency: f64, sample_rate: f64, amplitude: f64, count: usize) -> Vec<i32> {
    (0..count)
        .map(|n| {
            let phase = 2.0 * std::f64::consts::PI * frequency * n as f64 / sample_rate;
            (amplitude * phase.sin()).round() as i32
        })
        .collect()
}

#[test]
fn silence_gives_an_all_zero_spectrum() {
    for fft_size in [1usize, 4, 7, 64, 2400] {
        let mut ring = SampleRingBuffer::new(fft_size);
        ring.extend(&vec![0; fft_size]);
        assert!(ring.is_full());
        let spectrum = magnitudes(&forward_bins(&ring.snapshot()));
        assert_eq!(spectrum, vec![0u64; fft_size]);
    }
}

#[test]
fn one_cycle_in_four_samples_peaks_at_bin_one() {
    let mut ring = SampleRingBuffer::new(4);
    for sample in [1, 0, -1, 0] {
        ring.push(sample);
    }
    assert!(ring.is_full());
    let spectrum = magnitudes(&forward_bins(&ring.snapshot()));
    assert_eq!(spectrum, vec![0, 2, 0, 2]);
    assert!(spectrum[1] > spectrum[0]);
    assert!(spectrum[1] > spectrum[2]);
}

#[test]
fn sinusoid_peaks_at_its_bin() {
    let cases: [(f64, f64, usize); 5] = [
        (1000.0, 6400.0, 64),
        (440.0, 48_000.0, 7680),
        (1500.0, 48_000.0, 2400),
        (2999.0, 44_100.0, 7056),
        (100.0, 8000.0, 1280),
    ];
    for (frequency, sample_rate, fft_size) in cases {
        let mut ring = SampleRingBuffer::new(fft_size);
        ring.extend(&sinusoid(frequency, sample_rate, 100_000.0, fft_size));
        let spectrum = magnitudes(&forward_bins(&ring.snapshot()));
        let expected = (frequency * fft_size as f64 / sample_rate).round() as usize;
        let loudest = loudest_bin(&spectrum[..fft_size / 2]);
        assert!(loudest + 1 >= expected && loudest <= expected + 1);
    }
}

#[test]
fn sinusoid_on_a_bin_centre_peaks_exactly_there() {
    let samples = sinusoid(1000.0, 6400.0, 100_000.0, 64);
    let spectrum = magnitudes(&forward_bins(&samples));
    assert_eq!(loudest_bin(&spectrum[..32]), 10);
    assert!(spectrum[10] >= 3_199_967 && spectrum[10] <= 3_200_033);
}

#[test]
fn capture_to_row_with_four_samples() {
    let config = PipelineConfig {
        sample_rate: 48_000,
        fft_size: 4,
        max_frequency: 48_000,
        max_rows: 100,
        min_interval_ms: 160,
        channels: 2,
        scheme: ColorScheme::RedBlue,
    };
    let mut pipeline = match Pipeline::new(config) {
        Ok(pipeline) => pipeline,
        Err(error) => panic!("configuration refused: {:?}", error),
    };
    let frame = [1000, 1000, 0, 0, -1000, -1000, 0, 0];
    let mut rows = 0;
    for callback in 0..40u64 {
        let report = pipeline.ingest(&frame, 2, callback * 10);
        if let Some(samples) = report.transform {
            assert_eq!(samples, vec![1000, 0, -1000, 0]);
            let bins = forward_bins(&samples);
            assert_eq!(magnitudes(&bins), vec![0, 2000, 0, 2000]);
            pipeline.commit_bins(&bins);
            rows += 1;
        }
    }
    assert_eq!(rows, 3);
    assert_eq!(pipeline.history.len(), 3);
    assert_eq!(pipeline.mapper.peak(), 2000);
    let dark = Color { r: 0, g: 0, b: 255 };
    let bright = Color { r: 255, g: 0, b: 0 };
    assert_eq!(pipeline.history.rows()[0].cells(), &[dark; 4]);
    assert_eq!(pipeline.history.rows()[1].cells(), &[dark, bright, dark, bright]);
    assert_eq!(pipeline.history.rows()[2].cells(), &[dark, bright, dark, bright]);
}

#[test]
fn single_precision_frames_through_the_pipeline() {
    let config = PipelineConfig {
        sample_rate: 6400,
        fft_size: 64,
        max_frequency: 3200,
        max_rows: 100,
        min_interval_ms: 160,
        channels: 2,
        scheme: ColorScheme::RedOnly,
    };
    let mut pipeline = match Pipeline::new(config) {
        Ok(pipeline) => pipeline,
        Err(error) => panic!("configuration refused: {:?}", error),
    };
    assert_eq!(pipeline.mapper.buckets(), 32);
    let mut planner = FftPlanner::<f32>::new();
    let fft = planner.plan_fft_forward(64);
    let mut scratch = vec![Complex { re: 0.0f32, im: 0.0f32 }; fft.get_inplace_scratch_len()];
    let mut rows = 0;
    for callback in 0..3u64 {
        let frame: Vec<i32> = (0..64)
            .flat_map(|n| {
                let phase = 2.0 * std::f32::consts::PI * 1000.0 * n as f32 / 6400.0;
                let sample = (0.5 * phase.sin() * 8_388_608.0).round() as i32;
                [sample, sample]
            })
            .collect();
        let report = pipeline.ingest(&frame, 2, callback * 200);
        assert_eq!(report.mono_samples, 64);
        let samples = match report.transform {
            Some(samples) => samples,
            None => panic!("no transform is due"),
        };
        let mut buffer: Vec<Complex<f32>> =
            samples.iter().map(|&sample| Complex { re: sample as f32, im: 0.0 }).collect();
        fft.process_with_scratch(&mut buffer, &mut scratch);
        let bins: Vec<Bin> = buffer
            .iter()
            .map(|bin| Bin { re: bin.re.round() as i64, im: bin.im.round() as i64 })
            .collect();
        assert_eq!(loudest_bin(&magnitudes(&bins)[..32]), 10);
        pipeline.commit_bins(&bins);
        rows += 1;
    }
    assert_eq!(rows, 3);
    assert_eq!(pipeline.history.len(), 3);
    let newest = pipeline.history.rows()[2].cells();
    assert_eq!(newest.len(), 32);
    assert!(newest[10].r >= 254);
    assert!(newest[3].r <= 1);
    assert!(newest[20].r <= 1);
}
