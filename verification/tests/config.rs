use audio_waterfall::config::{
    ConfigError, FormatWarnings, PipelineConfig, StreamFormat, DEFAULT_CHANNELS,
    DEFAULT_MAX_FREQUENCY, DEFAULT_MAX_ROWS, DEFAULT_MIN_INTERVAL_MS, FALLBACK_SAMPLE_RATE,
};
use audio_waterfall::intensity::ColorScheme;

#[test]
fn config_defaults() {
    assert_eq!(FALLBACK_SAMPLE_RATE, 48_000);
    assert_eq!(DEFAULT_MAX_FREQUENCY, 3_000);
    assert_eq!(DEFAULT_MAX_ROWS, 100);
    assert_eq!(DEFAULT_MIN_INTERVAL_MS, 160);
    assert_eq!(DEFAULT_CHANNELS, 2);
}

#[test]
fn config_for_48_khz() {
    let config = PipelineConfig::for_sample_rate(48_000);
    assert_eq!(
        config,
        PipelineConfig {
            sample_rate: 48_000,
            fft_size: 7680,
            max_frequency: 3_000,
            max_rows: 100,
            min_interval_ms: 160,
            channels: 2,
            scheme: ColorScheme::RedBlue,
        }
    );
    assert_eq!(config.validate(), Ok(()));
    assert_eq!(config.displayed_buckets(), 480);
}

#[test]
fn config_fft_size_is_the_rate_over_six_and_a_quarter_rounded_up() {
    assert_eq!(PipelineConfig::for_sample_rate(44_100).fft_size, 7056);
    assert_eq!(PipelineConfig::for_sample_rate(25).fft_size, 4);
    assert_eq!(PipelineConfig::for_sample_rate(26).fft_size, 5);
    assert_eq!(PipelineConfig::for_sample_rate(1).fft_size, 1);
    assert_eq!(PipelineConfig::for_sample_rate(0).fft_size, 0);
    assert_eq!(PipelineConfig::for_sample_rate(u32::MAX).fft_size, 687194768);
}

#[test]
fn config_fft_size_agrees_with_the_real_quotient() {
    for rate in [1u32, 6, 7, 8000, 11_025, 16_000, 22_050, 44_100, 48_000, 96_000, 192_000] {
        let expected = (rate as f64 / 6.25).ceil() as usize;
        assert_eq!(PipelineConfig::for_sample_rate(rate).fft_size, expected);
    }
}

#[test]
fn config_for_device_falls_back_to_48_khz() {
    assert_eq!(PipelineConfig::for_device(None), PipelineConfig::for_sample_rate(48_000));
    assert_eq!(PipelineConfig::for_device(Some(44_100)), PipelineConfig::for_sample_rate(44_100));
    assert_eq!(PipelineConfig::for_device(Some(0)), PipelineConfig::for_sample_rate(48_000));
    assert_eq!(PipelineConfig::for_device(Some(0)).validate(), Ok(()));
}

#[test]
fn config_adapts_to_the_rate_of_the_device() {
    let mut config = PipelineConfig::for_sample_rate(48_000);
    config.max_rows = 7;
    config.channels = 1;
    config.scheme = ColorScheme::RedOnly;
    let same = StreamFormat { sample_rate: 48_000, channels: 6 };
    assert_eq!(config.adapted_to(same), config);
    let unusable = StreamFormat { sample_rate: 0, channels: 2 };
    assert_eq!(config.adapted_to(unusable), config);
    let other = StreamFormat { sample_rate: 44_100, channels: 2 };
    assert_eq!(
        config.adapted_to(other),
        PipelineConfig {
            sample_rate: 44_100,
            fft_size: 7056,
            max_frequency: 3_000,
            max_rows: 7,
            min_interval_ms: 160,
            channels: 1,
            scheme: ColorScheme::RedOnly,
        }
    );
}

#[test]
fn config_displayed_buckets() {
    let mut config = PipelineConfig::for_sample_rate(48_000);
    config.fft_size = 2400;
    assert_eq!(config.displayed_buckets(), 150);
    config.max_frequency = 1;
    assert_eq!(config.displayed_buckets(), 1);
    config.max_frequency = 0;
    assert_eq!(config.displayed_buckets(), 0);
    config.max_frequency = 48_000;
    assert_eq!(config.displayed_buckets(), 2400);
    config.max_frequency = u32::MAX;
    assert_eq!(config.displayed_buckets(), 2400);
}

#[test]
fn config_displayed_buckets_never_exceed_the_bins() {
    let mut config = PipelineConfig::for_sample_rate(2_000);
    assert_eq!(config.fft_size, 320);
    assert_eq!(config.displayed_buckets(), 320);
    config.sample_rate = 0;
    assert_eq!(config.displayed_buckets(), 0);
    config.sample_rate = 1;
    config.fft_size = usize::MAX;
    config.max_frequency = u32::MAX;
    assert_eq!(config.displayed_buckets(), usize::MAX);
}

#[test]
fn config_zero_sample_rate_is_refused() {
    let config = PipelineConfig::for_sample_rate(0);
    assert_eq!(config.validate(), Err(ConfigError::ZeroSampleRate));
}

#[test]
fn config_zero_fft_size_is_refused() {
    let mut config = PipelineConfig::for_sample_rate(48_000);
    config.fft_size = 0;
    assert_eq!(config.validate(), Err(ConfigError::ZeroFftSize));
}

#[test]
fn config_check_format() {
    let config = PipelineConfig::for_sample_rate(48_000);
    assert_eq!(
        config.check_format(StreamFormat { sample_rate: 48_000, channels: 2 }),
        FormatWarnings { sample_rate_differs: false, channels_differ: false }
    );
    assert_eq!(
        config.check_format(StreamFormat { sample_rate: 44_100, channels: 2 }),
        FormatWarnings { sample_rate_differs: true, channels_differ: false }
    );
    assert_eq!(
        config.check_format(StreamFormat { sample_rate: 48_000, channels: 1 }),
        FormatWarnings { sample_rate_differs: false, channels_differ: true }
    );
    assert_eq!(
        config.check_format(StreamFormat { sample_rate: 8_000, channels: 6 }),
        FormatWarnings { sample_rate_differs: true, channels_differ: true }
    );
}
