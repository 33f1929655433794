//! The parameters of one pipeline, derived from the device's sample rate.
//!
//! The transform length follows the sample rate so that one bin is 6.25 Hz
//! wide: `fft_size = ceil(sample_rate / 6.25)`. Only the bins up to
//! `max_frequency` are displayed.

use crate::intensity::ColorScheme;
use vstd::prelude::*;

verus! {

/// The sample rate assumed when the device reports none, in Hz.
pub const FALLBACK_SAMPLE_RATE: u32 = 48_000;

/// The highest frequency displayed by default, in Hz.
pub const DEFAULT_MAX_FREQUENCY: u32 = 3_000;

/// The number of rows kept by default.
pub const DEFAULT_MAX_ROWS: usize = 100;

/// The least time between two rows by default, in milliseconds.
pub const DEFAULT_MIN_INTERVAL_MS: u64 = 160;

/// The channel count expected by default.
pub const DEFAULT_CHANNELS: u16 = 2;

/// `ceil(sample_rate / 6.25)`, the transform length for a sample rate.
pub open spec fn fft_size_for(sample_rate: u32) -> nat {
    ((4 * sample_rate + 24) / 25) as nat
}

/// `ceil(max_frequency * fft_size / sample_rate)`, the number of bins up to
/// `max_frequency`, but never more than there are bins; none at all where
/// the sample rate is zero and bins have no frequency.
pub open spec fn displayed_buckets_for(max_frequency: u32, sample_rate: u32, fft_size: nat) -> nat {
    let wanted = (max_frequency * fft_size + sample_rate - 1) / (sample_rate as int);
    if sample_rate == 0 {
        0
    } else if wanted <= fft_size {
        wanted as nat
    } else {
        fft_size
    }
}

/// Why a configuration cannot drive a pipeline.
#[derive(Clone, Copy, Debug, PartialEq, Eq, Structural)]
pub enum ConfigError {
    /// The sample rate is zero.
    ZeroSampleRate,
    /// The transform length is zero.
    ZeroFftSize,
}

/// The format a device delivers.
#[derive(Clone, Copy, Debug, PartialEq, Eq, Structural)]
pub struct StreamFormat {
    pub sample_rate: u32,
    pub channels: u16,
}

/// What about a device's format differs from the configuration. Neither
/// difference stops the pipeline; both are worth a warning.
#[derive(Clone, Copy, Debug, PartialEq, Eq, Structural)]
pub struct FormatWarnings {
    pub sample_rate_differs: bool,
    pub channels_differ: bool,
}

/// The parameters of one pipeline.
#[derive(Clone, Copy, Debug, PartialEq, Eq, Structural)]
pub struct PipelineConfig {
    /// The sample rate the pipeline is laid out for, in Hz.
    pub sample_rate: u32,
    /// The transform length, which is also the capacity of the sample buffer.
    pub fft_size: usize,
    /// The highest frequency displayed, in Hz.
    pub max_frequency: u32,
    /// The number of rows the history keeps.
    pub max_rows: usize,
    /// The least time between two rows, in milliseconds.
    pub min_interval_ms: u64,
    /// The channel count the device is expected to deliver.
    pub channels: u16,
    /// The colour scheme of the rows.
    pub scheme: ColorScheme,
}

impl PipelineConfig {
    /// What is wrong with the configuration, if anything: a zero sample rate
    /// is reported before a zero transform length.
    pub open spec fn spec_validate(&self) -> Result<(), ConfigError> {
        if self.sample_rate == 0 {
            Err(ConfigError::ZeroSampleRate)
        } else if self.fft_size == 0 {
            Err(ConfigError::ZeroFftSize)
        } else {
            Ok(())
        }
    }

    /// The configuration can drive a pipeline.
    pub open spec fn valid(&self) -> bool {
        self.sample_rate > 0 && self.fft_size > 0
    }

    /// The number of buckets a row shows.
    pub open spec fn spec_displayed_buckets(&self) -> nat {
        displayed_buckets_for(self.max_frequency, self.sample_rate, self.fft_size as nat)
    }

    /// The configuration for a device that samples at `sample_rate`: one bin
    /// per 6.25 Hz, and the default display range, history depth, interval,
    /// channel count and scheme.
    pub open spec fn spec_for_sample_rate(sample_rate: u32) -> Self {
        PipelineConfig {
            sample_rate,
            fft_size: fft_size_for(sample_rate) as usize,
            max_frequency: DEFAULT_MAX_FREQUENCY,
            max_rows: DEFAULT_MAX_ROWS,
            min_interval_ms: DEFAULT_MIN_INTERVAL_MS,
            channels: DEFAULT_CHANNELS,
            scheme: ColorScheme::RedBlue,
        }
    }

    #[verifier::when_used_as_spec(spec_for_sample_rate)]
    pub fn for_sample_rate(sample_rate: u32) -> (config: Self)
        ensures
            config == Self::spec_for_sample_rate(sample_rate),
            config.fft_size == fft_size_for(sample_rate),
            config.valid() <==> sample_rate > 0,
    {
        let fft_size: u64 = (4 * (sample_rate as u64) + 24) / 25;
        PipelineConfig {
            sample_rate,
            fft_size: fft_size as usize,
            max_frequency: DEFAULT_MAX_FREQUENCY,
            max_rows: DEFAULT_MAX_ROWS,
            min_interval_ms: DEFAULT_MIN_INTERVAL_MS,
            channels: DEFAULT_CHANNELS,
            scheme: ColorScheme::RedBlue,
        }
    }

    /// The sample rate to lay a pipeline out for, given what the device
    /// reports: its own rate, or `FALLBACK_SAMPLE_RATE` if it reports none
    /// or zero.
    pub open spec fn usable_sample_rate(reported: Option<u32>) -> u32 {
        match reported {
            Some(rate) => if rate > 0 {
                rate
            } else {
                FALLBACK_SAMPLE_RATE
            },
            None => FALLBACK_SAMPLE_RATE,
        }
    }

    /// The configuration for a device that may not report a usable sample
    /// rate. It can always drive a pipeline.
    pub fn for_device(reported: Option<u32>) -> (config: Self)
        ensures
            config == Self::spec_for_sample_rate(Self::usable_sample_rate(reported)),
            config.valid(),
    {
        match reported {
            Some(rate) => if rate > 0 {
                Self::for_sample_rate(rate)
            } else {
                Self::for_sample_rate(FALLBACK_SAMPLE_RATE)
            },
            None => Self::for_sample_rate(FALLBACK_SAMPLE_RATE),
        }
    }

    /// The configuration to go on with when the device delivers `format`:
    /// this one if the sample rate is the same or unusable, else this one
    /// with the device's rate and the transform length that follows from it.
    pub open spec fn spec_adapted_to(&self, format: StreamFormat) -> Self {
        if format.sample_rate == 0 || format.sample_rate == self.sample_rate {
            *self
        } else {
            PipelineConfig {
                sample_rate: format.sample_rate,
                fft_size: fft_size_for(format.sample_rate) as usize,
                ..*self
            }
        }
    }

    #[verifier::when_used_as_spec(spec_adapted_to)]
    pub fn adapted_to(&self, format: StreamFormat) -> (config: Self)
        ensures
            config == self.spec_adapted_to(format),
            self.valid() ==> config.valid(),
    {
        if format.sample_rate == 0 || format.sample_rate == self.sample_rate {
            *self
        } else {
            let laid_out = Self::for_sample_rate(format.sample_rate);
            PipelineConfig {
                sample_rate: format.sample_rate,
                fft_size: laid_out.fft_size,
                max_frequency: self.max_frequency,
                max_rows: self.max_rows,
                min_interval_ms: self.min_interval_ms,
                channels: self.channels,
                scheme: self.scheme,
            }
        }
    }

    /// Checks that the configuration can drive a pipeline.
    #[verifier::when_used_as_spec(spec_validate)]
    pub fn validate(&self) -> (result: Result<(), ConfigError>)
        ensures
            result == self.spec_validate(),
            result is Ok <==> self.valid(),
    {
        if self.sample_rate == 0 {
            Err(ConfigError::ZeroSampleRate)
        } else if self.fft_size == 0 {
            Err(ConfigError::ZeroFftSize)
        } else {
            Ok(())
        }
    }

    /// The number of buckets a row shows: the bins up to `max_frequency`.
    pub fn displayed_buckets(&self) -> (buckets: usize)
        ensures
            buckets == self.spec_displayed_buckets(),
            buckets <= self.fft_size,
    {
        if self.sample_rate == 0 {
            return 0;
        }
        proof {
            assert(0 <= self.max_frequency * self.fft_size
                <= 0x1_0000_0000int * 0x1_0000_0000_0000_0000int) by (nonlinear_arith)
                requires
                    0 <= self.max_frequency < 0x1_0000_0000,
                    0 <= self.fft_size < 0x1_0000_0000_0000_0000,
            ;
        }
        let span: u128 = (self.max_frequency as u128) * (self.fft_size as u128);
        let wanted: u128 = (span + (self.sample_rate as u128) - 1) / (self.sample_rate as u128);
        if wanted <= self.fft_size as u128 {
            wanted as usize
        } else {
            self.fft_size
        }
    }

    /// Compares the format a device delivers with the one configured.
    pub fn check_format(&self, actual: StreamFormat) -> (warnings: FormatWarnings)
        ensures
            warnings.sample_rate_differs == (actual.sample_rate != self.sample_rate),
            warnings.channels_differ == (actual.channels != self.channels),
    {
        FormatWarnings {
            sample_rate_differs: actual.sample_rate != self.sample_rate,
            channels_differ: actual.channels != self.channels,
        }
    }
}

} // verus!
