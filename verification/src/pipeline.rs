//! The capture-side pipeline: what happens to one frame from the hardware.
//!
//! A frame is downmixed and its samples are pushed into the ring buffer,
//! always. If the buffer is then full and the rate limiter lets a run
//! through, the caller gets a snapshot to transform; it hands the spectrum
//! back, which is mapped to a row and appended to the history. Between two
//! such runs frames only feed the buffer: no sample is lost and no row is
//! made.

use crate::config::{ConfigError, PipelineConfig};
use crate::downmix::{complete_slots, downmix, downmix_spec, leftover_samples};
use crate::fifo::{fifo_extend, fifo_push};
use crate::history::VisualizationHistory;
use crate::intensity::{row_spec, updated_peak, IntensityMapper};
use crate::limiter::RateLimiter;
use crate::ring::SampleRingBuffer;
use crate::spectrum::{magnitudes, magnitudes_spec, Bin};
use vstd::prelude::*;

verus! {

/// What came of one frame.
pub struct IngestReport {
    /// The samples to transform, oldest first, if a row is due now.
    pub transform: Option<Vec<i32>>,
    /// How many mono samples the frame gave.
    pub mono_samples: usize,
    /// How many trailing samples of the frame were discarded because they
    /// filled no slot.
    pub discarded: usize,
    /// Whether the frame's channel count is not the one expected.
    pub channels_differ: bool,
}

/// The state shared by the capture side and the renderer: sample buffer,
/// running peak, history and rate limiter.
pub struct Pipeline {
    pub ring: SampleRingBuffer,
    pub mapper: IntensityMapper,
    pub history: VisualizationHistory,
    pub limiter: RateLimiter,
    /// The channel count the device is expected to deliver.
    pub expected_channels: u16,
}

impl Pipeline {
    /// A pipeline laid out by `config`, with nothing captured yet. A
    /// configuration that fails `validate` is refused with its error.
    pub fn new(config: PipelineConfig) -> (made: Result<Self, ConfigError>)
        ensures
            made is Ok <==> config.valid(),
            made matches Err(error) ==> config.validate() == Err::<(), ConfigError>(error),
            made matches Ok(pipeline) ==> {
                &&& pipeline.ring@ == Seq::<i32>::empty()
                &&& pipeline.ring.capacity() == config.fft_size
                &&& pipeline.mapper.peak() == 0
                &&& pipeline.mapper.scheme() == config.scheme
                &&& pipeline.mapper.buckets() == config.spec_displayed_buckets()
                &&& pipeline.history@.len() == 0
                &&& pipeline.history.max_rows() == config.max_rows
                &&& pipeline.limiter.last() == None::<u64>
                &&& pipeline.limiter.min_interval() == config.min_interval_ms
                &&& pipeline.expected_channels == config.channels
            },
    {
        match config.validate() {
            Err(error) => Err(error),
            Ok(()) => Ok(
                Pipeline {
                    ring: SampleRingBuffer::new(config.fft_size),
                    mapper: IntensityMapper::new(config.scheme, config.displayed_buckets()),
                    history: VisualizationHistory::new(config.max_rows),
                    limiter: RateLimiter::new(config.min_interval_ms),
                    expected_channels: config.channels,
                },
            ),
        }
    }

    /// Whether a row is due at `now_ms`: the buffer is full and the rate
    /// limiter lets a run through.
    pub open spec fn row_due(&self, now_ms: u64) -> bool {
        self.ring.is_full() && self.limiter.is_open(now_ms)
    }

    /// Takes one frame of `channels` interleaved channels, delivered at
    /// `now_ms`. Its mono samples go into the ring buffer. If a row is due
    /// after that, the run is recorded with the rate limiter and the report
    /// carries the snapshot to transform; the caller answers with `commit` or
    /// `commit_bins`. History and running peak are not touched here.
    pub fn ingest(&mut self, frame: &[i32], channels: u16, now_ms: u64) -> (report: IngestReport)
        ensures
            final(self).ring@ == fifo_extend(
                old(self).ring@,
                downmix_spec(frame@, channels as nat),
                old(self).ring.capacity() as nat,
            ),
            final(self).ring.capacity() == old(self).ring.capacity(),
            final(self).mapper == old(self).mapper,
            final(self).history == old(self).history,
            final(self).expected_channels == old(self).expected_channels,
            final(self).limiter.min_interval() == old(self).limiter.min_interval(),
            report.transform is Some <==> final(self).ring.is_full() && old(self).limiter.is_open(
                now_ms,
            ),
            report.transform matches Some(samples) ==> samples@ == final(self).ring@,
            final(self).limiter.last() == if report.transform is Some {
                Some(now_ms)
            } else {
                old(self).limiter.last()
            },
            report.mono_samples == complete_slots(frame@.len(), channels as nat),
            report.discarded == leftover_samples(frame@.len(), channels as nat),
            report.channels_differ == (channels != old(self).expected_channels),
    {
        let mixed = downmix(frame, channels);
        self.ring.extend(mixed.mono.as_slice());
        let transform = if self.ring.is_full() && self.limiter.try_pass(now_ms) {
            Some(self.ring.snapshot())
        } else {
            None
        };
        IngestReport {
            transform,
            mono_samples: mixed.mono.len(),
            discarded: mixed.discarded,
            channels_differ: channels != self.expected_channels,
        }
    }

    /// Takes the magnitude spectrum of the last snapshot: maps it to a row
    /// against the running peak, appends the row to the history and raises
    /// the peak. Buffer and rate limiter are not touched.
    pub fn commit(&mut self, spectrum: &[u64])
        ensures
            final(self).history@ == fifo_push(
                old(self).history@,
                row_spec(
                    spectrum@,
                    old(self).mapper.peak(),
                    old(self).mapper.scheme(),
                    old(self).mapper.buckets() as nat,
                ),
                old(self).history.max_rows() as nat,
            ),
            final(self).history.max_rows() == old(self).history.max_rows(),
            final(self).mapper.peak() == updated_peak(old(self).mapper.peak(), spectrum@),
            final(self).mapper.peak() >= old(self).mapper.peak(),
            final(self).mapper.scheme() == old(self).mapper.scheme(),
            final(self).mapper.buckets() == old(self).mapper.buckets(),
            final(self).ring == old(self).ring,
            final(self).limiter == old(self).limiter,
            final(self).expected_channels == old(self).expected_channels,
    {
        let row = self.mapper.map_row(spectrum);
        self.history.push_row(row);
    }

    /// Takes the transform of the last snapshot as complex bins: computes
    /// their magnitudes and commits that spectrum.
    pub fn commit_bins(&mut self, bins: &[Bin])
        ensures
            final(self).history@ == fifo_push(
                old(self).history@,
                row_spec(
                    magnitudes_spec(bins@),
                    old(self).mapper.peak(),
                    old(self).mapper.scheme(),
                    old(self).mapper.buckets() as nat,
                ),
                old(self).history.max_rows() as nat,
            ),
            final(self).history.max_rows() == old(self).history.max_rows(),
            final(self).mapper.peak() == updated_peak(
                old(self).mapper.peak(),
                magnitudes_spec(bins@),
            ),
            final(self).mapper.peak() >= old(self).mapper.peak(),
            final(self).mapper.scheme() == old(self).mapper.scheme(),
            final(self).mapper.buckets() == old(self).mapper.buckets(),
            final(self).ring == old(self).ring,
            final(self).limiter == old(self).limiter,
            final(self).expected_channels == old(self).expected_channels,
    {
        let spectrum = magnitudes(bins);
        self.commit(spectrum.as_slice());
    }

    /// Forgets everything captured: samples, rows, running peak and the last
    /// run of the rate limiter. The layout stays.
    pub fn reset(&mut self)
        ensures
            final(self).ring@ == Seq::<i32>::empty(),
            final(self).ring.capacity() == old(self).ring.capacity(),
            final(self).history@.len() == 0,
            final(self).history.max_rows() == old(self).history.max_rows(),
            final(self).mapper.peak() == 0,
            final(self).mapper.scheme() == old(self).mapper.scheme(),
            final(self).mapper.buckets() == old(self).mapper.buckets(),
            final(self).limiter.last() == None::<u64>,
            final(self).limiter.min_interval() == old(self).limiter.min_interval(),
            final(self).expected_channels == old(self).expected_channels,
    {
        self.ring.clear();
        self.history.clear();
        self.mapper.reset();
        self.limiter.reset();
    }
}

} // verus!
