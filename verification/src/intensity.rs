//! Normalisation of magnitudes against a running peak, and the colour scale.
//!
//! Normalisation is linear: the intensity of a bin is its magnitude divided
//! by the running peak, clamped to `[0, 1]`. Intensities are kept as levels
//! from 0 to 255, the level being `255 * intensity` rounded down. While no
//! signal has been seen the peak is zero, and every level is zero too.

use vstd::prelude::*;

verus! {

/// An RGB colour.
#[derive(Clone, Copy, Debug, PartialEq, Eq, Structural)]
pub struct Color {
    pub r: u8,
    pub g: u8,
    pub b: u8,
}

/// How an intensity level is shown.
#[derive(Clone, Copy, Debug, PartialEq, Eq, Structural)]
pub enum ColorScheme {
    /// `rgb(level, 0, 0)`.
    RedOnly,
    /// `rgb(level, 0, 255 - level)`: blue for silence, red for the peak.
    RedBlue,
}

/// The level of a magnitude against a peak: `255 * magnitude / peak` rounded
/// down, at most 255, and 0 while the peak is 0.
pub open spec fn intensity_level(magnitude: u64, peak: u64) -> u8 {
    if peak == 0 {
        0
    } else if magnitude >= peak {
        255
    } else {
        ((255 * magnitude) / (peak as int)) as u8
    }
}

/// The colour of a level under a scheme.
pub open spec fn color_spec(level: u8, scheme: ColorScheme) -> Color {
    match scheme {
        ColorScheme::RedOnly => Color { r: level, g: 0, b: 0 },
        ColorScheme::RedBlue => Color { r: level, g: 0, b: (255 - level) as u8 },
    }
}

/// The colours of one row: one per displayed bucket, bucket `k` showing bin
/// `k` of the spectrum normalised against `peak`. Bins beyond `buckets` are
/// not shown.
pub open spec fn row_spec(spectrum: Seq<u64>, peak: u64, scheme: ColorScheme, buckets: nat) -> Seq<
    Color,
> {
    Seq::new(
        if buckets <= spectrum.len() {
            buckets
        } else {
            spectrum.len()
        },
        |k: int| color_spec(intensity_level(spectrum[k], peak), scheme),
    )
}

/// The largest magnitude of a spectrum, 0 for an empty one.
pub open spec fn spectrum_peak(spectrum: Seq<u64>) -> u64
    decreases spectrum.len(),
{
    if spectrum.len() == 0 {
        0
    } else {
        let before = spectrum_peak(spectrum.drop_last());
        if spectrum.last() > before {
            spectrum.last()
        } else {
            before
        }
    }
}

/// The running peak after a spectrum has been seen.
pub open spec fn updated_peak(peak: u64, spectrum: Seq<u64>) -> u64 {
    if spectrum_peak(spectrum) > peak {
        spectrum_peak(spectrum)
    } else {
        peak
    }
}

/// The running peak after each spectrum of `spectra` has been seen in turn.
pub open spec fn peak_after(peak: u64, spectra: Seq<Seq<u64>>) -> u64
    decreases spectra.len(),
{
    if spectra.len() == 0 {
        peak
    } else {
        updated_peak(peak_after(peak, spectra.drop_last()), spectra.last())
    }
}

/// `spectrum_peak` is the maximum: no magnitude exceeds it, and unless the
/// spectrum is empty some bin attains it.
pub proof fn lemma_spectrum_peak_is_max(spectrum: Seq<u64>)
    ensures
        forall|k: int| 0 <= k < spectrum.len() ==> spectrum[k] <= spectrum_peak(spectrum),
        spectrum.len() > 0 ==> exists|k: int|
            0 <= k < spectrum.len() && spectrum[k] == spectrum_peak(spectrum),
        spectrum.len() == 0 ==> spectrum_peak(spectrum) == 0,
    decreases spectrum.len(),
{
    if spectrum.len() > 0 {
        let front = spectrum.drop_last();
        lemma_spectrum_peak_is_max(front);
        assert forall|k: int| 0 <= k < spectrum.len() implies spectrum[k] <= spectrum_peak(
            spectrum,
        ) by {
            if k < front.len() {
                assert(front[k] == spectrum[k]);
            }
        }
        if spectrum.last() > spectrum_peak(front) || front.len() == 0 {
            assert(spectrum[spectrum.len() - 1] == spectrum_peak(spectrum));
        } else {
            let k = choose|k: int| 0 <= k < front.len() && front[k] == spectrum_peak(front);
            assert(spectrum[k] == spectrum_peak(spectrum));
        }
    }
}

/// While the running peak is zero every bucket shows level zero, whatever the
/// spectrum holds.
pub proof fn lemma_zero_peak_gives_zero_levels(
    spectrum: Seq<u64>,
    scheme: ColorScheme,
    buckets: nat,
)
    ensures
        forall|k: int|
            0 <= k < row_spec(spectrum, 0, scheme, buckets).len() ==> row_spec(
                spectrum,
                0,
                scheme,
                buckets,
            )[k] == color_spec(0, scheme),
{
}

/// Seeing one more spectrum never lowers the running peak, and afterwards the
/// peak is at least every magnitude of that spectrum.
pub proof fn lemma_updated_peak_bounds(peak: u64, spectrum: Seq<u64>)
    ensures
        updated_peak(peak, spectrum) >= peak,
        forall|k: int| 0 <= k < spectrum.len() ==> spectrum[k] <= updated_peak(peak, spectrum),
{
    lemma_spectrum_peak_is_max(spectrum);
}

/// Across any sequence of updates the running peak never decreases: after
/// `later` updates it is at least what it was after `earlier` of them.
pub proof fn lemma_running_peak_never_decreases(
    peak: u64,
    spectra: Seq<Seq<u64>>,
    earlier: int,
    later: int,
)
    requires
        0 <= earlier <= later <= spectra.len(),
    ensures
        peak_after(peak, spectra.take(earlier)) <= peak_after(peak, spectra.take(later)),
    decreases later - earlier,
{
    if earlier < later {
        lemma_running_peak_never_decreases(peak, spectra, earlier, later - 1);
        assert(spectra.take(later).drop_last() =~= spectra.take(later - 1));
    }
}

/// The level of `magnitude` against `peak`.
pub fn level_of(magnitude: u64, peak: u64) -> (level: u8)
    ensures
        level == intensity_level(magnitude, peak),
        peak == 0 ==> level == 0,
{
    if peak == 0 {
        0
    } else if magnitude >= peak {
        255
    } else {
        let scaled: u128 = 255 * (magnitude as u128);
        proof {
            assert(scaled / (peak as u128) < 255) by (nonlinear_arith)
                requires
                    scaled == 255 * magnitude,
                    0 <= magnitude < peak,
            ;
        }
        (scaled / (peak as u128)) as u8
    }
}

/// The colour of `level` under `scheme`.
pub fn color_of(level: u8, scheme: ColorScheme) -> (color: Color)
    ensures
        color == color_spec(level, scheme),
{
    match scheme {
        ColorScheme::RedOnly => Color { r: level, g: 0, b: 0 },
        ColorScheme::RedBlue => Color { r: level, g: 0, b: 255 - level },
    }
}

/// The largest magnitude of `spectrum`, 0 for an empty one.
pub fn peak_of(spectrum: &[u64]) -> (peak: u64)
    ensures
        peak == spectrum_peak(spectrum@),
{
    let mut peak: u64 = 0;
    let mut k: usize = 0;
    while k < spectrum.len()
        invariant
            k <= spectrum.len(),
            peak == spectrum_peak(spectrum@.take(k as int)),
        decreases spectrum.len() - k,
    {
        proof {
            assert(spectrum@.take(k + 1).drop_last() =~= spectrum@.take(k as int));
        }
        if spectrum[k] > peak {
            peak = spectrum[k];
        }
        k += 1;
    }
    proof {
        assert(spectrum@.take(k as int) =~= spectrum@);
    }
    peak
}

/// One time-slice of the visualization: a colour per displayed bucket.
/// A row is complete when it is made and is never changed afterwards.
#[derive(Debug, PartialEq, Eq)]
pub struct ColorRow {
    cells: Vec<Color>,
}

impl Clone for ColorRow {
    /// A copy of the row, colour for colour.
    fn clone(&self) -> (copy: Self)
        ensures
            copy@ == self@,
    {
        let cells = self.cells.clone();
        proof {
            assert(cells@ =~= self.cells@);
        }
        ColorRow { cells }
    }
}

impl View for ColorRow {
    type V = Seq<Color>;

    closed spec fn view(&self) -> Seq<Color> {
        self.cells@
    }
}

impl ColorRow {
    /// A row of the given colours.
    pub fn from_cells(cells: Vec<Color>) -> (row: Self)
        ensures
            row@ == cells@,
    {
        ColorRow { cells }
    }

    /// The number of buckets of the row.
    pub fn len(&self) -> (len: usize)
        ensures
            len == self@.len(),
    {
        self.cells.len()
    }

    /// The colour of bucket `k`, if the row has one.
    pub fn get(&self, k: usize) -> (color: Option<Color>)
        ensures
            color == if k < self@.len() {
                Some(self@[k as int])
            } else {
                None
            },
    {
        if k < self.cells.len() {
            Some(self.cells[k])
        } else {
            None
        }
    }

    /// The colours of the row, bucket by bucket.
    pub fn cells(&self) -> (cells: &[Color])
        ensures
            cells@ == self@,
    {
        self.cells.as_slice()
    }
}

/// Maps spectra to rows against the largest magnitude seen so far.
///
/// The running peak starts at zero and only `reset` ever lowers it.
pub struct IntensityMapper {
    peak: u64,
    scheme: ColorScheme,
    buckets: usize,
}

impl IntensityMapper {
    /// The running peak: the largest magnitude seen since the last reset.
    pub closed spec fn spec_peak(&self) -> u64 {
        self.peak
    }

    /// The colour scheme of every row this mapper makes.
    pub closed spec fn spec_scheme(&self) -> ColorScheme {
        self.scheme
    }

    /// The number of buckets a row shows at most.
    pub closed spec fn spec_buckets(&self) -> usize {
        self.buckets
    }

    /// A mapper that has seen no signal yet.
    pub fn new(scheme: ColorScheme, buckets: usize) -> (mapper: Self)
        ensures
            mapper.spec_peak() == 0,
            mapper.spec_scheme() == scheme,
            mapper.spec_buckets() == buckets,
    {
        IntensityMapper { peak: 0, scheme, buckets }
    }

    #[verifier::when_used_as_spec(spec_peak)]
    pub fn peak(&self) -> (peak: u64)
        ensures
            peak == self.spec_peak(),
    {
        self.peak
    }

    #[verifier::when_used_as_spec(spec_scheme)]
    pub fn scheme(&self) -> (scheme: ColorScheme)
        ensures
            scheme == self.spec_scheme(),
    {
        self.scheme
    }

    #[verifier::when_used_as_spec(spec_buckets)]
    pub fn buckets(&self) -> (buckets: usize)
        ensures
            buckets == self.spec_buckets(),
    {
        self.buckets
    }

    /// Maps one spectrum to a row, normalising against the peak seen before
    /// this spectrum, then raises the running peak to the largest magnitude
    /// of the spectrum if that is larger.
    pub fn map_row(&mut self, spectrum: &[u64]) -> (row: ColorRow)
        ensures
            row@ == row_spec(
                spectrum@,
                old(self).spec_peak(),
                old(self).spec_scheme(),
                old(self).spec_buckets() as nat,
            ),
            old(self).spec_peak() == 0 ==> forall|k: int|
                0 <= k < row@.len() ==> row@[k] == color_spec(0, old(self).spec_scheme()),
            final(self).spec_peak() == updated_peak(old(self).spec_peak(), spectrum@),
            final(self).spec_peak() >= old(self).spec_peak(),
            final(self).spec_scheme() == old(self).spec_scheme(),
            final(self).spec_buckets() == old(self).spec_buckets(),
    {
        let shown = if self.buckets <= spectrum.len() {
            self.buckets
        } else {
            spectrum.len()
        };
        let mut cells: Vec<Color> = Vec::with_capacity(shown);
        let mut k: usize = 0;
        while k < shown
            invariant
                k <= shown <= spectrum.len(),
                cells@.len() == k,
                forall|j: int|
                    0 <= j < k ==> cells@[j] == color_spec(
                        intensity_level(spectrum@[j], self.peak),
                        self.scheme,
                    ),
            decreases shown - k,
        {
            cells.push(color_of(level_of(spectrum[k], self.peak), self.scheme));
            k += 1;
        }
        proof {
            assert(cells@ =~= row_spec(spectrum@, self.peak, self.scheme, self.buckets as nat));
        }
        let seen = peak_of(spectrum);
        if seen > self.peak {
            self.peak = seen;
        }
        ColorRow { cells }
    }

    /// Forgets the running peak, as if no signal had been seen.
    pub fn reset(&mut self)
        ensures
            final(self).spec_peak() == 0,
            final(self).spec_scheme() == old(self).spec_scheme(),
            final(self).spec_buckets() == old(self).spec_buckets(),
    {
        self.peak = 0;
    }
}

} // verus!
