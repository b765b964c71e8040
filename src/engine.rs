use vstd::prelude::*;

use crate::error::SpectrogramError;
use crate::frames::{frame_count, frame_starts, spec_frame_count};
use crate::window::{kind_of_name, WindowKind};

verus! {

/// Whether a filter bank is projected onto each magnitude frame, and the shape
/// of the row-major weight matrix that was loaded: `num_filters` rows of
/// `fft_size / 2` weights each, of which `weights_len` were supplied.
#[derive(Clone, Copy, Debug, PartialEq, Eq, Structural)]
pub enum FilterBank {
    Disabled,
    Loaded { num_filters: usize, weights_len: usize },
}

/// Entries of row `row` that are present in a matrix of `weights_len` entries
/// with rows of `freq_bins`; absent entries contribute nothing.
pub open spec fn spec_row_extent(row: nat, freq_bins: nat, weights_len: nat) -> nat {
    if weights_len <= row * freq_bins {
        0
    } else if weights_len - row * freq_bins < freq_bins {
        (weights_len - row * freq_bins) as nat
    } else {
        freq_bins
    }
}

/// Abstract state of an engine.
pub struct EngineModel {
    pub fft_size: nat,
    pub window: WindowKind,
    pub filter_bank: FilterBank,
}

impl EngineModel {
    /// Magnitude bins kept per frame: those below the Nyquist bin.
    pub open spec fn freq_bins(self) -> nat {
        self.fft_size / 2
    }

    pub open spec fn num_filters(self) -> nat {
        match self.filter_bank {
            FilterBank::Disabled => 0,
            FilterBank::Loaded { num_filters, .. } => num_filters as nat,
        }
    }

    /// The projection applies only when a bank with at least one row is loaded.
    pub open spec fn projects(self) -> bool {
        match self.filter_bank {
            FilterBank::Disabled => false,
            FilterBank::Loaded { num_filters, .. } => num_filters > 0,
        }
    }

    /// Values per frame of the quantized output.
    pub open spec fn output_bins(self) -> nat {
        if self.projects() {
            self.num_filters()
        } else {
            self.freq_bins()
        }
    }

    pub open spec fn cleared(self) -> EngineModel {
        EngineModel { filter_bank: FilterBank::Disabled, ..self }
    }

    pub open spec fn loaded(self, weights_len: usize, num_filters: usize) -> EngineModel {
        EngineModel { filter_bank: FilterBank::Loaded { num_filters, weights_len }, ..self }
    }
}

/// Fixed configuration of a spectrogram computation: transform length, window
/// kind and the optional filter bank.
pub struct SpectrogramEngine {
    fft_size: usize,
    window: WindowKind,
    filter_bank: FilterBank,
}

impl View for SpectrogramEngine {
    type V = EngineModel;

    closed spec fn view(&self) -> EngineModel {
        EngineModel { fft_size: self.fft_size as nat, window: self.window, filter_bank: self.filter_bank }
    }
}

impl SpectrogramEngine {
    pub open spec fn wf(&self) -> bool {
        self@.fft_size >= 2
    }

    /// Configures an engine for frames of `fft_size` samples weighted by the
    /// window named `window_func` (unknown names select Hann), with no filter bank.
    pub fn new(fft_size: usize, window_func: &str) -> (r: Result<SpectrogramEngine, SpectrogramError>)
        ensures
            fft_size < 2 <==> r == Err::<SpectrogramEngine, SpectrogramError>(SpectrogramError::InvalidFrameLength),
            fft_size >= 2 ==> r is Ok,
            r matches Ok(e) ==> e.wf() && e@ == (EngineModel {
                fft_size: fft_size as nat,
                window: kind_of_name(window_func@),
                filter_bank: FilterBank::Disabled,
            }),
    {
        if fft_size < 2 {
            return Err(SpectrogramError::InvalidFrameLength);
        }
        Ok(SpectrogramEngine { fft_size, window: WindowKind::from_name(window_func), filter_bank: FilterBank::Disabled })
    }

    /// Loads the shape of a row-major filter bank of `num_filters` rows whose
    /// weights number `weights_len`; a shorter matrix is accepted.
    pub fn load_filter_bank(&mut self, weights_len: usize, num_filters: usize)
        ensures
            final(self)@ == old(self)@.loaded(weights_len, num_filters),
    {
        self.filter_bank = FilterBank::Loaded { num_filters, weights_len };
    }

    /// Disables the filter bank.
    pub fn clear_filter_bank(&mut self)
        ensures
            final(self)@ == old(self)@.cleared(),
    {
        self.filter_bank = FilterBank::Disabled;
    }

    pub fn get_fft_size(&self) -> (r: usize)
        ensures
            r == self@.fft_size,
    {
        self.fft_size
    }

    pub fn get_freq_bins(&self) -> (r: usize)
        ensures
            r == self@.freq_bins(),
    {
        self.fft_size / 2
    }

    pub fn get_num_filters(&self) -> (r: usize)
        ensures
            r == self@.num_filters(),
    {
        match self.filter_bank {
            FilterBank::Disabled => 0,
            FilterBank::Loaded { num_filters, .. } => num_filters,
        }
    }

    pub fn window_kind(&self) -> (r: WindowKind)
        ensures
            r == self@.window,
    {
        self.window
    }

    pub fn filter_bank(&self) -> (r: FilterBank)
        ensures
            r == self@.filter_bank,
    {
        self.filter_bank
    }

    /// Whether magnitude frames pass through the filter bank.
    pub fn projects(&self) -> (r: bool)
        ensures
            r == self@.projects(),
    {
        match self.filter_bank {
            FilterBank::Disabled => false,
            FilterBank::Loaded { num_filters, .. } => num_filters > 0,
        }
    }

    /// Values per frame of the quantized output: the number of filters when a
    /// bank projects, else the number of frequency bins.
    pub fn output_bins(&self) -> (r: usize)
        ensures
            r == self@.output_bins(),
    {
        if self.projects() {
            self.get_num_filters()
        } else {
            self.get_freq_bins()
        }
    }

    /// Number of frames in an input of `input_len` samples with `overlap`
    /// samples shared by consecutive frames.
    pub fn frame_count(&self, input_len: usize, overlap: usize) -> (r: Result<usize, SpectrogramError>)
        ensures
            overlap < self@.fft_size ==> r == Ok::<usize, SpectrogramError>(
                spec_frame_count(input_len as nat, self@.fft_size, (self@.fft_size - overlap) as nat) as usize,
            ),
            overlap >= self@.fft_size ==> r == Err::<usize, SpectrogramError>(SpectrogramError::InvalidOverlap),
    {
        frame_count(input_len, self.fft_size, overlap)
    }

    /// Start offsets of the frames of an input of `input_len` samples.
    pub fn frame_starts(&self, input_len: usize, overlap: usize) -> (r: Result<Vec<usize>, SpectrogramError>)
        ensures
            overlap >= self@.fft_size ==> r == Err::<Vec<usize>, SpectrogramError>(SpectrogramError::InvalidOverlap),
            overlap < self@.fft_size ==> r.is_ok() && ({
                let hop = (self@.fft_size - overlap) as nat;
                let starts = r.unwrap()@;
                &&& starts.len() == spec_frame_count(input_len as nat, self@.fft_size, hop)
                &&& forall|f: int| 0 <= f < starts.len() ==> #[trigger] starts[f] == f * hop
                &&& forall|f: int| 0 <= f < starts.len() ==> #[trigger] starts[f] + self@.fft_size <= input_len
            }),
    {
        frame_starts(input_len, self.fft_size, overlap)
    }

    /// Number of leading weights of filter row `row` that the loaded matrix
    /// holds; the remaining weights of the row count as zero. Zero when no bank
    /// is loaded.
    pub fn filter_row_extent(&self, row: usize) -> (r: usize)
        ensures
            r == match self@.filter_bank {
                FilterBank::Disabled => 0,
                FilterBank::Loaded { weights_len, .. } => spec_row_extent(
                    row as nat,
                    self@.freq_bins(),
                    weights_len as nat,
                ),
            },
            r <= self@.freq_bins(),
    {
        let freq_bins = self.get_freq_bins();
        match self.filter_bank {
            FilterBank::Disabled => 0,
            FilterBank::Loaded { weights_len, .. } => match row.checked_mul(freq_bins) {
                None => 0,
                Some(start) => {
                    if weights_len <= start {
                        0
                    } else if weights_len - start < freq_bins {
                        weights_len - start
                    } else {
                        freq_bins
                    }
                },
            },
        }
    }
}

/// Clearing the filter bank leaves no filters, makes the quantized output as
/// wide as the frequency bins, and clearing again changes nothing.
pub proof fn lemma_clear_filter_bank(engine: EngineModel)
    ensures
        engine.cleared().num_filters() == 0,
        engine.cleared().output_bins() == engine.cleared().freq_bins(),
        engine.cleared().freq_bins() == engine.freq_bins(),
        engine.cleared().cleared() == engine.cleared(),
{
}

} // verus!
