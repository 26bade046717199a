use vstd::prelude::*;

use crate::channel::{FeatureFrame, FrameData};
use crate::history::{waterfall_push, LoudnessHistory, WaterfallHistory, RMS_SIZE, WF_SIZE};
use crate::trace::{current_step, idle_step, peak_step, SpectrumTrace, MAG_MAX, PEAK_MAX};

verus! {

/// A raw spectral frame prepared for plotting: the first bin (the DC
/// artifact) dropped, the remaining bins reversed, and the front `n` of the
/// result kept — so plotted bin `i` is raw bin `len - 1 - i`.
pub open spec fn plotted_bins(raw: Seq<u64>, n: nat) -> Seq<u64> {
    Seq::new(n, |i: int| raw[raw.len() - 1 - i])
}

/// Whether one frame fits an engine plotting `n` bins: a spectral frame
/// carries the full transform length and magnitudes within bounds; a
/// loudness frame always fits.
pub open spec fn frame_fits(f: FrameData, n: nat) -> bool {
    match f {
        FrameData::Loudness(_) => true,
        FrameData::Spectrum(raw) => raw.len() == 2 * n && (forall|i: int|
            0 <= i < raw.len() ==> raw[i] <= MAG_MAX),
    }
}

/// Apply the plotting transform to a raw spectral frame.
pub fn transform_frame(raw: &Vec<u64>, n: usize) -> (bins: Vec<u64>)
    requires
        raw@.len() == 2 * n,
    ensures
        bins@ =~= plotted_bins(raw@, n as nat),
{
    let mut bins: Vec<u64> = Vec::new();
    let mut i: usize = 0;
    while i < n
        invariant
            i <= n,
            raw@.len() == 2 * n,
            bins@.len() == i,
            forall|j: int| 0 <= j < i ==> bins@[j] == raw@[raw@.len() - 1 - j],
        decreases n - i,
    {
        bins.push(raw[raw.len() - 1 - i]);
        i = i + 1;
    }
    bins
}

/// An exact copy of a magnitude row.
fn copy_row(v: &Vec<u64>) -> (r: Vec<u64>)
    ensures
        r@ =~= v@,
{
    let mut r: Vec<u64> = Vec::new();
    let mut i: usize = 0;
    while i < v.len()
        invariant
            i <= v@.len(),
            r@.len() == i,
            forall|j: int| 0 <= j < i ==> r@[j] == v@[j],
        decreases v@.len() - i,
    {
        r.push(v[i]);
        i = i + 1;
    }
    r
}

/// The display side's state: consumes one polled frame per display tick and
/// keeps the three bounded buffers the renderer reads — the spectrum trace,
/// the waterfall and the loudness history. It never blocks and is only ever
/// touched from the display thread.
pub struct VisualEngine {
    trace: SpectrumTrace,
    waterfall: WaterfallHistory,
    loudness: LoudnessHistory,
}

impl VisualEngine {
    /// The fast-attack spectrum envelope.
    pub closed spec fn current(&self) -> Seq<u64> {
        self.trace.current()
    }

    /// The peak-hold spectrum envelope.
    pub closed spec fn peak(&self) -> Seq<u64> {
        self.trace.peak()
    }

    /// The waterfall rows, newest first.
    pub closed spec fn waterfall_rows(&self) -> Seq<Seq<u64>> {
        self.waterfall.entries()
    }

    /// The loudness samples, oldest first.
    pub closed spec fn loudness_samples(&self) -> Seq<u64> {
        self.loudness.entries()
    }

    /// Number of plotted spectrum bins.
    pub closed spec fn size(&self) -> nat {
        self.trace.size()
    }

    /// All three buffers hold their invariants: the envelopes have the
    /// trace's length and bounded magnitudes, the waterfall stays within its
    /// depth, and the loudness history keeps its exact length.
    pub open spec fn wf(&self) -> bool {
        &&& self.current().len() == self.size()
        &&& self.peak().len() == self.size()
        &&& forall|i: int| 0 <= i < self.current().len() ==> self.current()[i] <= MAG_MAX
        &&& forall|i: int| 0 <= i < self.peak().len() ==> self.peak()[i] <= PEAK_MAX
        &&& self.waterfall_rows().len() <= WF_SIZE
        &&& self.loudness_samples().len() == RMS_SIZE
    }

    /// A fresh engine for raw spectral frames of length `fft_size`, plotting
    /// half that many bins: envelopes and loudness at silence, waterfall
    /// empty.
    pub fn new(fft_size: usize) -> (e: VisualEngine)
        requires
            fft_size % 2 == 0,
        ensures
            e.wf(),
            e.size() == fft_size / 2,
            forall|i: int| 0 <= i < e.size() ==> e.current()[i] == 0 && e.peak()[i] == 0,
            e.waterfall_rows() =~= Seq::<Seq<u64>>::empty(),
            forall|i: int| 0 <= i < e.loudness_samples().len() ==> e.loudness_samples()[i] == 0,
    {
        VisualEngine {
            trace: SpectrumTrace::new(fft_size / 2),
            waterfall: WaterfallHistory::new(),
            loudness: LoudnessHistory::new(),
        }
    }

    /// One display tick. A polled loudness frame rolls the loudness history;
    /// a spectral frame is transformed for plotting, the pre-update envelope
    /// becomes the newest waterfall row, and both envelopes take their
    /// attack/decay steps; a tick that produced no frame fades every bin of
    /// both envelopes toward silence, whatever the playback state reads.
    pub fn tick(&mut self, polled: Option<FeatureFrame>)
        requires
            old(self).wf(),
            match polled {
                Some(frame) => frame_fits(frame@, old(self).size()),
                None => true,
            },
        ensures
            final(self).wf(),
            final(self).size() == old(self).size(),
            match polled {
                None => {
                    &&& final(self).loudness_samples() == old(self).loudness_samples()
                    &&& final(self).waterfall_rows() == old(self).waterfall_rows()
                    &&& forall|i: int|
                        0 <= i < old(self).size() ==> final(self).current()[i] == idle_step(
                            old(self).current()[i] as int,
                        )
                    &&& forall|i: int|
                        0 <= i < old(self).size() ==> final(self).peak()[i] == idle_step(
                            old(self).peak()[i] as int,
                        )
                },
                Some(frame) => match frame@ {
                    FrameData::Loudness(v) => {
                        &&& final(self).loudness_samples() =~= old(self).loudness_samples().skip(
                            1,
                        ).push(v)
                        &&& final(self).current() == old(self).current()
                        &&& final(self).peak() == old(self).peak()
                        &&& final(self).waterfall_rows() == old(self).waterfall_rows()
                    },
                    FrameData::Spectrum(raw) => {
                        &&& final(self).waterfall_rows() =~= waterfall_push(
                            old(self).waterfall_rows(),
                            old(self).current(),
                        )
                        &&& forall|i: int|
                            0 <= i < old(self).size() ==> final(self).current()[i] == current_step(
                                old(self).current()[i] as int,
                                plotted_bins(raw, old(self).size())[i] as int,
                            )
                        &&& forall|i: int|
                            0 <= i < old(self).size() ==> final(self).peak()[i] == peak_step(
                                old(self).peak()[i] as int,
                                plotted_bins(raw, old(self).size())[i] as int,
                            )
                        &&& final(self).loudness_samples() == old(self).loudness_samples()
                    },
                },
            },
    {
        match polled {
            None => {
                self.trace.decay_idle();
            },
            Some(frame) => match frame {
                FeatureFrame::Loudness(v) => {
                    self.loudness.push(v);
                },
                FeatureFrame::Spectrum(raw) => {
                    let n = self.trace.bin_count();
                    let bins = transform_frame(&raw, n);
                    let row = copy_row(self.trace.current_bins());
                    self.waterfall.push(row);
                    self.trace.apply_frame(&bins);
                },
            },
        }
    }

    /// Read access for the renderer: the fast-attack envelope.
    pub fn current_bins(&self) -> (r: &Vec<u64>)
        ensures
            r@ == self.current(),
    {
        self.trace.current_bins()
    }

    /// Read access for the renderer: the peak-hold envelope.
    pub fn peak_bins(&self) -> (r: &Vec<u64>)
        ensures
            r@ == self.peak(),
    {
        self.trace.peak_bins()
    }

    /// How many waterfall rows there are to draw.
    pub fn waterfall_len(&self) -> (n: usize)
        ensures
            n == self.waterfall_rows().len(),
    {
        self.waterfall.len()
    }

    /// The waterfall row at position `i`, newest first.
    pub fn waterfall_row(&self, i: usize) -> (r: &Vec<u64>)
        requires
            i < self.waterfall_rows().len(),
        ensures
            r@ == self.waterfall_rows()[i as int],
    {
        self.waterfall.row_at(i)
    }

    /// Read access for the renderer: the loudness samples, oldest first.
    pub fn loudness_vec(&self) -> (r: &Vec<u64>)
        ensures
            r@ == self.loudness_samples(),
    {
        self.loudness.samples_vec()
    }
}

} // verus!
