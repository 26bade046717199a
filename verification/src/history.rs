use vstd::prelude::*;

verus! {

/// Depth of the waterfall: how many spectrogram rows are kept.
pub const WF_SIZE: usize = 100;

/// Length of the rolling loudness trace.
pub const RMS_SIZE: usize = 250;

/// The waterfall after one row arrives: the new row goes in front, and the
/// oldest row falls off once the depth would be exceeded.
pub open spec fn waterfall_push(rows: Seq<Seq<u64>>, row: Seq<u64>) -> Seq<Seq<u64>> {
    let grown = seq![row] + rows;
    if grown.len() <= WF_SIZE {
        grown
    } else {
        grown.take(WF_SIZE as int)
    }
}

/// The waterfall after a whole series of rows arrives, oldest first.
pub open spec fn waterfall_push_all(rows: Seq<Seq<u64>>, arrivals: Seq<Seq<u64>>) -> Seq<Seq<u64>>
    decreases arrivals.len(),
{
    if arrivals.len() == 0 {
        rows
    } else {
        waterfall_push_all(waterfall_push(rows, arrivals[0]), arrivals.skip(1))
    }
}

/// What any series of arrivals leaves in the waterfall: at most `WF_SIZE`
/// rows, the arrivals newest-first in front, the prior rows (as far as they
/// survive) behind them in their old order.
pub proof fn lemma_waterfall_push_all(rows: Seq<Seq<u64>>, arrivals: Seq<Seq<u64>>)
    requires
        rows.len() <= WF_SIZE,
    ensures
        waterfall_push_all(rows, arrivals).len() == if rows.len() + arrivals.len() <= WF_SIZE {
            rows.len() + arrivals.len()
        } else {
            WF_SIZE as nat
        },
        forall|i: int|
            0 <= i < waterfall_push_all(rows, arrivals).len() ==> waterfall_push_all(
                rows,
                arrivals,
            )[i] == if i < arrivals.len() {
                arrivals[arrivals.len() - 1 - i]
            } else {
                rows[i - arrivals.len()]
            },
    decreases arrivals.len(),
{
    if arrivals.len() > 0 {
        let stepped = waterfall_push(rows, arrivals[0]);
        let rest = arrivals.skip(1);
        lemma_waterfall_push_all(stepped, rest);
        assert forall|i: int| 0 <= i < waterfall_push_all(rows, arrivals).len() implies
            waterfall_push_all(rows, arrivals)[i] == if i < arrivals.len() {
                arrivals[arrivals.len() - 1 - i]
            } else {
                rows[i - arrivals.len()]
            } by {
            if i >= rest.len() {
                assert(stepped[i - rest.len()] == if i - rest.len() == 0 {
                    arrivals[0]
                } else {
                    rows[i - rest.len() - 1]
                });
            }
        }
    }
}

/// The waterfall never exceeds its depth, whatever arrives and at whatever
/// rate; and once at least `WF_SIZE` rows have arrived, it holds exactly the
/// newest `WF_SIZE` of them, newest first — every older row is gone.
pub proof fn lemma_waterfall_newest_first(rows: Seq<Seq<u64>>, arrivals: Seq<Seq<u64>>)
    requires
        rows.len() <= WF_SIZE,
    ensures
        waterfall_push_all(rows, arrivals).len() <= WF_SIZE,
        arrivals.len() >= WF_SIZE ==> waterfall_push_all(rows, arrivals) =~= Seq::new(
            WF_SIZE as nat,
            |i: int| arrivals[arrivals.len() - 1 - i],
        ),
{
    lemma_waterfall_push_all(rows, arrivals);
}

/// The scrolling spectrogram history: an ordered sequence of at most
/// `WF_SIZE` rows, newest first. Each row is one transformed spectral frame
/// worth of magnitudes; mapping magnitudes to colors is the renderer's
/// business, not kept here.
pub struct WaterfallHistory {
    rows: Vec<Vec<u64>>,
}

impl WaterfallHistory {
    /// The rows, newest first.
    pub closed spec fn entries(&self) -> Seq<Seq<u64>> {
        self.rows@.map_values(|r: Vec<u64>| r@)
    }

    /// The history never holds more than `WF_SIZE` rows.
    pub open spec fn wf(&self) -> bool {
        self.entries().len() <= WF_SIZE
    }

    /// A fresh, empty waterfall.
    pub fn new() -> (w: WaterfallHistory)
        ensures
            w.wf(),
            w.entries() =~= Seq::<Seq<u64>>::empty(),
    {
        WaterfallHistory { rows: Vec::new() }
    }

    /// Put one arrived row in front, dropping the oldest row if the depth
    /// would be exceeded.
    pub fn push(&mut self, row: Vec<u64>)
        requires
            old(self).wf(),
        ensures
            final(self).wf(),
            final(self).entries() =~= waterfall_push(old(self).entries(), row@),
    {
        self.rows.insert(0, row);
        if self.rows.len() > WF_SIZE {
            let _evicted = self.rows.pop();
        }
    }

    /// How many rows the history holds.
    pub fn len(&self) -> (n: usize)
        ensures
            n == self.entries().len(),
    {
        self.rows.len()
    }

    /// The row at position `i`, newest first.
    pub fn row_at(&self, i: usize) -> (r: &Vec<u64>)
        requires
            i < self.entries().len(),
        ensures
            r@ == self.entries()[i as int],
    {
        &self.rows[i]
    }
}

/// The rolling loudness trace: always exactly `RMS_SIZE` scalar samples,
/// oldest first, initialized to silence. A new sample evicts the oldest —
/// the length never grows and never shrinks.
pub struct LoudnessHistory {
    samples: Vec<u64>,
}

impl LoudnessHistory {
    /// The samples, oldest first.
    pub closed spec fn entries(&self) -> Seq<u64> {
        self.samples@
    }

    /// The trace holds exactly `RMS_SIZE` samples at all times.
    pub open spec fn wf(&self) -> bool {
        self.entries().len() == RMS_SIZE
    }

    /// A fresh trace: `RMS_SIZE` samples of silence.
    pub fn new() -> (h: LoudnessHistory)
        ensures
            h.wf(),
            forall|i: int| 0 <= i < RMS_SIZE ==> h.entries()[i] == 0,
    {
        let mut samples: Vec<u64> = Vec::new();
        let mut i: usize = 0;
        while i < RMS_SIZE
            invariant
                i <= RMS_SIZE,
                samples@.len() == i,
                forall|j: int| 0 <= j < i ==> samples@[j] == 0,
            decreases RMS_SIZE - i,
        {
            samples.push(0);
            i = i + 1;
        }
        LoudnessHistory { samples }
    }

    /// Take one arrived loudness sample: the oldest sample is evicted, the
    /// new one appended, and the length stays exactly `RMS_SIZE`.
    pub fn push(&mut self, value: u64)
        requires
            old(self).wf(),
        ensures
            final(self).wf(),
            final(self).entries() =~= old(self).entries().skip(1).push(value),
    {
        let _evicted = self.samples.remove(0);
        self.samples.push(value);
    }

    /// Read access for the renderer: the samples, oldest first.
    pub fn samples_vec(&self) -> (r: &Vec<u64>)
        ensures
            r@ == self.entries(),
    {
        &self.samples
    }
}

} // verus!
