use vstd::prelude::*;

verus! {

/// Largest magnitude a spectral bin may carry, in fixed-point units. The
/// bound leaves room for the peak overshoot and the decay arithmetic in
/// 64 bits; the caller picks the scale when it converts raw measurements.
pub const MAG_MAX: u64 = 0x10_0000_0000_0000;

/// Largest value the overshoot peak envelope can reach.
pub const PEAK_MAX: u64 = MAG_MAX * 105 / 100;

/// One step of the fast-attack, slow-release envelope: snap up to a louder
/// input, otherwise keep 97% (rounded down) of the held value.
pub open spec fn current_step(held: int, input: int) -> int {
    if input > held {
        input
    } else {
        held * 97 / 100
    }
}

/// One step of the overshoot peak-hold envelope: jump 5% above a louder
/// input, otherwise keep 99.8% (rounded down) of the held value.
pub open spec fn peak_step(held: int, input: int) -> int {
    if input > held {
        input * 105 / 100
    } else {
        held * 998 / 1000
    }
}

/// One step of the fade-to-silence decay applied on a tick that produced no
/// frame: keep 94% (rounded down) of the held value.
pub open spec fn idle_step(held: int) -> int {
    held * 94 / 100
}

/// `held` after `k` idle ticks: the idle decay applied exactly `k` times.
pub open spec fn idle_after(held: int, k: nat) -> int
    decreases k,
{
    if k == 0 {
        held
    } else {
        idle_after(idle_step(held), (k - 1) as nat)
    }
}

/// `held` after `k` frames none of which rises above the envelope: the
/// release branch of `current_step`, taken exactly `k` times.
pub open spec fn release_after(held: int, k: nat) -> int
    decreases k,
{
    if k == 0 {
        held
    } else {
        release_after(held * 97 / 100, (k - 1) as nat)
    }
}

/// `held` after `k` frames none of which rises above the peak envelope: the
/// peak's release branch, taken exactly `k` times.
pub open spec fn peak_release_after(held: int, k: nat) -> int
    decreases k,
{
    if k == 0 {
        held
    } else {
        peak_release_after(held * 998 / 1000, (k - 1) as nat)
    }
}

/// The fast-attack envelope at one bin after a whole series of inputs.
pub open spec fn current_after(held: int, inputs: Seq<int>) -> int
    decreases inputs.len(),
{
    if inputs.len() == 0 {
        held
    } else {
        current_after(current_step(held, inputs[0]), inputs.skip(1))
    }
}

/// The peak-hold envelope at one bin after a whole series of inputs.
pub open spec fn peak_after(held: int, inputs: Seq<int>) -> int
    decreases inputs.len(),
{
    if inputs.len() == 0 {
        held
    } else {
        peak_after(peak_step(held, inputs[0]), inputs.skip(1))
    }
}

/// Scaling a non-negative value by a factor below one, in integer
/// arithmetic, never enlarges it.
proof fn lemma_decay_shrinks(v: int, num: int, den: int)
    requires
        0 <= v,
        0 <= num <= den,
        0 < den,
    ensures
        0 <= v * num / den <= v,
{
    assert(0 <= v * num <= v * den) by (nonlinear_arith)
        requires
            0 <= v && 0 <= num <= den,
    ;
    assert(v * num / den <= v * den / den) by (nonlinear_arith)
        requires
            v * num <= v * den && 0 < den,
    ;
    assert(v * den / den == v) by (nonlinear_arith)
        requires
            0 < den,
    ;
    assert(0 <= v * num / den) by (nonlinear_arith)
        requires
            0 <= v * num && 0 < den,
    ;
}

/// The two parallel envelopes over the plotted spectrum: `current` follows
/// the signal with fast attack and slow release, `peak` marks recent maxima
/// with an overshoot and a very slow decay. Both always have the trace's
/// fixed length.
pub struct SpectrumTrace {
    current: Vec<u64>,
    peak: Vec<u64>,
}

impl SpectrumTrace {
    /// The fast-attack, slow-release envelope, one value per plotted bin.
    pub closed spec fn current(&self) -> Seq<u64> {
        self.current@
    }

    /// The overshoot peak-hold envelope, one value per plotted bin.
    pub closed spec fn peak(&self) -> Seq<u64> {
        self.peak@
    }

    /// Number of plotted bins.
    pub closed spec fn size(&self) -> nat {
        self.current@.len()
    }

    /// Both envelopes have the trace's length and stay within the magnitude
    /// bounds, so the decay and overshoot arithmetic cannot wrap.
    pub open spec fn wf(&self) -> bool {
        &&& self.current().len() == self.size()
        &&& self.peak().len() == self.size()
        &&& forall|i: int| 0 <= i < self.current().len() ==> self.current()[i] <= MAG_MAX
        &&& forall|i: int| 0 <= i < self.peak().len() ==> self.peak()[i] <= PEAK_MAX
    }

    /// A fresh trace of `n` bins, both envelopes all zero.
    pub fn new(n: usize) -> (t: SpectrumTrace)
        ensures
            t.wf(),
            t.size() == n,
            forall|i: int| 0 <= i < n ==> t.current()[i] == 0 && t.peak()[i] == 0,
    {
        let mut current: Vec<u64> = Vec::new();
        let mut peak: Vec<u64> = Vec::new();
        let mut i: usize = 0;
        while i < n
            invariant
                i <= n,
                current@.len() == i,
                peak@.len() == i,
                forall|j: int| 0 <= j < i ==> current@[j] == 0 && peak@[j] == 0,
            decreases n - i,
        {
            current.push(0);
            peak.push(0);
            i = i + 1;
        }
        SpectrumTrace { current, peak }
    }

    /// Fold one transformed spectral frame into both envelopes: per bin, the
    /// fast-attack step on `current` and the overshoot step on `peak`.
    pub fn apply_frame(&mut self, bins: &Vec<u64>)
        requires
            old(self).wf(),
            bins@.len() == old(self).size(),
            forall|i: int| 0 <= i < bins@.len() ==> bins@[i] <= MAG_MAX,
        ensures
            final(self).wf(),
            final(self).size() == old(self).size(),
            forall|i: int|
                0 <= i < old(self).size() ==> final(self).current()[i] == current_step(
                    old(self).current()[i] as int,
                    bins@[i] as int,
                ),
            forall|i: int|
                0 <= i < old(self).size() ==> final(self).peak()[i] == peak_step(
                    old(self).peak()[i] as int,
                    bins@[i] as int,
                ),
    {
        let n = self.current.len();
        let mut i: usize = 0;
        while i < n
            invariant
                i <= n,
                n == old(self).size(),
                old(self).wf(),
                bins@.len() == n,
                forall|j: int| 0 <= j < n ==> bins@[j] <= MAG_MAX,
                self.current@.len() == n,
                self.peak@.len() == n,
                forall|j: int| i <= j < n ==> self.current@[j] == old(self).current()[j],
                forall|j: int| i <= j < n ==> self.peak@[j] == old(self).peak()[j],
                forall|j: int| 0 <= j < n ==> self.current@[j] <= MAG_MAX,
                forall|j: int| 0 <= j < n ==> self.peak@[j] <= PEAK_MAX,
                forall|j: int|
                    0 <= j < i ==> self.current@[j] == current_step(
                        old(self).current()[j] as int,
                        bins@[j] as int,
                    ),
                forall|j: int|
                    0 <= j < i ==> self.peak@[j] == peak_step(
                        old(self).peak()[j] as int,
                        bins@[j] as int,
                    ),
            decreases n - i,
        {
            let v = bins[i];
            let held = self.current[i];
            if v > held {
                self.current[i] = v;
            } else {
                proof {
                    lemma_decay_shrinks(held as int, 97, 100);
                }
                self.current[i] = held * 97 / 100;
            }
            let held_peak = self.peak[i];
            if v > held_peak {
                self.peak[i] = v * 105 / 100;
                proof {
                    assert(v * 105 / 100 <= PEAK_MAX) by (nonlinear_arith)
                        requires
                            v <= MAG_MAX,
                    ;
                }
            } else {
                proof {
                    lemma_decay_shrinks(held_peak as int, 998, 1000);
                }
                self.peak[i] = held_peak * 998 / 1000;
            }
            i = i + 1;
        }
    }

    /// The fade-to-silence step for a tick with no new frame: every bin of
    /// both envelopes keeps 94% of its value.
    pub fn decay_idle(&mut self)
        requires
            old(self).wf(),
        ensures
            final(self).wf(),
            final(self).size() == old(self).size(),
            forall|i: int|
                0 <= i < old(self).size() ==> final(self).current()[i] == idle_step(
                    old(self).current()[i] as int,
                ),
            forall|i: int|
                0 <= i < old(self).size() ==> final(self).peak()[i] == idle_step(
                    old(self).peak()[i] as int,
                ),
    {
        let n = self.current.len();
        let mut i: usize = 0;
        while i < n
            invariant
                i <= n,
                n == old(self).size(),
                old(self).wf(),
                self.current@.len() == n,
                self.peak@.len() == n,
                forall|j: int| i <= j < n ==> self.current@[j] == old(self).current()[j],
                forall|j: int| i <= j < n ==> self.peak@[j] == old(self).peak()[j],
                forall|j: int| 0 <= j < n ==> self.current@[j] <= MAG_MAX,
                forall|j: int| 0 <= j < n ==> self.peak@[j] <= PEAK_MAX,
                forall|j: int|
                    0 <= j < i ==> self.current@[j] == idle_step(old(self).current()[j] as int),
                forall|j: int|
                    0 <= j < i ==> self.peak@[j] == idle_step(old(self).peak()[j] as int),
            decreases n - i,
        {
            let held = self.current[i];
            proof {
                lemma_decay_shrinks(held as int, 94, 100);
            }
            self.current[i] = held * 94 / 100;
            let held_peak = self.peak[i];
            proof {
                lemma_decay_shrinks(held_peak as int, 94, 100);
            }
            self.peak[i] = held_peak * 94 / 100;
            i = i + 1;
        }
    }

    /// How many bins the trace plots.
    pub fn bin_count(&self) -> (n: usize)
        ensures
            n == self.size(),
    {
        self.current.len()
    }

    /// Read access for the renderer: the fast-attack envelope.
    pub fn current_bins(&self) -> (r: &Vec<u64>)
        ensures
            r@ == self.current(),
    {
        &self.current
    }

    /// Read access for the renderer: the peak-hold envelope.
    pub fn peak_bins(&self) -> (r: &Vec<u64>)
        ensures
            r@ == self.peak(),
    {
        &self.peak
    }
}

/// Under a strictly rising input at a bin, the fast-attack envelope tracks
/// the input exactly: it snaps up to each arriving value, so it converges
/// upward and never exceeds the most recent input.
pub proof fn lemma_rising_input_tracks(held: int, inputs: Seq<int>)
    requires
        inputs.len() > 0,
        held < inputs[0],
        forall|j: int| 0 <= j < inputs.len() - 1 ==> #[trigger] inputs[j] < inputs[j + 1],
    ensures
        current_after(held, inputs) == inputs.last(),
    decreases inputs.len(),
{
    let stepped = current_step(held, inputs[0]);
    assert(stepped == inputs[0]);
    let rest = inputs.skip(1);
    assert(current_after(held, inputs) == current_after(stepped, rest));
    if rest.len() == 0 {
        assert(current_after(stepped, rest) == stepped);
        assert(inputs.last() == inputs[0]);
    } else {
        assert forall|j: int| 0 <= j < rest.len() - 1 implies #[trigger] rest[j] < rest[j + 1] by {
            assert(rest[j] == inputs[j + 1]);
            assert(rest[j + 1] == inputs[j + 2]);
            assert(inputs[j + 1] < inputs[j + 2]);
        }
        assert(rest[0] == inputs[1]);
        assert(inputs[0] < inputs[1]);
        lemma_rising_input_tracks(stepped, rest);
        assert(rest.last() == inputs.last());
    }
}

/// The fast-attack step never lifts the envelope above the larger of the
/// held value and the input: new maxima come only from the signal itself.
pub proof fn lemma_current_step_bounded(held: int, input: int)
    requires
        0 <= held,
    ensures
        current_step(held, input) <= if input > held {
            input
        } else {
            held
        },
{
    lemma_decay_shrinks(held, 97, 100);
}

/// A run of frames that never rises above the envelope is exactly the
/// release decay applied once per frame.
pub proof fn lemma_silent_frames_release(held: int, inputs: Seq<int>)
    requires
        0 <= held,
        forall|j: int| 0 <= j < inputs.len() ==> #[trigger] inputs[j] <= 0,
    ensures
        current_after(held, inputs) == release_after(held, inputs.len()),
    decreases inputs.len(),
{
    if inputs.len() > 0 {
        assert(inputs[0] <= 0);
        assert(current_step(held, inputs[0]) == held * 97 / 100);
        lemma_decay_shrinks(held, 97, 100);
        let rest = inputs.skip(1);
        assert(forall|j: int| 0 <= j < rest.len() ==> #[trigger] rest[j] <= 0);
        lemma_silent_frames_release(held * 97 / 100, rest);
    }
}

/// The peak analog: a run of frames that never rises above the peak envelope
/// is exactly the peak's release decay applied once per frame.
pub proof fn lemma_silent_frames_peak_release(held: int, inputs: Seq<int>)
    requires
        0 <= held,
        forall|j: int| 0 <= j < inputs.len() ==> #[trigger] inputs[j] <= 0,
    ensures
        peak_after(held, inputs) == peak_release_after(held, inputs.len()),
    decreases inputs.len(),
{
    if inputs.len() > 0 {
        assert(inputs[0] <= 0);
        assert(peak_step(held, inputs[0]) == held * 998 / 1000);
        lemma_decay_shrinks(held, 998, 1000);
        let rest = inputs.skip(1);
        assert(forall|j: int| 0 <= j < rest.len() ==> #[trigger] rest[j] <= 0);
        lemma_silent_frames_peak_release(held * 998 / 1000, rest);
    }
}

/// One more idle tick decays what the previous `k` left: the iteration can
/// be peeled from either end, which is what a caller counting the engine's
/// frameless ticks needs.
pub proof fn lemma_idle_after_step(held: int, k: nat)
    ensures
        idle_after(held, k + 1) == idle_step(idle_after(held, k)),
    decreases k,
{
    assert(idle_after(held, k + 1) == idle_after(idle_step(held), k));
    if k == 0 {
        assert(idle_after(idle_step(held), 0) == idle_step(held));
        assert(idle_after(held, 0) == held);
    } else {
        lemma_idle_after_step(idle_step(held), (k - 1) as nat);
        assert(idle_after(held, k) == idle_after(idle_step(held), (k - 1) as nat));
    }
}

/// The release analog: one more below-envelope frame decays what the
/// previous `k` left.
pub proof fn lemma_release_after_step(held: int, k: nat)
    ensures
        release_after(held, k + 1) == release_after(held, k) * 97 / 100,
    decreases k,
{
    assert(release_after(held, k + 1) == release_after(held * 97 / 100, k));
    if k == 0 {
        assert(release_after(held * 97 / 100, 0) == held * 97 / 100);
        assert(release_after(held, 0) == held);
    } else {
        lemma_release_after_step(held * 97 / 100, (k - 1) as nat);
        assert(release_after(held, k) == release_after(held * 97 / 100, (k - 1) as nat));
    }
}

/// Decay is monotone: `k` idle ticks never enlarge a bin, and each further
/// tick shrinks or holds what the previous ones left.
pub proof fn lemma_idle_decay_monotone(held: int, k: nat)
    requires
        0 <= held,
    ensures
        0 <= idle_after(held, k) <= held,
        k >= 1 ==> idle_after(held, k) <= idle_after(held, (k - 1) as nat),
    decreases k,
{
    if k >= 1 {
        lemma_decay_shrinks(held, 94, 100);
        lemma_idle_decay_monotone(idle_step(held), (k - 1) as nat);
        if k >= 2 {
            lemma_idle_decay_monotone(held, (k - 1) as nat);
            lemma_idle_after_ordered(idle_step(held), held, (k - 2) as nat);
        }
    }
}

/// Applying the same number of idle ticks to an already smaller value leaves
/// a smaller (or equal) value.
proof fn lemma_idle_after_ordered(lo: int, hi: int, k: nat)
    requires
        0 <= lo <= hi,
    ensures
        idle_after(lo, k) <= idle_after(hi, k),
    decreases k,
{
    if k >= 1 {
        assert(lo * 94 <= hi * 94) by (nonlinear_arith)
            requires
                0 <= lo <= hi,
        ;
        assert(lo * 94 / 100 <= hi * 94 / 100) by (nonlinear_arith)
            requires
                lo * 94 <= hi * 94,
        ;
        lemma_decay_shrinks(lo, 94, 100);
        lemma_idle_after_ordered(idle_step(lo), idle_step(hi), (k - 1) as nat);
    }
}

} // verus!
