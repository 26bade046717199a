use vstd::prelude::*;

verus! {

/// Capacity sized for scalar loudness frames.
pub const LOUDNESS_CAPACITY: usize = 220;

/// Capacity sized for spectral vector frames.
pub const SPECTRUM_CAPACITY: usize = 22000;

/// One unit of extracted data per analyzed audio buffer: a loudness scalar
/// or a spectral magnitude vector, in fixed-point units.
#[derive(Debug)]
pub enum FeatureFrame {
    Loudness(u64),
    Spectrum(Vec<u64>),
}

/// The mathematical value of a frame.
pub enum FrameData {
    Loudness(u64),
    Spectrum(Seq<u64>),
}

impl View for FeatureFrame {
    type V = FrameData;

    open spec fn view(&self) -> FrameData {
        match self {
            FeatureFrame::Loudness(v) => FrameData::Loudness(*v),
            FeatureFrame::Spectrum(bins) => FrameData::Spectrum(bins@),
        }
    }
}

/// Whether a channel with contents `q` and capacity `cap` accepts one more
/// frame; while it does not, the producer is held up (backpressure), never
/// the frame dropped.
pub open spec fn channel_accepts(q: Seq<FrameData>, cap: nat) -> bool {
    q.len() < cap
}

/// The strictly bounded, ordered, single-producer/single-consumer transport
/// between the analysis tap and the display side. The capacity is fixed at
/// construction and never resized; frames leave in arrival order, none is
/// dropped, duplicated or reordered. Blocking and timeouts are the caller's
/// plumbing around `try_send` and `receive`.
pub struct FeatureChannel {
    queue: Vec<FeatureFrame>,
    capacity: usize,
}

impl FeatureChannel {
    /// The unconsumed frames, oldest first.
    pub closed spec fn contents(&self) -> Seq<FrameData> {
        self.queue@.map_values(|f: FeatureFrame| f@)
    }

    /// The fixed capacity.
    pub closed spec fn cap(&self) -> nat {
        self.capacity as nat
    }

    /// The channel never holds more frames than its capacity.
    pub open spec fn wf(&self) -> bool {
        self.contents().len() <= self.cap()
    }

    /// An empty channel of the given capacity.
    pub fn new(capacity: usize) -> (c: FeatureChannel)
        requires
            capacity >= 1,
        ensures
            c.wf(),
            c.cap() == capacity,
            c.contents() =~= Seq::<FrameData>::empty(),
    {
        FeatureChannel { queue: Vec::new(), capacity }
    }

    /// Offer one frame. A channel below capacity takes it at the back; a
    /// full channel takes nothing and hands the frame back, so the producer
    /// can hold on to it and block until the consumer makes room.
    pub fn try_send(&mut self, frame: FeatureFrame) -> (r: Result<(), FeatureFrame>)
        requires
            old(self).wf(),
        ensures
            final(self).wf(),
            final(self).cap() == old(self).cap(),
            match r {
                Ok(()) => channel_accepts(old(self).contents(), old(self).cap())
                    && final(self).contents() =~= old(self).contents().push(frame@),
                Err(returned) => !channel_accepts(old(self).contents(), old(self).cap())
                    && final(self).contents() =~= old(self).contents() && returned == frame,
            },
    {
        if self.queue.len() < self.capacity {
            self.queue.push(frame);
            Ok(())
        } else {
            Err(frame)
        }
    }

    /// Take the oldest unconsumed frame, if any; an empty channel reports
    /// "no data" rather than an error.
    pub fn receive(&mut self) -> (r: Option<FeatureFrame>)
        requires
            old(self).wf(),
        ensures
            final(self).wf(),
            final(self).cap() == old(self).cap(),
            match r {
                Some(frame) => old(self).contents().len() > 0 && frame@ == old(self).contents()[0]
                    && final(self).contents() =~= old(self).contents().skip(1),
                None => old(self).contents().len() == 0
                    && final(self).contents() =~= old(self).contents(),
            },
    {
        if self.queue.len() > 0 {
            Some(self.queue.remove(0))
        } else {
            None
        }
    }

    /// How many frames are waiting.
    pub fn len(&self) -> (n: usize)
        ensures
            n == self.contents().len(),
    {
        self.queue.len()
    }

    /// The fixed capacity, as chosen at construction.
    pub fn capacity(&self) -> (n: usize)
        ensures
            n == self.cap(),
    {
        self.capacity
    }
}

/// Sending never blocks until the capacity is reached: from contents `q`
/// with room for all of `arrivals`, every send in the series is accepted,
/// and the channel then holds `q` followed by `arrivals` — in order, nothing
/// dropped, nothing duplicated.
pub proof fn lemma_sends_below_capacity(q: Seq<FrameData>, arrivals: Seq<FrameData>, cap: nat)
    requires
        q.len() + arrivals.len() <= cap,
    ensures
        forall|j: int| 0 <= j < arrivals.len() ==> channel_accepts(q + arrivals.take(j), cap),
        q + arrivals.take(arrivals.len() as int) =~= q + arrivals,
{
    assert forall|j: int| 0 <= j < arrivals.len() implies channel_accepts(
        q + arrivals.take(j),
        cap,
    ) by {
        assert((q + arrivals.take(j)).len() == q.len() + j);
    }
}

/// A full channel blocks the producer: the send numbered `capacity + 1` is
/// not accepted until at least one receive has made room, and after one
/// receive it is.
pub proof fn lemma_full_channel_blocks(q: Seq<FrameData>, cap: nat)
    requires
        q.len() == cap,
        cap >= 1,
    ensures
        !channel_accepts(q, cap),
        channel_accepts(q.skip(1), cap),
{
}

/// First in, first out: the `j`-th frame ever received from a channel filled
/// from empty with `arrivals` is exactly the `j`-th frame sent — no loss, no
/// reordering, no duplication.
pub proof fn lemma_fifo_order(arrivals: Seq<FrameData>, j: int)
    requires
        0 <= j < arrivals.len(),
    ensures
        arrivals.skip(j)[0] == arrivals[j],
        arrivals.skip(j).skip(1) =~= arrivals.skip(j + 1),
{
}

} // verus!
