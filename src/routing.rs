//! The signal routing of one processed sample: the level is measured on the
//! detection signal as it arrives, while the signal that gets the gain goes
//! through the lookahead delay line first.
use vstd::prelude::*;
use crate::detection::detection_source;
use crate::ring::{filled, shift_in, shifted_out, RingBuffer};

verus! {

/// The two signals one input sample gives.
#[derive(Clone, Copy, PartialEq, Eq, Structural, Debug)]
pub struct RoutedSample<T> {
    /// The sample the envelope follower measures, taken without delay.
    pub detection: T,
    /// The input as it leaves the lookahead delay line.
    pub delayed: T,
}

/// The lookahead delay line and the sidechain switch of a processor.
pub struct SignalPath<T> {
    lookahead: RingBuffer<T>,
    sidechain_external: bool,
}

impl<T: Copy> SignalPath<T> {
    pub closed spec fn wf(&self) -> bool {
        self.lookahead.wf()
    }

    /// What the delay line holds, oldest first; its length is the lookahead
    /// in samples.
    pub closed spec fn delay_line(&self) -> Seq<T> {
        self.lookahead@
    }

    /// Whether the level is measured on the sidechain, where one is given.
    pub closed spec fn external(&self) -> bool {
        self.sidechain_external
    }

    /// No lookahead, no external sidechain.
    pub fn new(fill: T) -> (r: Self)
        ensures
            r.wf(),
            r.delay_line() == Seq::<T>::empty(),
            !r.external(),
    {
        let r = SignalPath { lookahead: RingBuffer::new(0, fill), sidechain_external: false };
        assert(r.delay_line() =~= Seq::<T>::empty());
        r
    }

    pub fn set_sidechain_external(&mut self, enabled: bool)
        requires
            old(self).wf(),
        ensures
            final(self).wf(),
            final(self).external() == enabled,
            final(self).delay_line() == old(self).delay_line(),
    {
        self.sidechain_external = enabled;
    }

    pub fn sidechain_external(&self) -> (r: bool)
        ensures
            r == self.external(),
    {
        self.sidechain_external
    }

    /// The lookahead in samples.
    pub fn lookahead_samples(&self) -> (n: usize)
        requires
            self.wf(),
        ensures
            n == self.delay_line().len(),
    {
        self.lookahead.len()
    }

    /// Sets the lookahead to `samples`. A new length clears the delay line
    /// to `fill`; the same length leaves it as it is.
    pub fn set_lookahead_samples(&mut self, samples: usize, fill: T)
        requires
            old(self).wf(),
        ensures
            final(self).wf(),
            final(self).external() == old(self).external(),
            final(self).delay_line() == (if samples == old(self).delay_line().len() {
                old(self).delay_line()
            } else {
                filled(samples as nat, fill)
            }),
    {
        self.lookahead.resize(samples, fill);
    }

    /// Clears the delay line to `fill`, keeping the lookahead.
    pub fn reset(&mut self, fill: T)
        requires
            old(self).wf(),
        ensures
            final(self).wf(),
            final(self).external() == old(self).external(),
            final(self).delay_line() == filled(old(self).delay_line().len(), fill),
    {
        self.lookahead.fill_with(fill);
    }

    /// Routes one input sample: the detection signal is taken at once, the
    /// input enters the delay line and its oldest sample leaves it (with no
    /// lookahead, the input itself).
    pub fn route(&mut self, input: T, sidechain_input: Option<T>) -> (r: RoutedSample<T>)
        requires
            old(self).wf(),
        ensures
            final(self).wf(),
            final(self).external() == old(self).external(),
            r.detection == (if old(self).external() && sidechain_input is Some {
                sidechain_input->Some_0
            } else {
                input
            }),
            r.delayed == shifted_out(old(self).delay_line(), input),
            final(self).delay_line() == shift_in(old(self).delay_line(), input),
    {
        let detection = detection_source(input, sidechain_input, self.sidechain_external);
        let delayed = self.lookahead.push(input);
        RoutedSample { detection, delayed }
    }
}

} // verus!
