use vstd::prelude::*;

verus! {

/// A mono stream that plays a fixed list of samples once, from the first to
/// the last, and reports how many of them are still to come.
pub struct SineWave<S> {
    samples: Vec<S>,
    sample_rate: u32,
    position: usize,
}

impl<S> SineWave<S> {
    #[verifier::type_invariant]
    spec fn position_in_range(self) -> bool {
        self.position <= self.samples.len()
    }

    /// The samples the stream plays, in order.
    pub closed spec fn samples(self) -> Seq<S> {
        self.samples@
    }

    /// How many samples have been played so far.
    pub closed spec fn position(self) -> nat {
        self.position as nat
    }

    /// The sample rate the stream reports.
    pub closed spec fn rate(self) -> u32 {
        self.sample_rate
    }

    /// A stream at its first sample.
    pub fn new(samples: Vec<S>, sample_rate: u32) -> (w: Self)
        ensures
            w.samples() == samples@,
            w.rate() == sample_rate,
            w.position() == 0,
    {
        SineWave { samples, sample_rate, position: 0 }
    }

    /// How many samples are still to be played.
    pub fn current_frame_len(&self) -> (r: Option<usize>)
        ensures
            self.position() <= self.samples().len(),
            r == Some((self.samples().len() - self.position()) as usize),
    {
        proof {
            use_type_invariant(self);
        }
        Some(self.samples.len() - self.position)
    }

    /// The sample rate of the stream.
    pub fn sample_rate(&self) -> (r: u32)
        ensures
            r == self.rate(),
    {
        self.sample_rate
    }

    /// The stream is mono.
    pub fn channels(&self) -> (r: u16)
        ensures
            r == 1,
    {
        1
    }

    /// How many samples the stream plays in all.
    pub fn sample_count(&self) -> (r: usize)
        ensures
            r == self.samples().len(),
    {
        self.samples.len()
    }
}

impl<S: Copy> SineWave<S> {
    /// The next sample, or `None` once every sample has been played; after
    /// that the stream stays exhausted.
    pub fn next(&mut self) -> (r: Option<S>)
        ensures
            final(self).samples() == old(self).samples(),
            final(self).rate() == old(self).rate(),
            old(self).position() <= old(self).samples().len(),
            final(self).position() <= final(self).samples().len(),
            old(self).position() < old(self).samples().len() ==> {
                &&& r == Some(old(self).samples()[old(self).position() as int])
                &&& final(self).position() == old(self).position() + 1
            },
            old(self).position() == old(self).samples().len() ==> {
                &&& r is None
                &&& final(self).position() == old(self).position()
            },
    {
        proof {
            use_type_invariant(&*self);
        }
        if self.position < self.samples.len() {
            let sample: S = self.samples[self.position];
            self.position = self.position + 1;
            Some(sample)
        } else {
            None
        }
    }
}

/// A mono stream over a generated waveform, played once from its first
/// sample to its last; it reports the whole waveform's length as its frame.
pub struct SineWaveSource<S> {
    waveform: Vec<S>,
    sample_rate: u32,
    current_sample: usize,
}

impl<S> SineWaveSource<S> {
    #[verifier::type_invariant]
    spec fn current_in_range(self) -> bool {
        self.current_sample <= self.waveform.len()
    }

    /// The waveform the stream plays, in order.
    pub closed spec fn waveform(self) -> Seq<S> {
        self.waveform@
    }

    /// How many samples have been played so far.
    pub closed spec fn current(self) -> nat {
        self.current_sample as nat
    }

    /// The sample rate the stream reports.
    pub closed spec fn rate(self) -> u32 {
        self.sample_rate
    }

    /// A stream at the first sample of `waveform`.
    pub fn new(waveform: Vec<S>, sample_rate: u32) -> (w: Self)
        ensures
            w.waveform() == waveform@,
            w.rate() == sample_rate,
            w.current() == 0,
    {
        SineWaveSource { waveform, sample_rate, current_sample: 0 }
    }

    /// The length of the whole waveform, however much of it has been played.
    pub fn current_frame_len(&self) -> (r: Option<usize>)
        ensures
            r == Some(self.waveform().len() as usize),
    {
        Some(self.waveform.len())
    }

    /// The stream is mono.
    pub fn channels(&self) -> (r: u16)
        ensures
            r == 1,
    {
        1
    }

    /// The sample rate of the stream.
    pub fn sample_rate(&self) -> (r: u32)
        ensures
            r == self.rate(),
    {
        self.sample_rate
    }

    /// How many samples the waveform has.
    pub fn sample_count(&self) -> (r: usize)
        ensures
            r == self.waveform().len(),
    {
        self.waveform.len()
    }
}

impl<S: Copy> SineWaveSource<S> {
    /// The next sample of the waveform, or `None` once all of it has been
    /// played; after that the stream stays exhausted.
    pub fn next(&mut self) -> (r: Option<S>)
        ensures
            final(self).waveform() == old(self).waveform(),
            final(self).rate() == old(self).rate(),
            old(self).current() <= old(self).waveform().len(),
            final(self).current() <= final(self).waveform().len(),
            old(self).current() < old(self).waveform().len() ==> {
                &&& r == Some(old(self).waveform()[old(self).current() as int])
                &&& final(self).current() == old(self).current() + 1
            },
            old(self).current() == old(self).waveform().len() ==> {
                &&& r is None
                &&& final(self).current() == old(self).current()
            },
    {
        proof {
            use_type_invariant(&*self);
        }
        if self.current_sample < self.waveform.len() {
            let sample: S = self.waveform[self.current_sample];
            self.current_sample = self.current_sample + 1;
            Some(sample)
        } else {
            None
        }
    }
}

} // verus!
