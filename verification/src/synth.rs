//! The synth graph: a tree of sample generators.

use crate::binary32::{
    clamp, clamped, is_finite, is_nan, lemma_ordinal_orders_values, negate, negated, ordinal,
    scaled_value, ONE, ZERO,
};
use crate::volume::{admissible, VolumeControl};
use vstd::prelude::*;

verus! {

/// A generator of samples, one per call.
///
/// A generator is a state machine: what it holds decides the sample that it
/// gives next and what it holds afterwards.
pub trait Synth: Clone {
    /// What a generator holds, as far as its samples depend on it.
    type State;

    /// What this generator holds now.
    spec fn state(&self) -> Self::State;

    /// The sample that a generator in `state` gives next.
    spec fn output(state: Self::State) -> u32;

    /// What a generator in `state` holds once it has given that sample.
    spec fn next(state: Self::State) -> Self::State;

    /// Gives the next sample, as a binary32 encoding.
    fn sample(&mut self) -> (s: u32)
        ensures
            s == Self::output(old(self).state()),
            final(self).state() == Self::next(old(self).state()),
    ;

    /// A clone holds what the generator it was made from holds.
    proof fn lemma_clone_keeps_state(&self, copy: &Self)
        requires
            cloned(*self, *copy),
        ensures
            copy.state() == self.state(),
    ;
}

/// What a generator that was in `state` holds once it has given `count`
/// samples.
pub open spec fn advanced<S: Synth>(state: S::State, count: nat) -> S::State
    decreases count,
{
    if count == 0 {
        state
    } else {
        S::next(advanced::<S>(state, (count - 1) as nat))
    }
}

/// A leaf that is always quiet.
#[derive(Clone, Copy, Debug)]
pub struct Silence;

impl Synth for Silence {
    type State = ();

    open spec fn state(&self) -> () {
        ()
    }

    open spec fn output(state: ()) -> u32 {
        ZERO
    }

    open spec fn next(state: ()) -> () {
        ()
    }

    /// Zero, always.
    fn sample(&mut self) -> (s: u32)
        ensures
            s == ZERO,
    {
        ZERO
    }

    proof fn lemma_clone_keeps_state(&self, copy: &Self) {
    }
}

impl<T: Synth> Synth for Box<T> {
    type State = T::State;

    open spec fn state(&self) -> T::State {
        (**self).state()
    }

    open spec fn output(state: T::State) -> u32 {
        T::output(state)
    }

    open spec fn next(state: T::State) -> T::State {
        T::next(state)
    }

    /// The next sample of the generator in the box.
    fn sample(&mut self) -> (s: u32) {
        (**self).sample()
    }

    proof fn lemma_clone_keeps_state(&self, copy: &Self) {
        (**self).lemma_clone_keeps_state(&**copy);
    }
}

/// A limiter: one generator and the loudest sample that may leave it.
#[derive(Debug)]
pub struct Clip<T> {
    pub inner: T,
    pub max_vol: VolumeControl,
}

impl<T: Synth> Clone for Clip<T> {
    fn clone(&self) -> (copy: Self)
        ensures
            cloned(self.inner, copy.inner),
            copy.max_vol == self.max_vol,
    {
        Clip { inner: self.inner.clone(), max_vol: self.max_vol }
    }
}

impl<T: Synth + Default> Default for Clip<T> {
    /// The default generator behind a limit of one.
    fn default() -> (clip: Self)
        ensures
            T::default.ensures((), clip.inner),
            clip.max_vol@ == ONE,
    {
        Clip { inner: T::default(), max_vol: VolumeControl::default() }
    }
}

/// `sample` held between `-limit` and `limit`.
pub open spec fn limited(sample: u32, limit: u32) -> u32 {
    clamped(sample, negated(limit), limit)
}

/// Whatever number goes into a limiter, what comes out is a finite number
/// between `-limit` and `limit`, both as encodings are ordered and as the
/// numbers that they denote. A sample that is no number (a NaN) is outside
/// this: it passes through as it came.
pub proof fn lemma_limited_in_range(sample: u32, limit: u32)
    requires
        admissible(limit),
        !is_nan(sample),
    ensures
        is_finite(limited(sample, limit)),
        -ordinal(limit) <= ordinal(limited(sample, limit)) <= ordinal(limit),
        -scaled_value(limit) <= scaled_value(limited(sample, limit)) <= scaled_value(limit),
{
    let out = limited(sample, limit);
    lemma_ordinal_orders_values(out, limit);
    lemma_ordinal_orders_values(negated(limit), out);
}

/// A sample that lies between `-limit` and `limit` leaves a limiter as it
/// came, and so does a NaN.
pub proof fn lemma_limited_keeps(sample: u32, limit: u32)
    requires
        admissible(limit),
        is_nan(sample) || -ordinal(limit) <= ordinal(sample) <= ordinal(limit),
    ensures
        limited(sample, limit) == sample,
{
}

/// Holds `sample` between `-max_vol` and `max_vol`.
pub fn limit(sample: u32, max_vol: VolumeControl) -> (s: u32)
    ensures
        s == limited(sample, max_vol@),
        !is_nan(sample) ==> is_finite(s) && -ordinal(max_vol@) <= ordinal(s) <= ordinal(max_vol@),
{
    let bound: u32 = max_vol.value();
    clamp(sample, negate(bound), bound)
}

impl<T: Synth> Synth for Clip<T> {
    type State = (T::State, u32);

    open spec fn state(&self) -> (T::State, u32) {
        (self.inner.state(), self.max_vol@)
    }

    open spec fn output(state: (T::State, u32)) -> u32 {
        limited(T::output(state.0), state.1)
    }

    open spec fn next(state: (T::State, u32)) -> (T::State, u32) {
        (T::next(state.0), state.1)
    }

    /// The next sample of the generator inside, held between `-max_vol` and
    /// `max_vol`. Unless that sample is a NaN, what comes out is a finite
    /// number within those bounds.
    fn sample(&mut self) -> (s: u32)
        ensures
            s == limited(T::output(old(self).inner.state()), old(self).max_vol@),
            final(self).max_vol == old(self).max_vol,
            !is_nan(T::output(old(self).inner.state())) ==> is_finite(s)
                && -ordinal(old(self).max_vol@) <= ordinal(s) <= ordinal(old(self).max_vol@),
    {
        let raw: u32 = self.inner.sample();
        limit(raw, self.max_vol)
    }

    proof fn lemma_clone_keeps_state(&self, copy: &Self) {
        self.inner.lemma_clone_keeps_state(&copy.inner);
    }
}

} // verus!
