//! What the audio callback does with one buffer of the device.

use crate::backup::{BackupFairMutex, BackupFairMutexGuard};
use crate::graph::{lemma_graph_is_steady, Mixer};
use crate::synth::{advanced, Clip, Synth};
use vstd::prelude::*;

verus! {

/// Report that one buffer took longer to fill than the device allowed. Times
/// are in nanoseconds.
#[derive(Clone, Copy, Debug, PartialEq, Eq)]
pub struct CallbackSpeedError {
    actual_elapsed: u128,
    max_elapsed: u128,
    data_len: usize,
}

impl CallbackSpeedError {
    /// A report of a buffer of `data_len` samples that took `actual_elapsed`
    /// nanoseconds to fill where `max_elapsed` were allowed.
    pub fn new(actual_elapsed: u128, max_elapsed: u128, data_len: usize) -> (report: Self)
        ensures
            report.actual_elapsed() == actual_elapsed,
            report.max_elapsed() == max_elapsed,
            report.data_len() == data_len,
    {
        CallbackSpeedError { actual_elapsed, max_elapsed, data_len }
    }

    /// The time that filling the buffer took.
    pub closed spec fn spec_actual_elapsed(&self) -> u128 {
        self.actual_elapsed
    }

    /// The time that the device allowed for the buffer.
    pub closed spec fn spec_max_elapsed(&self) -> u128 {
        self.max_elapsed
    }

    /// The number of samples in the buffer.
    pub closed spec fn spec_data_len(&self) -> usize {
        self.data_len
    }

    /// The time that filling the buffer took.
    #[verifier::when_used_as_spec(spec_actual_elapsed)]
    pub fn actual_elapsed(&self) -> (nanos: u128)
        ensures
            nanos == self.spec_actual_elapsed(),
    {
        self.actual_elapsed
    }

    /// The time that the device allowed for the buffer.
    #[verifier::when_used_as_spec(spec_max_elapsed)]
    pub fn max_elapsed(&self) -> (nanos: u128)
        ensures
            nanos == self.spec_max_elapsed(),
    {
        self.max_elapsed
    }

    /// The number of samples in the buffer.
    #[verifier::when_used_as_spec(spec_data_len)]
    pub fn data_len(&self) -> (len: usize)
        ensures
            len == self.spec_data_len(),
    {
        self.data_len
    }

    /// The sentence that describes the report.
    pub fn message(&self) -> (text: &'static str)
        ensures
            text@ == "a stream data callback took too long to execute"@,
    {
        "a stream data callback took too long to execute"
    }
}

/// Decides whether a buffer overran. A report is due exactly when filling
/// took longer than allowed; it then carries the two times and the length of
/// the buffer.
pub fn check_speed(actual_elapsed: u128, max_elapsed: u128, data_len: usize) -> (report: Option<
    CallbackSpeedError,
>)
    ensures
        report is Some <==> actual_elapsed > max_elapsed,
        report matches Some(e) ==> e.actual_elapsed() == actual_elapsed && e.max_elapsed()
            == max_elapsed && e.data_len() == data_len,
{
    if actual_elapsed > max_elapsed {
        Some(CallbackSpeedError::new(actual_elapsed, max_elapsed, data_len))
    } else {
        None
    }
}

/// Decides whether a buffer overran where the device may not have told how
/// long it allows. Without a limit nothing can be said to have passed it, so
/// no report is made; with one, a report is due exactly when filling took
/// longer.
pub fn check_speed_against(actual_elapsed: u128, max_elapsed: Option<u128>, data_len: usize) -> (report:
    Option<CallbackSpeedError>)
    ensures
        report is Some <==> (max_elapsed matches Some(max) && actual_elapsed > max),
        report matches Some(e) ==> e.actual_elapsed() == actual_elapsed
            && max_elapsed == Some(e.max_elapsed()) && e.data_len() == data_len,
{
    match max_elapsed {
        Some(max) => check_speed(actual_elapsed, max, data_len),
        None => None,
    }
}

/// Fills a buffer from a generator, one sample a slot, in order.
pub fn play<S: Synth>(synth: &mut S, data: &mut [u32])
    ensures
        final(data)@.len() == old(data)@.len(),
        forall|i: int|
            0 <= i < final(data)@.len() ==> final(data)@[i] == S::output(
                advanced::<S>(old(synth).state(), i as nat),
            ),
        final(synth).state() == advanced::<S>(old(synth).state(), old(data)@.len()),
{
    let ghost start = synth.state();
    let n: usize = data.len();
    let mut i: usize = 0;
    while i < n
        invariant
            i <= n,
            n == data@.len(),
            synth.state() == advanced::<S>(start, i as nat),
            forall|j: int|
                0 <= j < i ==> data@[j] == S::output(advanced::<S>(start, j as nat)),
        decreases n - i,
    {
        let s: u32 = synth.sample();
        data[i] = s;
        i += 1;
    }
}

/// Fills a buffer from the graph that a reader was served, one sample a
/// slot, and tells whether that was the shared graph and not the reader's
/// copy. Every slot holds the sample of the graph as it was served, and the
/// graph is left as it was.
pub fn play_served(guard: &mut BackupFairMutexGuard<'_, Clip<Mixer>>, data: &mut [u32]) -> (fresh:
    bool)
    ensures
        fresh == (*old(guard) is RemoteGuard),
        final(data)@.len() == old(data)@.len(),
        forall|i: int|
            0 <= i < final(data)@.len() ==> final(data)@[i] == Clip::<Mixer>::output(
                old(guard).graph().state(),
            ),
        final(guard).graph().state() == old(guard).graph().state(),
        (*final(guard) is LocalRef) == (*old(guard) is LocalRef),
        *old(guard) matches BackupFairMutexGuard::LocalRef(before) ==> (*final(guard) matches
        BackupFairMutexGuard::LocalRef(after) ==> *final(after) == *final(before)),
{
    let fresh = match guard {
        BackupFairMutexGuard::LocalRef(_) => false,
        BackupFairMutexGuard::RemoteGuard(_) => true,
    };
    let ghost played = guard.graph().state();
    play(guard.deref_mut(), data);
    proof {
        lemma_graph_is_steady(played, data@.len());
        assert forall|i: int| 0 <= i < data@.len() implies data@[i] == Clip::<Mixer>::output(
            played,
        ) by {
            lemma_graph_is_steady(played, i as nat);
        }
    }
    fresh
}

/// Fills a buffer from the graph that the reader is given, one sample a slot.
/// The graph is asked for once, at the start, and never waited for. The
/// result tells whether the shared graph was played, and not the reader's
/// copy. Either way the reader's copy ends up holding what was played.
pub fn fill(source: &mut BackupFairMutex<Clip<Mixer>>, data: &mut [u32]) -> (fresh: bool)
    ensures
        final(data)@.len() == old(data)@.len(),
        forall|i: int|
            0 <= i < final(data)@.len() ==> final(data)@[i] == Clip::<Mixer>::output(
                final(source).cache().state(),
            ),
        !fresh ==> final(source).cache().state() == old(source).cache().state(),
        final(source).master() == old(source).master(),
{
    let mut guard = source.get();
    play_served(&mut guard, data)
}

} // verus!
