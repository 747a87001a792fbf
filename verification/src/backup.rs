//! Reading shared state without ever waiting for it.
//!
//! The graph that is played lives behind a fair mutex that the control thread
//! locks whenever it reshapes the graph. The audio thread must not wait for
//! that lock, so it keeps a copy of its own: it tries the lock, refreshes the
//! copy where the lock is free, and plays the copy where it is not. Nothing
//! in this module waits for the lock; the first copy is handed in by whoever
//! sets the reader up.

use crate::graph::Mixer;
use crate::synth::{Clip, Synth};
use parking_lot::lock_api::Mutex;
use parking_lot::{FairMutex, FairMutexGuard, RawFairMutex};
use std::sync::Arc;
use vstd::prelude::*;

verus! {

/// `lock_api::Mutex`, of which `parking_lot::FairMutex` is an instance.
/// Nothing is known of a value of this type.
#[verifier::external_type_specification]
#[verifier::external_body]
#[verifier::reject_recursive_types(R)]
#[verifier::reject_recursive_types(T)]
pub struct ExMutex<R, T: ?Sized>(Mutex<R, T>);

/// `parking_lot::RawFairMutex`, the lock inside a `FairMutex`. Nothing is
/// known of a value of this type.
#[verifier::external_type_specification]
#[verifier::external_body]
pub struct ExRawFairMutex(RawFairMutex);

/// The lock on a shared value, held: a `parking_lot::FairMutexGuard`, which
/// gives the lock back when it is dropped. The guard's own type is bounded by
/// a trait of `lock_api`, so it is kept in here, out of sight.
#[verifier::external_body]
#[verifier::reject_recursive_types(T)]
pub struct Held<'a, T> {
    guard: FairMutexGuard<'a, T>,
}

/// Name of the graph behind a held lock. While the lock is held nobody else
/// can reach the graph, so what is behind it changes only through
/// [`guarded_mut`].
pub uninterp spec fn held(live: Held<'_, Clip<Mixer>>) -> Clip<Mixer>;

/// Tries the lock with `lock_api::Mutex::try_lock`, which never blocks: it
/// gives the guard where the lock was free and `None` where somebody holds
/// it. Which of the two comes back depends on the other threads, so nothing
/// is claimed of the result.
#[verifier::external_body]
fn try_lock<'a>(remote: &'a Arc<FairMutex<Clip<Mixer>>>) -> (attempt: Option<
    Held<'a, Clip<Mixer>>,
>) {
    match remote.try_lock() {
        Some(guard) => Some(Held { guard }),
        None => None,
    }
}

/// Reads through the guard with its `Deref`: the reference that comes back
/// points at the graph behind the lock, which is what [`held`] names.
#[verifier::external_body]
fn guarded<'b, 'a>(live: &'b Held<'a, Clip<Mixer>>) -> (graph: &'b Clip<Mixer>)
    ensures
        *graph == held(*live),
{
    &*live.guard
}

/// Reaches through the guard with its `DerefMut`: the reference that comes
/// back points at the graph behind the lock, and what is written through it
/// is what the lock holds afterwards.
#[verifier::external_body]
fn guarded_mut<'b, 'a>(live: &'b mut Held<'a, Clip<Mixer>>) -> (graph: &'b mut Clip<Mixer>)
    ensures
        *graph == held(*old(live)),
        held(*final(live)) == *final(graph),
{
    &mut *live.guard
}

/// A shared value together with the reader's own copy of it.
#[verifier::reject_recursive_types(T)]
pub struct BackupFairMutex<T: Clone> {
    local: T,
    pub remote: Arc<FairMutex<T>>,
}

/// What a reader was given: its own copy, or the shared value with the lock
/// held.
#[verifier::reject_recursive_types(T)]
pub enum BackupFairMutexGuard<'a, T> {
    LocalRef(&'a mut T),
    RemoteGuard(Held<'a, T>),
}

impl<T: Clone> BackupFairMutex<T> {
    /// The reader's own copy.
    pub closed spec fn cache(&self) -> T {
        self.local
    }

    /// The handle on the shared value.
    pub closed spec fn master(&self) -> Arc<FairMutex<T>> {
        self.remote
    }

    /// Sets a reader up over a shared value, with the copy that it starts
    /// from. The copy is the caller's to take: whoever sets a reader up may
    /// wait for the lock, which nothing in here ever does.
    pub fn over(copy: T, remote: Arc<FairMutex<T>>) -> (reader: Self)
        ensures
            reader.cache() == copy,
            reader.master() == remote,
    {
        BackupFairMutex { local: copy, remote }
    }
}

impl<'a> BackupFairMutexGuard<'a, Clip<Mixer>> {
    /// The graph that the guard gives access to.
    pub open spec fn graph(&self) -> Clip<Mixer> {
        match self {
            BackupFairMutexGuard::LocalRef(cache) => **cache,
            BackupFairMutexGuard::RemoteGuard(live) => held(*live),
        }
    }

    /// The graph, to read.
    pub fn deref(&self) -> (graph: &Clip<Mixer>)
        ensures
            *graph == self.graph(),
    {
        match self {
            BackupFairMutexGuard::LocalRef(cache) => &**cache,
            BackupFairMutexGuard::RemoteGuard(live) => guarded(live),
        }
    }

    /// The graph, to sample or to change. What is written goes to the
    /// reader's copy or to the shared graph, whichever the guard stands for.
    pub fn deref_mut(&mut self) -> (graph: &mut Clip<Mixer>)
        ensures
            *graph == old(self).graph(),
            final(self).graph() == *final(graph),
            (*final(self) is LocalRef) == (*old(self) is LocalRef),
            *old(self) matches BackupFairMutexGuard::LocalRef(before) ==> (*final(self) matches
            BackupFairMutexGuard::LocalRef(after) ==> *final(after) == *final(before)),
    {
        match self {
            BackupFairMutexGuard::LocalRef(cache) => &mut **cache,
            BackupFairMutexGuard::RemoteGuard(live) => guarded_mut(live),
        }
    }
}

/// The graph that a reader with the copy `cache` is served once the lock has
/// been tried: what the lock holds where it was taken, the copy where it was
/// not.
pub open spec fn served(cache: Clip<Mixer>, attempt: Option<Held<'_, Clip<Mixer>>>) -> Clip<Mixer> {
    match attempt {
        Some(live) => held(live),
        None => cache,
    }
}

/// A reader that finds the lock free is served what the lock holds, and so
/// whatever the control thread wrote before it let go of the lock; the copy
/// plays no part.
pub proof fn lemma_free_lock_serves_shared(
    cache: Clip<Mixer>,
    other: Clip<Mixer>,
    live: Held<'_, Clip<Mixer>>,
)
    ensures
        served(cache, Some(live)) == held(live),
        served(cache, Some(live)) == served(other, Some(live)),
{
}

/// A reader that finds the lock held is served its copy as it stands,
/// whatever is behind the lock and however long it stays held.
pub proof fn lemma_held_lock_serves_copy(cache: Clip<Mixer>)
    ensures
        served(cache, None) == cache,
{
}

impl BackupFairMutex<Clip<Mixer>> {
    /// Decides what a reader gets once the lock has been tried.
    ///
    /// Where the lock was taken, the copy is refreshed from the shared graph
    /// and the reader gets the shared graph itself, so it sees whatever was
    /// written last. Where the lock was not taken, the reader gets its copy as
    /// it stands, and nothing is touched.
    pub fn serve<'a>(cache: &'a mut Clip<Mixer>, attempt: Option<Held<'a, Clip<Mixer>>>) -> (guard:
        BackupFairMutexGuard<'a, Clip<Mixer>>)
        ensures
            guard.graph() == served(*old(cache), attempt),
            attempt matches Some(live) ==> guard == BackupFairMutexGuard::RemoteGuard(live)
                && guard.graph() == held(live) && cloned(held(live), *final(cache))
                && final(cache).state() == held(live).state(),
            attempt is None ==> guard is LocalRef && guard.graph() == *old(cache),
            guard matches BackupFairMutexGuard::LocalRef(served) ==> *final(cache) == *final(served),
    {
        match attempt {
            Some(live) => {
                let shared = guarded(&live);
                *cache = shared.clone();
                proof {
                    shared.lemma_clone_keeps_state(cache);
                }
                BackupFairMutexGuard::RemoteGuard(live)
            },
            None => BackupFairMutexGuard::LocalRef(cache),
        }
    }

    /// Gives the reader a graph at once, whoever holds the lock: the shared
    /// graph where the lock is free, the reader's copy where it is not. The
    /// lock is tried once and never waited for.
    pub fn get(&mut self) -> (guard: BackupFairMutexGuard<'_, Clip<Mixer>>)
        ensures
            final(self).master() == old(self).master(),
            guard matches BackupFairMutexGuard::LocalRef(served) ==> *served == old(self).cache()
                && final(self).cache() == *final(served),
            guard matches BackupFairMutexGuard::RemoteGuard(live) ==> cloned(
                held(live),
                final(self).cache(),
            ) && final(self).cache().state() == held(live).state(),
    {
        let attempt = try_lock(&self.remote);
        Self::serve(&mut self.local, attempt)
    }
}

} // verus!
