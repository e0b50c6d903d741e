//! Lifecycle rules of the native listeners and of the monitor.
//!
//! Starting a listener twice is a no-op, stopping releases the running
//! listener exactly once, a failed start leaves nothing behind, the monitor
//! shuts down at most once, and a failed connection attempt is never
//! cached, so the next use retries.
use vstd::prelude::*;

use crate::error::{Error, ErrorView};

verus! {

/// How the thread of a freshly started listener reported back.
pub enum StartReport<H> {
    /// Subscriptions are in place; `H` is the handle of the running
    /// listener (its thread and the means to stop it).
    Ready(H),
    /// The listener could not subscribe; the detail says why.
    SetupFailed(String),
    /// The listener thread ended without reporting.
    ListenerExited,
}

/// The detail of the error reported when a listener thread ends without
/// reporting.
pub open spec fn listener_exited_detail() -> Seq<char> {
    "the power event listener thread exited unexpectedly"@
}

/// Whether a start has to spawn a listener: only when none runs.
pub open spec fn start_spawns<H>(slot: Option<H>) -> bool {
    slot is None
}

/// A stop releases the running listener, if any, and leaves the slot empty.
pub open spec fn stop_releases<H>(slot: Option<H>) -> (Option<H>, Option<H>) {
    (slot, None)
}

/// The slot of a backend's running native listener.
pub struct ListenerSlot<H> {
    listener: Option<H>,
}

impl<H> View for ListenerSlot<H> {
    type V = Option<H>;

    closed spec fn view(&self) -> Option<H> {
        self.listener
    }
}

impl<H> ListenerSlot<H> {
    /// An empty slot: no listener runs.
    pub fn new() -> (slot: Self)
        ensures
            slot@ is None,
    {
        ListenerSlot { listener: None }
    }

    /// Whether a listener runs.
    pub fn is_running(&self) -> (running: bool)
        ensures
            running == (self@ is Some),
    {
        self.listener.is_some()
    }

    /// Whether a start has to spawn a listener; starting while one runs is
    /// a no-op that succeeds.
    pub fn start_needed(&self) -> (needed: bool)
        ensures
            needed == start_spawns(self@),
    {
        self.listener.is_none()
    }

    /// Records how a freshly spawned listener reported back. On failure the
    /// slot is unchanged and the error to surface is returned; the caller
    /// then joins the listener thread.
    pub fn record_start(&mut self, report: StartReport<H>) -> (result: Result<(), Error>)
        ensures
            match report {
                StartReport::Ready(handle) => final(self)@ == Some(handle) && result is Ok,
                StartReport::SetupFailed(detail) => final(self)@ == old(self)@ && (result matches Err(
                    e,
                ) && e@ == ErrorView::ListenerInit(detail@)),
                StartReport::ListenerExited => final(self)@ == old(self)@ && (result matches Err(e)
                    && e@ == ErrorView::ListenerInit(listener_exited_detail())),
            },
    {
        match report {
            StartReport::Ready(handle) => {
                self.listener = Some(handle);
                Ok(())
            },
            StartReport::SetupFailed(detail) => Err(Error::ListenerInit(detail)),
            StartReport::ListenerExited => Err(
                Error::listener("the power event listener thread exited unexpectedly"),
            ),
        }
    }

    /// Takes the running listener out of the slot so that it can be
    /// signalled and joined; `None` when nothing runs.
    pub fn take_for_stop(&mut self) -> (listener: Option<H>)
        ensures
            (listener, final(self)@) == stop_releases(old(self)@),
    {
        self.listener.take()
    }
}

/// Starting is idempotent: once a listener is recorded as ready, a further
/// start spawns nothing. Stopping is idempotent: a second stop releases
/// nothing, and after a stop the next start spawns again.
pub proof fn lemma_listener_start_and_stop_are_idempotent<H>(slot: Option<H>, handle: H)
    ensures
        !start_spawns(Some(handle)),
        stop_releases(stop_releases(slot).1).0 is None,
        start_spawns(stop_releases(slot).1),
{
}

/// Whether triggering a latch in the given state performs the shutdown.
pub open spec fn shutdown_performs(stopped: bool) -> bool {
    !stopped
}

/// Shutdown runs at most once: after the latch has been triggered, every
/// further trigger performs nothing.
pub proof fn lemma_shutdown_runs_at_most_once()
    ensures
        shutdown_performs(false),
        !shutdown_performs(true),
{
}

/// Latch that makes shutdown run at most once, whichever teardown path
/// reaches it first.
pub struct ShutdownLatch {
    stopped: bool,
}

impl View for ShutdownLatch {
    type V = bool;

    closed spec fn view(&self) -> bool {
        self.stopped
    }
}

impl ShutdownLatch {
    /// A latch that has not been triggered.
    pub fn new() -> (latch: Self)
        ensures
            !latch@,
    {
        ShutdownLatch { stopped: false }
    }

    /// Triggers the latch; returns whether the caller must perform the
    /// shutdown (only the first time).
    pub fn begin_shutdown(&mut self) -> (perform: bool)
        ensures
            perform == shutdown_performs(old(self)@),
            final(self)@,
    {
        let perform = !self.stopped;
        self.stopped = true;
        perform
    }
}

/// A lazily created value whose failed creations are not cached: an error
/// may be transient (e.g. the bus restarting), so each use retries.
pub struct RetryCache<T> {
    value: Option<T>,
}

impl<T> View for RetryCache<T> {
    type V = Option<T>;

    closed spec fn view(&self) -> Option<T> {
        self.value
    }
}

impl<T> RetryCache<T> {
    /// An empty cache.
    pub fn new() -> (cache: Self)
        ensures
            cache@ is None,
    {
        RetryCache { value: None }
    }

    /// The cached value, if one was created.
    pub fn get(&self) -> (value: Option<&T>)
        ensures
            match value {
                Some(v) => self@ == Some(*v),
                None => self@ is None,
            },
    {
        self.value.as_ref()
    }

    /// Records a creation attempt: a success is cached, a failure leaves
    /// the cache as it was and is returned.
    pub fn record(&mut self, attempt: Result<T, Error>) -> (result: Result<(), Error>)
        ensures
            match attempt {
                Ok(v) => final(self)@ == Some(v) && result is Ok,
                Err(e) => final(self)@ == old(self)@ && (result matches Err(r) && r@ == e@),
            },
    {
        match attempt {
            Ok(v) => {
                self.value = Some(v);
                Ok(())
            },
            Err(e) => Err(e),
        }
    }
}

} // verus!
