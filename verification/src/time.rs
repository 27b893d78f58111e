//! The pluggable time source a session configuration carries.
//!
//! Certificate validity checks need the current time; where no clock
//! exists, a provider that always fails can be used. The actual clock
//! is supplied by the caller through the `GetCurrentTime` trait.

use vstd::prelude::*;

verus! {

/// A point in time as whole seconds since the Unix epoch.
#[derive(Clone, Copy, Debug, PartialEq, Eq, Structural)]
pub struct UnixTime {
    pub secs: u64,
}

impl UnixTime {
    pub fn since_unix_epoch(secs: u64) -> (r: Self)
        ensures
            r.secs == secs,
    {
        UnixTime { secs }
    }

    pub fn as_secs(&self) -> (r: u64)
        ensures
            r == self.secs,
    {
        self.secs
    }
}

/// A source of the current time, implemented by the caller.
pub trait GetCurrentTime: Sized {
    /// Whether this source never supplies a time. Sources that do
    /// supply one keep the default.
    open spec fn always_fails(&self) -> bool {
        false
    }

    /// The current time, or `None` if it cannot be retrieved.
    fn get_current_time(&self) -> (r: Option<UnixTime>)
        ensures
            self.always_fails() ==> r is None,
    ;
}

/// A time source that always fails.
#[derive(Clone, Copy, Debug, PartialEq, Eq, Structural)]
pub struct NoTimeProvider;

impl GetCurrentTime for NoTimeProvider {
    open spec fn always_fails(&self) -> bool {
        true
    }

    fn get_current_time(&self) -> (r: Option<UnixTime>)
        ensures
            r is None,
    {
        None
    }
}

/// An object that provides the current time to a session.
pub struct TimeProvider<G: GetCurrentTime> {
    inner: G,
}

impl<G: GetCurrentTime> TimeProvider<G> {
    /// Creates a new time provider around a time source.
    pub fn new(time_getter: G) -> (r: Self)
        ensures
            r.inner_spec() == time_getter,
    {
        TimeProvider { inner: time_getter }
    }

    pub closed spec fn inner_spec(&self) -> G {
        self.inner
    }

    /// Asks the underlying source for the current time.
    pub fn get_current_time(&self) -> (r: Option<UnixTime>)
        ensures
            self.inner_spec().always_fails() ==> r is None,
    {
        self.inner.get_current_time()
    }
}

impl TimeProvider<NoTimeProvider> {
    /// A time provider that always fails: it never returns a time.
    pub fn none() -> (r: Self)
        ensures
            r.inner_spec() == NoTimeProvider,
            r.inner_spec().always_fails(),
    {
        TimeProvider::new(NoTimeProvider)
    }
}

} // verus!
