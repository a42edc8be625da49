//! Measuring how long work takes.

use vstd::prelude::*;
use std::time::{Duration, Instant};

verus! {

#[verifier::external_type_specification]
#[verifier::external_body]
pub struct ExInstant(Instant);

/// Relies on `std::time::Instant::now`: the current instant of a monotonic
/// clock. Nothing is promised of its value.
pub assume_specification[ Instant::now ]() -> Instant;

/// Relies on `std::time::Instant::elapsed`: the time since the instant.
/// Nothing is promised of its value.
pub assume_specification[ Instant::elapsed ](this: &Instant) -> Duration;

/// A timer started when made, with a label.
pub struct Timer {
    start: Instant,
    label: String,
}

impl Timer {
    /// The label of the timer.
    pub closed spec fn label_spec(&self) -> Seq<char> {
        self.label@
    }

    /// A timer labelled `label`, started now.
    pub fn new(label: &str) -> (r: Timer)
        ensures
            r.label_spec() == label@,
    {
        Timer { start: Instant::now(), label: label.to_owned() }
    }

    /// The label of the timer.
    pub fn label(&self) -> (r: &str)
        ensures
            r@ == self.label_spec(),
    {
        self.label.as_str()
    }

    /// The time since the timer was made.
    pub fn elapsed(&self) -> Duration {
        self.start.elapsed()
    }
}

/// Run `f` and return its result with the time it took.
pub fn time_function<F, R>(_label: &str, f: F) -> (r: (R, Duration))
    where
        F: FnOnce() -> R,
    requires
        f.requires(()),
    ensures
        f.ensures((), r.0),
{
    let start = Instant::now();
    let result = f();
    let duration = start.elapsed();
    (result, duration)
}

} // verus!
