use vstd::prelude::*;

verus! {

/// Declares `std::time::Instant`, a reading of the monotonic clock. Nothing
/// is known of what a value of it holds.
#[verifier::external_type_specification]
#[verifier::external_body]
pub struct ExInstant(std::time::Instant);

/// Calls `std::time::Instant::now`. Nothing is stated of the result: it is
/// the reading of a clock.
#[verifier::external_body]
fn now() -> (instant: std::time::Instant) {
    std::time::Instant::now()
}

/// Calls `std::time::Instant::elapsed` and hands the duration out in
/// nanoseconds. Nothing is stated of the result: it is the reading of a
/// clock.
#[verifier::external_body]
fn nanos_since(instant: &std::time::Instant) -> (nanos: u128) {
    instant.elapsed().as_nanos()
}

/// What a sandbox has used.
#[derive(Clone, Copy, Debug, PartialEq, Eq, Structural)]
pub struct ResourceUsage {
    pub memory_used: u64,
    pub cpu_time_nanos: u64,
}

/// A source of resource readings.
pub trait ResourceSampler {
    fn sample(&self) -> ResourceUsage;
}

/// The sampler that measures nothing.
#[derive(Clone, Copy, Debug)]
pub struct NoopSampler {}

impl ResourceSampler for NoopSampler {
    fn sample(&self) -> (usage: ResourceUsage)
        ensures
            usage == (ResourceUsage { memory_used: 0, cpu_time_nanos: 0 }),
    {
        ResourceUsage { memory_used: 0, cpu_time_nanos: 0 }
    }
}

/// A stopwatch that starts when it is made.
pub struct ResourceMonitor {
    start_time: std::time::Instant,
}

impl ResourceMonitor {
    /// Starts the stopwatch.
    pub fn new() -> (monitor: ResourceMonitor) {
        ResourceMonitor { start_time: now() }
    }

    /// The time since the stopwatch was started, in nanoseconds.
    pub fn elapsed(&self) -> (nanos: u128) {
        nanos_since(&self.start_time)
    }
}

impl ResourceSampler for ResourceMonitor {
    /// A stopwatch reads no resource.
    fn sample(&self) -> (usage: ResourceUsage)
        ensures
            usage == (ResourceUsage { memory_used: 0, cpu_time_nanos: 0 }),
    {
        ResourceUsage { memory_used: 0, cpu_time_nanos: 0 }
    }
}

} // verus!
