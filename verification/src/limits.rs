use vstd::prelude::*;

verus! {

/// Bytes in one mebibyte.
pub const MIB: u64 = 1_048_576;

/// One full core, in nanoseconds of CPU time per second.
pub const NANOS_PER_CORE: i64 = 1_000_000_000;

/// Memory ceiling used when a request names none, in mebibytes.
pub const DEFAULT_MEMORY_MB: u64 = 256;

/// Deadline used when a request names none, in seconds.
pub const DEFAULT_TIMEOUT_SECONDS: u64 = 60;

/// Per-request ceilings enforced on one sandbox.
///
/// The CPU share is held in nanoseconds of CPU time per second of wall
/// clock, so one full core is [`NANOS_PER_CORE`].
#[derive(Clone, Copy, Debug, PartialEq, Eq, Structural)]
pub struct ResourceLimits {
    pub memory_bytes: u64,
    pub cpu_quota_nanos: i64,
    pub timeout_seconds: u64,
}

impl ResourceLimits {
    /// A limit tuple is valid when each ceiling is positive.
    pub open spec fn valid(self) -> bool {
        &&& self.memory_bytes > 0
        &&& self.cpu_quota_nanos > 0
        &&& self.timeout_seconds > 0
    }

    /// The limits of a request in which every omitted parameter takes its
    /// default.
    pub open spec fn of_request(
        memory_mb: Option<u64>,
        cpu_quota_nanos: Option<i64>,
        timeout_seconds: Option<u64>,
    ) -> ResourceLimits {
        ResourceLimits {
            memory_bytes: (match memory_mb {
                Some(mb) => mb * MIB,
                None => DEFAULT_MEMORY_MB * MIB,
            }) as u64,
            cpu_quota_nanos: match cpu_quota_nanos {
                Some(n) => n,
                None => NANOS_PER_CORE,
            },
            timeout_seconds: match timeout_seconds {
                Some(t) => t,
                None => DEFAULT_TIMEOUT_SECONDS,
            },
        }
    }

    /// Whether a memory ceiling given in mebibytes can be held in bytes.
    pub open spec fn memory_fits(memory_mb: Option<u64>) -> bool {
        match memory_mb {
            Some(mb) => mb * MIB <= u64::MAX,
            None => true,
        }
    }

    /// Builds the limits of a request, filling in the defaults.
    pub fn from_request(
        memory_mb: Option<u64>,
        cpu_quota_nanos: Option<i64>,
        timeout_seconds: Option<u64>,
    ) -> (limits: ResourceLimits)
        requires
            Self::memory_fits(memory_mb),
        ensures
            limits == Self::of_request(memory_mb, cpu_quota_nanos, timeout_seconds),
    {
        let mb: u64 = match memory_mb {
            Some(mb) => mb,
            None => DEFAULT_MEMORY_MB,
        };
        ResourceLimits {
            memory_bytes: mb * MIB,
            cpu_quota_nanos: match cpu_quota_nanos {
                Some(n) => n,
                None => NANOS_PER_CORE,
            },
            timeout_seconds: match timeout_seconds {
                Some(t) => t,
                None => DEFAULT_TIMEOUT_SECONDS,
            },
        }
    }

    /// As [`ResourceLimits::from_request`], but answers `None` where the
    /// memory ceiling does not fit in a 64-bit byte count.
    pub fn try_from_request(
        memory_mb: Option<u64>,
        cpu_quota_nanos: Option<i64>,
        timeout_seconds: Option<u64>,
    ) -> (limits: Option<ResourceLimits>)
        ensures
            Self::memory_fits(memory_mb) ==> limits == Some(
                Self::of_request(memory_mb, cpu_quota_nanos, timeout_seconds),
            ),
            !Self::memory_fits(memory_mb) ==> limits.is_none(),
    {
        let fits = match memory_mb {
            Some(mb) => mb <= u64::MAX / MIB,
            None => true,
        };
        if fits {
            Some(Self::from_request(memory_mb, cpu_quota_nanos, timeout_seconds))
        } else {
            None
        }
    }

    /// Whether every ceiling is positive.
    pub fn is_valid(&self) -> (b: bool)
        ensures
            b == self.valid(),
    {
        self.memory_bytes > 0 && self.cpu_quota_nanos > 0 && self.timeout_seconds > 0
    }
}

impl Default for ResourceLimits {
    fn default() -> (limits: ResourceLimits)
        ensures
            limits == (ResourceLimits {
                memory_bytes: 268_435_456,
                cpu_quota_nanos: 1_000_000_000,
                timeout_seconds: 60,
            }),
    {
        ResourceLimits {
            memory_bytes: DEFAULT_MEMORY_MB * MIB,
            cpu_quota_nanos: NANOS_PER_CORE,
            timeout_seconds: DEFAULT_TIMEOUT_SECONDS,
        }
    }
}

/// The default limits are those of a request that names no parameter, and
/// they are valid.
pub proof fn lemma_default_limits()
    ensures
        ResourceLimits::of_request(None, None, None) == (ResourceLimits {
            memory_bytes: 268_435_456,
            cpu_quota_nanos: 1_000_000_000,
            timeout_seconds: 60,
        }),
        ResourceLimits::of_request(None, None, None).valid(),
{
}

/// A request whose parameters are all positive, and whose memory ceiling
/// fits, yields valid limits.
pub proof fn lemma_positive_request_is_valid(
    memory_mb: Option<u64>,
    cpu_quota_nanos: Option<i64>,
    timeout_seconds: Option<u64>,
)
    requires
        ResourceLimits::memory_fits(memory_mb),
        memory_mb matches Some(mb) ==> mb > 0,
        cpu_quota_nanos matches Some(n) ==> n > 0,
        timeout_seconds matches Some(t) ==> t > 0,
    ensures
        ResourceLimits::of_request(memory_mb, cpu_quota_nanos, timeout_seconds).valid(),
{
}

} // verus!
