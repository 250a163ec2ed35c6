use vstd::prelude::*;

verus! {

/// Largest payload, in bytes, that a probe may carry.
pub const MAX_PAYLOAD: usize = 1500;

/// Why a probe configuration was rejected.
#[derive(Clone, Copy, Debug, PartialEq, Eq, Structural)]
pub enum ConfigError {
    ZeroCount,
    ZeroTimeout,
    ZeroInterval,
    PayloadSize(usize),
}

/// How a run probes its target. Durations are in milliseconds.
#[derive(Clone, Copy, Debug, PartialEq, Eq, Structural)]
pub struct ProbeConfig {
    pub count: u16,
    pub timeout_ms: u64,
    pub interval_ms: u64,
    pub size: usize,
}

/// The first rule that the given values break, if any: at least one probe,
/// a positive timeout and interval, and a payload of 1 to 1500 bytes.
pub open spec fn config_error(count: u16, timeout_ms: u64, interval_ms: u64, size: usize) -> Option<
    ConfigError,
> {
    if count == 0 {
        Some(ConfigError::ZeroCount)
    } else if timeout_ms == 0 {
        Some(ConfigError::ZeroTimeout)
    } else if interval_ms == 0 {
        Some(ConfigError::ZeroInterval)
    } else if size < 1 || size > MAX_PAYLOAD {
        Some(ConfigError::PayloadSize(size))
    } else {
        None
    }
}

impl ProbeConfig {
    pub open spec fn is_valid(&self) -> bool {
        config_error(self.count, self.timeout_ms, self.interval_ms, self.size) is None
    }

    /// A configuration of the given values, or the first rule they break.
    pub fn new(count: u16, timeout_ms: u64, interval_ms: u64, size: usize) -> (r: Result<
        ProbeConfig,
        ConfigError,
    >)
        ensures
            r == match config_error(count, timeout_ms, interval_ms, size) {
                None => Ok::<ProbeConfig, ConfigError>(ProbeConfig { count, timeout_ms, interval_ms, size }),
                Some(e) => Err(e),
            },
            r matches Ok(c) ==> c.is_valid(),
    {
        if count == 0 {
            Err(ConfigError::ZeroCount)
        } else if timeout_ms == 0 {
            Err(ConfigError::ZeroTimeout)
        } else if interval_ms == 0 {
            Err(ConfigError::ZeroInterval)
        } else if size < 1 || size > MAX_PAYLOAD {
            Err(ConfigError::PayloadSize(size))
        } else {
            Ok(ProbeConfig { count, timeout_ms, interval_ms, size })
        }
    }

    /// The payload every probe carries: `size` zero bytes.
    pub fn payload(&self) -> (r: Vec<u8>)
        ensures
            r@ == Seq::new(self.size as nat, |i: int| 0u8),
    {
        let mut v: Vec<u8> = Vec::new();
        while v.len() < self.size
            invariant
                v.len() <= self.size,
                v@ == Seq::new(v.len() as nat, |i: int| 0u8),
            decreases self.size - v.len(),
        {
            v.push(0u8);
            assert(v@ =~= Seq::new(v.len() as nat, |i: int| 0u8));
        }
        v
    }
}

} // verus!
