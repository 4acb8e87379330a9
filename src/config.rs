use vstd::prelude::*;

verus! {

/// Deadline of one job, in milliseconds, unless configured otherwise.
pub const DEFAULT_TIMEOUT_MS: u64 = 5000;

/// Outstanding submissions the queue holds before submitters must wait.
pub const DEFAULT_CAPACITY: usize = 100;

/// Port the HTTP server binds to by default, on the loopback address.
pub const DEFAULT_PORT: u16 = 3000;

/// The largest queue capacity the submission channel accepts.
pub const MAX_CAPACITY: usize = usize::MAX >> 3;

/// Startup settings of the dispatch core.
#[derive(Clone, Copy, Debug)]
pub struct Config {
    /// Wall-clock budget of one job, from its start to its reply.
    pub timeout_ms: u64,
    /// Capacity of the bounded submission queue.
    pub capacity: usize,
    /// The IPv4 address to bind, as its four octets.
    pub ip: (u8, u8, u8, u8),
    pub port: u16,
}

/// The reason a configuration was refused.
#[derive(Clone, Copy, Debug, PartialEq, Eq, Structural)]
pub enum ConfigError {
    /// A queue must hold at least one submission.
    ZeroCapacity,
    /// The capacity is above what the queue can count.
    CapacityTooLarge,
}

impl Config {
    /// A configuration the dispatch core can start with.
    pub open spec fn wf(&self) -> bool {
        0 < self.capacity <= MAX_CAPACITY
    }

    /// Checks the settings and builds a configuration from them.
    pub fn new(timeout_ms: u64, capacity: usize, ip: (u8, u8, u8, u8), port: u16) -> (r: Result<
        Config,
        ConfigError,
    >)
        ensures
            capacity == 0 <==> r == Err::<Config, ConfigError>(ConfigError::ZeroCapacity),
            capacity > MAX_CAPACITY <==> r == Err::<Config, ConfigError>(
                ConfigError::CapacityTooLarge,
            ),
            0 < capacity <= MAX_CAPACITY <==> r == Ok::<Config, ConfigError>(
                (Config { timeout_ms, capacity, ip, port }),
            ),
            r matches Ok(c) ==> c.wf(),
    {
        if capacity == 0 {
            Err(ConfigError::ZeroCapacity)
        } else if capacity > MAX_CAPACITY {
            Err(ConfigError::CapacityTooLarge)
        } else {
            Ok(Config { timeout_ms, capacity, ip, port })
        }
    }
}

impl Default for Config {
    /// A five-second deadline, a queue of one hundred, and `127.0.0.1:3000`.
    fn default() -> (r: Config)
        ensures
            r == (Config {
                timeout_ms: DEFAULT_TIMEOUT_MS,
                capacity: DEFAULT_CAPACITY,
                ip: (127u8, 0u8, 0u8, 1u8),
                port: DEFAULT_PORT,
            }),
            r.wf(),
    {
        proof {
            let m = usize::MAX;
            assert(m >> 3usize >= 100usize) by (bit_vector)
                requires
                    m >= 0xffff_ffffusize,
            ;
        }
        Config {
            timeout_ms: DEFAULT_TIMEOUT_MS,
            capacity: DEFAULT_CAPACITY,
            ip: (127, 0, 0, 1),
            port: DEFAULT_PORT,
        }
    }
}

} // verus!
