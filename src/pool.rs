use vstd::prelude::*;

verus! {

/// Sizing and timeouts of the datastore connection pool.
pub struct PoolOptions {
    pub max_connections: u32,
    pub min_connections: u32,
    /// Seconds allowed to open a connection.
    pub connect_timeout: u64,
    /// Seconds allowed to take a connection from the pool.
    pub acquire_timeout: u64,
    /// Seconds an unused connection stays open.
    pub idle_timeout: u64,
    /// Seconds a connection may live at most.
    pub max_lifetime: u64,
}

impl PoolOptions {
    /// The pool never holds fewer connections than it may hold at most, and
    /// every timeout is positive.
    pub open spec fn wf(&self) -> bool {
        &&& self.min_connections <= self.max_connections
        &&& self.connect_timeout > 0
        &&& self.acquire_timeout > 0
        &&& self.idle_timeout > 0
        &&& self.max_lifetime > 0
    }

    /// The fixed operating values of the pool, whatever the settings say.
    pub fn service_defaults() -> (r: PoolOptions)
        ensures
            r.wf(),
            r.max_connections == 100,
            r.min_connections == 5,
            r.connect_timeout == 8,
            r.acquire_timeout == 8,
            r.idle_timeout == 8,
            r.max_lifetime == 8,
    {
        PoolOptions {
            max_connections: 100,
            min_connections: 5,
            connect_timeout: 8,
            acquire_timeout: 8,
            idle_timeout: 8,
            max_lifetime: 8,
        }
    }
}

} // verus!
