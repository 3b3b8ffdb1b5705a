//! The startup configuration the proxy core reads: a bind address, a bind
//! port and the throttle byte count. It is built once at startup and never
//! changes afterwards.

use vstd::prelude::*;

verus! {

/// The configuration values supplied at startup.
#[derive(Debug)]
pub struct Arguments {
    pub bind_address: String,
    pub bind_port: u16,
    pub n_bytes: usize,
}

impl Arguments {
    /// Gather the configuration values into one read-only record.
    pub fn new(bind_address: String, bind_port: u16, n_bytes: usize) -> (r: Arguments)
        ensures
            r.bind_address == bind_address,
            r.bind_port == bind_port,
            r.n_bytes == n_bytes,
    {
        Arguments { bind_address, bind_port, n_bytes }
    }

    /// The address to listen on.
    pub fn bind_address(&self) -> (r: &str)
        ensures
            r@ == self.bind_address@,
    {
        self.bind_address.as_str()
    }

    /// The port to listen on.
    pub fn bind_port(&self) -> (r: u16)
        ensures
            r == self.bind_port,
    {
        self.bind_port
    }

    /// How many leading client bytes each connection relays one at a time.
    pub fn n_bytes(&self) -> (r: usize)
        ensures
            r == self.n_bytes,
    {
        self.n_bytes
    }
}

} // verus!
