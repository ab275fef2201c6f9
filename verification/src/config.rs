use vstd::prelude::*;

verus! {

/// Configuration consumed by the process around the store: the port the
/// transport listens on, and the default window length in seconds handed to
/// the store on every increment. Loaded from the environment outside the
/// library.
#[derive(Clone, Copy, Debug)]
pub struct Env {
    pub server_port: usize,
    pub ttl: i64,
}

} // verus!
