//! Passive mode during the USB bootstrap (phase 4 and the settle window): only keep-alive
//! frames are swallowed.
use vstd::prelude::*;
use crate::modes::standard::{keep_alive_spec, Standard};
use crate::state::{HelixState, Mode};

verus! {

/// Passive mode of the bootstrap.
pub struct AwaitPostBootstrapSettle;

impl AwaitPostBootstrapSettle {
    pub fn new() -> (r: Self) {
        AwaitPostBootstrapSettle
    }

    /// Whether an IN frame is not a keep-alive frame; the state is left as it is.
    pub fn handle_in(&mut self, data: &[u8], state: &mut HelixState) -> (r: bool)
        ensures
            r == !keep_alive_spec(old(state).session.connecting, data@),
            *final(state) == *old(state),
    {
        !Standard::check_keep_alive(data, state)
    }
}

impl Mode for AwaitPostBootstrapSettle {
    fn start(&mut self, state: &mut HelixState) {
    }

    fn data_in(&mut self, data: &[u8], state: &mut HelixState) -> bool {
        self.handle_in(data, state)
    }

    fn shutdown(&mut self, state: &mut HelixState) {
    }
}

} // verus!
