//! The state and byte count shared by the AWS-LC contexts.

use vstd::prelude::*;
use crate::types::context::{ContextState, state_can_finalize, state_can_update};

verus! {

/// State of an AWS-LC operation context and the bytes it processed.
#[derive(Debug, Clone, Copy, PartialEq, Eq, Structural)]
pub struct ContextStateManager {
    pub state: ContextState,
    pub bytes_processed: u64,
}

impl ContextStateManager {
    /// A fresh manager: initialized, nothing processed.
    pub fn new() -> (r: Self)
        ensures
            r.state == ContextState::Initialized,
            r.bytes_processed == 0,
    {
        ContextStateManager { state: ContextState::Initialized, bytes_processed: 0 }
    }

    /// The current state.
    pub fn state(&self) -> (r: ContextState)
        ensures
            r == self.state,
    {
        self.state
    }

    /// Enter `state`.
    pub fn set_state(&mut self, state: ContextState)
        ensures
            final(self).state == state,
            final(self).bytes_processed == old(self).bytes_processed,
    {
        self.state = state;
    }

    /// The bytes processed so far.
    pub fn bytes_processed(&self) -> (r: u64)
        ensures
            r == self.bytes_processed,
    {
        self.bytes_processed
    }

    /// Count `bytes` more processed bytes (the count wraps at 2^64, as the
    /// unchecked addition does in a release build).
    pub fn add_bytes_processed(&mut self, bytes: usize)
        ensures
            final(self).bytes_processed == (old(self).bytes_processed + bytes) % 0x1_0000_0000_0000_0000,
            final(self).state == old(self).state,
    {
        self.bytes_processed = self.bytes_processed.wrapping_add(bytes as u64);
    }

    /// Whether the state accepts new data.
    pub fn can_update(&self) -> (r: bool)
        ensures
            r == state_can_update(self.state),
    {
        self.state.can_update()
    }

    /// Whether the state allows finalization.
    pub fn can_finalize(&self) -> (r: bool)
        ensures
            r == state_can_finalize(self.state),
    {
        self.state.can_finalize()
    }

    /// Whether the state is finalized.
    pub fn is_finalized(&self) -> (r: bool)
        ensures
            r == (self.state is Finalized),
    {
        self.state.is_finalized()
    }
}

impl Default for ContextStateManager {
    fn default() -> (r: Self)
        ensures
            r.state == ContextState::Initialized,
            r.bytes_processed == 0,
    {
        ContextStateManager::new()
    }
}

} // verus!
