//! The frame synchronization token: the CPU-side handle on the GPU work that
//! was submitted last.
use vstd::prelude::*;

verus! {

/// Completion state of the last submitted unit of GPU work.
#[derive(Clone, Copy, Debug, PartialEq, Eq, Structural)]
pub enum SyncToken {
    /// Nothing is outstanding.
    Completed,
    /// The submission with this serial number may still be running.
    Pending { serial: u64 },
}

/// Holds at most one token. Taking it leaves the slot empty until a new one
/// is put back, so a second take before that is caught.
#[derive(Clone, Copy, Debug, PartialEq, Eq, Structural)]
pub struct FrameSync {
    pub slot: Option<SyncToken>,
}

impl FrameSync {
    /// A slot holding an already completed token.
    pub fn completed() -> (r: FrameSync)
        ensures
            r.slot == Some(SyncToken::Completed),
    {
        FrameSync { slot: Some(SyncToken::Completed) }
    }

    /// Whether a token is held (not taken).
    pub fn is_held(&self) -> (r: bool)
        ensures
            r == self.slot is Some,
    {
        self.slot.is_some()
    }

    /// Consumes the held token; `None` if it was already taken.
    pub fn take(&mut self) -> (r: Option<SyncToken>)
        ensures
            r == old(self).slot,
            final(self).slot is None,
    {
        let r = self.slot;
        self.slot = None;
        r
    }

    /// Stores the token that the next frame waits on.
    pub fn put(&mut self, token: SyncToken)
        ensures
            final(self).slot == Some(token),
    {
        self.slot = Some(token);
    }
}

} // verus!
