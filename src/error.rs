use vstd::prelude::*;

verus! {

/// The kinds of failure a clipboard operation reports.
#[derive(Clone, Copy, Debug, PartialEq, Eq, Structural)]
pub enum ClipboardError {
    /// The backend does not offer this capability.
    Unsupported,
    /// The connection to the windowing system or clipboard service failed.
    Transport,
    /// The peer answered with something the protocol does not allow.
    ProtocolViolation,
    /// The clipboard has no owner, or no representation of the requested kind.
    Empty,
    /// The process-wide clipboard guard could not be acquired.
    LockFailure,
}

/// Outcome of a clipboard operation.
pub type Result<T> = core::result::Result<T, ClipboardError>;

impl ClipboardError {
    /// The description of each failure kind.
    pub open spec fn description_spec(self) -> Seq<char> {
        match self {
            ClipboardError::Unsupported => "unsupported for this platform"@,
            ClipboardError::Transport => "clipboard transport failed"@,
            ClipboardError::ProtocolViolation => "clipboard peer violated the protocol"@,
            ClipboardError::Empty => "clipboard is empty"@,
            ClipboardError::LockFailure => "could not acquire the clipboard guard"@,
        }
    }

    /// A short human-readable description of the failure kind.
    pub fn description(&self) -> (r: &'static str)
        ensures
            r@ == self.description_spec(),
    {
        match self {
            ClipboardError::Unsupported => "unsupported for this platform",
            ClipboardError::Transport => "clipboard transport failed",
            ClipboardError::ProtocolViolation => "clipboard peer violated the protocol",
            ClipboardError::Empty => "clipboard is empty",
            ClipboardError::LockFailure => "could not acquire the clipboard guard",
        }
    }
}

} // verus!
