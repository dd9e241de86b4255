//! The error taxonomy of a transfer: what failed, and during which stage.

use vstd::prelude::*;
use crate::num::{append_dec_u64, spec_dec_digits};

verus! {

/// The stage of a transfer during which a failure surfaced.
#[derive(Clone, Copy, Debug, PartialEq, Eq, Structural)]
pub enum TransferStage {
    /// The metadata-only probe of the remote resource.
    Probe,
    /// Deciding the strategy and cutting segments.
    Plan,
    /// Fetching the segment with this index.
    Segment { index: usize },
    /// The single-stream fallback copy.
    Fallback,
    /// The final flush and sync of the destination.
    Finalize,
    /// Comparing the destination against the expected digest.
    Verify,
}

/// What kind of failure occurred.
#[derive(Clone, Copy, Debug, PartialEq, Eq, Structural)]
pub enum TransferErrorKind {
    /// Connection, name resolution or timeout failure.
    Transport,
    /// An unexpected HTTP status, such as a range request answered with
    /// plain 200.
    Protocol { status: u16 },
    /// A local file create, seek, write or flush failure.
    Io,
    /// The transfer completed but the content does not match the expected
    /// digest.
    Integrity,
}

/// A failure of one transfer: the stage it happened in and its kind.
#[derive(Clone, Copy, Debug, PartialEq, Eq, Structural)]
pub struct TransferError {
    pub stage: TransferStage,
    pub kind: TransferErrorKind,
}

impl TransferError {
    /// A transport failure in `stage`.
    pub fn transport(stage: TransferStage) -> (r: TransferError)
        ensures
            r == (TransferError { stage, kind: TransferErrorKind::Transport }),
    {
        TransferError { stage, kind: TransferErrorKind::Transport }
    }

    /// A protocol failure in `stage`: the server answered `status` where
    /// another status was required.
    pub fn protocol(stage: TransferStage, status: u16) -> (r: TransferError)
        ensures
            r == (TransferError { stage, kind: TransferErrorKind::Protocol { status } }),
    {
        TransferError { stage, kind: TransferErrorKind::Protocol { status } }
    }
}

/// The name of a transfer stage, for error messages.
pub open spec fn spec_stage_str(stage: TransferStage) -> Seq<char> {
    match stage {
        TransferStage::Probe => "probe"@,
        TransferStage::Plan => "plan"@,
        TransferStage::Segment { index } => "segment "@ + spec_dec_digits(index as nat),
        TransferStage::Fallback => "fallback"@,
        TransferStage::Finalize => "finalize"@,
        TransferStage::Verify => "verify"@,
    }
}

/// The name of an error kind, for error messages.
pub open spec fn spec_kind_str(kind: TransferErrorKind) -> Seq<char> {
    match kind {
        TransferErrorKind::Transport => "transport error"@,
        TransferErrorKind::Protocol { status } => "unexpected status "@ + spec_dec_digits(
            status as nat,
        ),
        TransferErrorKind::Io => "i/o error"@,
        TransferErrorKind::Integrity => "digest mismatch"@,
    }
}

impl TransferError {
    /// The structured rendering of this failure: the stage, then the kind.
    pub fn describe(&self) -> (r: String)
        ensures
            r@ == spec_stage_str(self.stage) + ": "@ + spec_kind_str(self.kind),
    {
        let mut s = String::new();
        match self.stage {
            TransferStage::Probe => s.append("probe"),
            TransferStage::Plan => s.append("plan"),
            TransferStage::Segment { index } => {
                s.append("segment ");
                append_dec_u64(&mut s, index as u64);
            },
            TransferStage::Fallback => s.append("fallback"),
            TransferStage::Finalize => s.append("finalize"),
            TransferStage::Verify => s.append("verify"),
        }
        s.append(": ");
        match self.kind {
            TransferErrorKind::Transport => s.append("transport error"),
            TransferErrorKind::Protocol { status } => {
                s.append("unexpected status ");
                append_dec_u64(&mut s, status as u64);
            },
            TransferErrorKind::Io => s.append("i/o error"),
            TransferErrorKind::Integrity => s.append("digest mismatch"),
        }
        proof {
            assert(s@ =~= spec_stage_str(self.stage) + ": "@ + spec_kind_str(self.kind));
        }
        s
    }
}

/// What a successful transfer produced.
#[derive(Clone, Copy, Debug, PartialEq, Eq, Structural)]
pub struct TransferResult {
    /// Bytes written to the destination.
    pub bytes_written: u64,
    /// Wall-clock duration of the transfer, in milliseconds.
    pub elapsed_ms: u64,
}

} // verus!
