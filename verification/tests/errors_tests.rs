use hutao_installer::errors::{
    TransferError, TransferErrorKind, TransferResult, TransferStage,
};

#[test]
fn failures_name_their_stage_and_kind() {
    let e = TransferError::transport(TransferStage::Probe);
    assert_eq!(e.describe(), "probe: transport error");

    let e = TransferError::protocol(TransferStage::Segment { index: 3 }, 200);
    assert_eq!(e.describe(), "segment 3: unexpected status 200");

    let e = TransferError { stage: TransferStage::Finalize, kind: TransferErrorKind::Io };
    assert_eq!(e.describe(), "finalize: i/o error");

    let e = TransferError {
        stage: TransferStage::Verify,
        kind: TransferErrorKind::Integrity,
    };
    assert_eq!(e.describe(), "verify: digest mismatch");

    let e = TransferError::transport(TransferStage::Fallback);
    assert_eq!(e.describe(), "fallback: transport error");

    let e = TransferError { stage: TransferStage::Plan, kind: TransferErrorKind::Io };
    assert_eq!(e.describe(), "plan: i/o error");
}

#[test]
fn a_result_carries_bytes_and_elapsed_time() {
    let r = TransferResult { bytes_written: 10485760, elapsed_ms: 1200 };
    assert_eq!(r.bytes_written, 10485760);
    assert_eq!(r.elapsed_ms, 1200);
}
