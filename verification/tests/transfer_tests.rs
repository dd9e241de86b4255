use hutao_installer::hash::{hash_bytes_sha256, verify_bytes};
use hutao_installer::plan::plan_transfer;
use hutao_installer::progress::{StreamProgress, SINGLE_STREAM_INTERVAL_MS};
use hutao_installer::transfer::{
    append_chunk, commit_segment, copy_block, write_at, TransferMachine, TransferPhase,
};

const MIB: usize = 1024 * 1024;

fn fixture_bytes(len: usize) -> Vec<u8> {
    let mut state: u64 = 0x2545F4914F6CDD1D;
    let mut out = Vec::with_capacity(len);
    for _ in 0..len {
        state = state.wrapping_mul(6364136223846793005).wrapping_add(1442695040888963407);
        out.push((state >> 56) as u8);
    }
    out
}

#[test]
fn write_at_replaces_only_the_window() {
    let mut dest = vec![0u8; 10];
    write_at(&mut dest, 3, &[7, 8, 9]);
    assert_eq!(dest, vec![0, 0, 0, 7, 8, 9, 0, 0, 0, 0]);
}

#[test]
fn append_chunk_accumulates_a_body() {
    let mut body: Vec<u8> = Vec::new();
    append_chunk(&mut body, &[1, 2]);
    append_chunk(&mut body, &[]);
    append_chunk(&mut body, &[3]);
    assert_eq!(body, vec![1, 2, 3]);
}

#[test]
fn ten_mib_fixture_reassembles_byte_for_byte() {
    let source = fixture_bytes(10 * MIB);
    let plan = plan_transfer(source.len() as u64, true, 4);
    assert_eq!(plan.segments.len(), 4);
    for seg in &plan.segments {
        assert_eq!(seg.end - seg.start + 1, (10 * MIB as u64) / 4);
    }

    let expected_digest = hash_bytes_sha256(&source);
    let mut output = vec![0u8; source.len()];
    // Commit the segments out of order, as workers may finish in any order.
    for &i in &[2usize, 0, 3, 1] {
        let seg = &plan.segments[i];
        let mut body: Vec<u8> = Vec::new();
        append_chunk(&mut body, &source[seg.start as usize..=seg.end as usize]);
        commit_segment(&mut output, seg, &body);
    }
    assert_eq!(output, source);
    assert!(verify_bytes(&output, &expected_digest));
}

#[test]
fn fallback_copy_reports_exactly_the_output_length() {
    let source = fixture_bytes(1_000_000);
    let mut progress = StreamProgress::new(SINGLE_STREAM_INTERVAL_MS, 0);
    let mut dest: Vec<u8> = Vec::new();
    let mut observed: Vec<u64> = Vec::new();
    let mut now: u64 = 0;
    for block in source.chunks(256 * 1024) {
        now += 15;
        if let Some(v) = copy_block(&mut dest, &mut progress, block, now) {
            observed.push(v);
        }
    }
    observed.push(progress.finish());
    assert_eq!(dest, source);
    for w in observed.windows(2) {
        assert!(w[0] <= w[1]);
    }
    assert_eq!(*observed.last().unwrap(), dest.len() as u64);
}

#[test]
fn corrupting_one_byte_breaks_verification() {
    let source = fixture_bytes(4096);
    let digest = hash_bytes_sha256(&source);
    let mut copy = source.clone();
    copy[100] ^= 0xFF;
    assert!(verify_bytes(&source, &digest));
    assert!(!verify_bytes(&copy, &digest));
}

#[test]
fn machine_walks_the_segmented_lifecycle() {
    let mut m = TransferMachine::start();
    assert_eq!(m.phase, TransferPhase::Probing);
    m.probed();
    assert_eq!(m.phase, TransferPhase::Planning);
    m.start_segments(4);
    assert_eq!(m.phase, TransferPhase::Downloading { pending: 4 });
    m.segment_done();
    m.segment_done();
    m.segment_done();
    assert_eq!(m.phase, TransferPhase::Downloading { pending: 1 });
    m.segment_done();
    assert_eq!(m.phase, TransferPhase::Finalizing);
    m.finalized();
    assert_eq!(m.phase, TransferPhase::Done);
}

#[test]
fn an_exhausted_segment_fails_the_transfer() {
    let mut m = TransferMachine::start();
    m.probed();
    m.start_segments(2);
    m.segment_done();
    m.segment_failed();
    assert_eq!(m.phase, TransferPhase::Failed);
}
