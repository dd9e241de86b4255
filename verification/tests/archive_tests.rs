use hutao_installer::archive::decompress;
use std::io::Write;

fn gzip(data: &[u8]) -> Vec<u8> {
    let mut encoder = flate2::write::GzEncoder::new(Vec::new(), flate2::Compression::default());
    encoder.write_all(data).unwrap();
    encoder.finish().unwrap()
}

#[test]
fn gzipped_payloads_round_trip() {
    let payload = b"a package payload, compressed for embedding".to_vec();
    let compressed = gzip(&payload);
    assert_eq!(decompress(&compressed).unwrap(), payload);
}

#[test]
fn empty_payload_round_trips() {
    let compressed = gzip(b"");
    assert_eq!(decompress(&compressed).unwrap(), Vec::<u8>::new());
}

#[test]
fn garbage_is_rejected() {
    assert!(decompress(b"not a gzip stream").is_err());
    assert!(decompress(b"").is_err());
}
