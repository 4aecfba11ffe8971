use blake2::Digest;
use blobscan::{
    checksum_chunked, checksum_chunks, BlobsOptions, ChecksumScanner, FileInfo, ScanError,
    ScanEvent, ScanOptions, ScanStep, DEFAULT_CHUNK_SIZE,
};

const EMPTY_DIGEST: &str = "69217a3079908094e11121d042354a7c1f55b6482ca1a51e1b250dfd1ed0eef9";
const ABC_DIGEST: &str = "508c5e8c327c14e2e1a72ba34eeb452f37458b209ed63a294d999b4c86675982";

fn run_events(chunks: &[&[u8]]) -> ScanStep {
    let mut scanner = ChecksumScanner::new();
    for chunk in chunks {
        match scanner.step(ScanEvent::Chunk(chunk.to_vec())) {
            ScanStep::Continue(next) => scanner = next,
            other => return other,
        }
    }
    scanner.step(ScanEvent::Chunk(Vec::new()))
}

fn patterned(len: usize) -> Vec<u8> {
    (0..len).map(|i| (i % 251) as u8).collect()
}

#[test]
fn empty_input_gives_empty_digest() {
    assert_eq!(checksum_chunked(&[], DEFAULT_CHUNK_SIZE), EMPTY_DIGEST);
    assert_eq!(checksum_chunks(&Vec::new()), EMPTY_DIGEST);
    match run_events(&[]) {
        ScanStep::Done(hex) => assert_eq!(hex, EMPTY_DIGEST),
        _ => panic!("an empty source must finish"),
    }
}

#[test]
fn abc_matches_published_vector() {
    assert_eq!(checksum_chunked(b"abc", DEFAULT_CHUNK_SIZE), ABC_DIGEST);
    assert_eq!(checksum_chunked(b"abc", 1), ABC_DIGEST);
    match run_events(&[b"a", b"bc"]) {
        ScanStep::Done(hex) => assert_eq!(hex, ABC_DIGEST),
        _ => panic!("the scan must finish"),
    }
}

#[test]
fn checksum_is_64_lowercase_hex_digits() {
    let hex = checksum_chunked(b"hello world", 3);
    assert_eq!(hex.len(), 64);
    assert!(hex.chars().all(|c| c.is_ascii_digit() || ('a'..='f').contains(&c)));
}

#[test]
fn chunk_size_does_not_change_checksum() {
    let data = patterned(3 * 1024 * 1024 + 17);
    let one = checksum_chunked(&data[..70_000], 1);
    assert_eq!(one, checksum_chunked(&data[..70_000], 4096));
    assert_eq!(one, checksum_chunked(&data[..70_000], 1024 * 1024));
    let small = checksum_chunked(&data, 4096);
    assert_eq!(small, checksum_chunked(&data, 1024 * 1024));
    assert_eq!(small, checksum_chunked(&data, DEFAULT_CHUNK_SIZE));
}

#[test]
fn same_bytes_split_differently_give_same_checksum() {
    let data = patterned(10_000);
    let a = vec![data[..1].to_vec(), data[1..5000].to_vec(), data[5000..].to_vec()];
    let b = vec![Vec::new(), data[..9_999].to_vec(), Vec::new(), data[9_999..].to_vec()];
    assert_eq!(checksum_chunks(&a), checksum_chunks(&b));
    assert_eq!(checksum_chunks(&a), checksum_chunked(&data, 777));
    assert_eq!(checksum_chunked(&data, 10), checksum_chunked(&data, 10));
}

#[test]
fn flipping_one_bit_changes_checksum() {
    let data = patterned(4096);
    let base = checksum_chunked(&data, 512);
    for pos in [0usize, 1, 63, 64, 1000, 2048, 4095] {
        for bit in [0u8, 3, 7] {
            let mut mutated = data.clone();
            mutated[pos] ^= 1 << bit;
            assert_ne!(checksum_chunked(&mutated, 512), base);
        }
    }
}

#[test]
fn open_failure_reports_source_unavailable() {
    let step = ChecksumScanner::new().step(ScanEvent::OpenFailed("no such file".to_string()));
    match step {
        ScanStep::Failed(err) => {
            assert_eq!(err, ScanError::SourceUnavailable("no such file".to_string()))
        }
        _ => panic!("an open failure must abort the scan"),
    }
}

#[test]
fn read_failure_mid_stream_reports_read_failure() {
    let scanner = match ChecksumScanner::new().step(ScanEvent::Chunk(b"partial".to_vec())) {
        ScanStep::Continue(next) => next,
        _ => panic!("a non-empty chunk must continue the scan"),
    };
    match scanner.step(ScanEvent::ReadFailed("device error".to_string())) {
        ScanStep::Failed(err) => assert_eq!(err, ScanError::ReadFailure("device error".to_string())),
        _ => panic!("a read failure must abort the scan"),
    }
}

#[test]
fn feed_and_finish_match_step_run() {
    let mut scanner = ChecksumScanner::new();
    scanner.feed(b"ab");
    scanner.feed(b"");
    scanner.feed(b"c");
    assert_eq!(scanner.finish(), ABC_DIGEST);
}

#[test]
fn large_input_matches_reference_hash() {
    let data: Vec<u8> = b"0123456789abcdef".iter().copied().cycle().take(10_000_000).collect();
    let expected = hex::encode(blake2::Blake2s256::digest(&data));
    assert_eq!(checksum_chunked(&data, DEFAULT_CHUNK_SIZE), expected);
}

#[test]
fn options_and_file_info_hold_their_fields() {
    let scan = ScanOptions { path: "data/file.bin".to_string() };
    assert_eq!(scan, ScanOptions { path: "data/file.bin".to_string() });
    let blobs = BlobsOptions { url: "http://store".to_string(), password: "pw".to_string() };
    assert_eq!(blobs.url, "http://store");
    let info = FileInfo { path: scan.path.clone(), size: 3, checksum: checksum_chunked(b"abc", 2) };
    assert_eq!(info.size, 3);
    assert_eq!(info.checksum, ABC_DIGEST);
}
