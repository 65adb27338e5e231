use wasmcloud::digest::{ContentDigester, DigestStep, ReadOutcome, WIDE_BUFFER_LEN};
use wasmcloud::Error;

const EMPTY_DIGEST: &str = "af1349b9f5f9a1a6a0404dea36dcc9499bcb25c9adc112b7cc9a93cae41f3262";
const ABC_DIGEST: &str = "6437b3ac38465133ffb63b75273a8db548c558465d79db03fd359c6cd5bd9d85";

fn digest_of(reads: Vec<ReadOutcome>) -> DigestStep {
    let mut d = ContentDigester::new();
    for r in reads {
        match d.feed(r) {
            DigestStep::Continue => {}
            other => return other,
        }
    }
    d.feed(ReadOutcome::Bytes(Vec::new()))
}

#[test]
fn empty_file_digest() {
    assert_eq!(
        digest_of(vec![]),
        DigestStep::Done { digest: EMPTY_DIGEST.to_string(), size: 0 }
    );
}

#[test]
fn known_digest_of_abc() {
    assert_eq!(
        digest_of(vec![ReadOutcome::Bytes(b"abc".to_vec())]),
        DigestStep::Done { digest: ABC_DIGEST.to_string(), size: 3 }
    );
}

#[test]
fn split_and_interrupted_reads_give_same_digest() {
    let whole = digest_of(vec![ReadOutcome::Bytes(b"abc".to_vec())]);
    let split = digest_of(vec![
        ReadOutcome::Bytes(b"a".to_vec()),
        ReadOutcome::Interrupted,
        ReadOutcome::Bytes(b"bc".to_vec()),
        ReadOutcome::Interrupted,
    ]);
    assert_eq!(whole, split);
}

#[test]
fn digest_is_deterministic_for_large_content() {
    let content: Vec<u8> = (0..(2 * WIDE_BUFFER_LEN + 3)).map(|i| (i % 253) as u8).collect();
    let chunks: Vec<ReadOutcome> =
        content.chunks(WIDE_BUFFER_LEN).map(|c| ReadOutcome::Bytes(c.to_vec())).collect();
    let first = digest_of(chunks.clone());
    let second = digest_of(chunks);
    let odd: Vec<ReadOutcome> = content.chunks(1000).map(|c| ReadOutcome::Bytes(c.to_vec())).collect();
    let third = digest_of(odd);
    assert_eq!(first, second);
    assert_eq!(first, third);
    match first {
        DigestStep::Done { digest, size } => {
            assert_eq!(size, content.len() as u64);
            assert_eq!(digest.len(), 64);
            assert_eq!(digest, blake3::hash(&content).to_hex().to_string());
        }
        other => panic!("unexpected {:?}", other),
    }
}

#[test]
fn failed_read_is_io_error() {
    let mut d = ContentDigester::new();
    assert_eq!(d.feed(ReadOutcome::Bytes(vec![1, 2])), DigestStep::Continue);
    assert_eq!(d.byte_count(), 2);
    assert_eq!(d.feed(ReadOutcome::Interrupted), DigestStep::Continue);
    assert_eq!(d.byte_count(), 2);
    assert_eq!(
        d.feed(ReadOutcome::Failed("EIO".to_string())),
        DigestStep::Failed(Error::Io("EIO".to_string()))
    );
}
