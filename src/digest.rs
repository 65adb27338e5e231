use crate::error::Error;
use vstd::prelude::*;

verus! {

#[verifier::external_type_specification]
#[verifier::external_body]
pub struct ExHasher(blake3::Hasher);

/// The bytes that a hasher has taken in so far.
pub uninterp spec fn absorbed(h: blake3::Hasher) -> Seq<u8>;

/// The 32-byte BLAKE3 digest of `input`.
pub uninterp spec fn blake3_of(input: Seq<u8>) -> Seq<u8>;

/// How many bytes of a file are read at a time while digesting it.
pub const WIDE_BUFFER_LEN: usize = 65536;

/// The lowercase hexadecimal digit of a value below sixteen.
pub open spec fn hex_digit(v: u8) -> char {
    seq!['0', '1', '2', '3', '4', '5', '6', '7', '8', '9', 'a', 'b', 'c', 'd', 'e', 'f'][v as int]
}

/// Two lowercase hexadecimal digits for each byte, high nibble first.
pub open spec fn hex_of(b: Seq<u8>) -> Seq<char>
    decreases b.len(),
{
    if b.len() == 0 {
        seq![]
    } else {
        hex_of(b.drop_last()) + seq![hex_digit(b.last() / 16), hex_digit(b.last() % 16)]
    }
}

/// Hex notation doubles the length.
pub proof fn lemma_hex_len(b: Seq<u8>)
    ensures
        hex_of(b).len() == 2 * b.len(),
    decreases b.len(),
{
    if b.len() > 0 {
        lemma_hex_len(b.drop_last());
    }
}

/// The identifier of a content: the hexadecimal BLAKE3 digest of its bytes.
pub open spec fn content_digest(content: Seq<u8>) -> Seq<char> {
    hex_of(blake3_of(content))
}

/// Relies on blake3::Hasher::new: a hasher that has taken in nothing.
#[verifier::external_body]
fn fresh_hasher() -> (h: blake3::Hasher)
    ensures
        absorbed(h) == Seq::<u8>::empty(),
{
    blake3::Hasher::new()
}

/// Relies on blake3::Hasher::update: the bytes are added after those taken in before.
#[verifier::external_body]
fn absorb(h: &mut blake3::Hasher, bytes: &[u8])
    ensures
        absorbed(*final(h)) == absorbed(*old(h)) + bytes@,
{
    h.update(bytes);
}

/// Relies on blake3::Hasher::finalize and Hash::as_bytes: the 32-byte digest
/// of everything taken in; the hasher is left as it was.
#[verifier::external_body]
fn finalize(h: &blake3::Hasher) -> (r: Vec<u8>)
    ensures
        r@ == blake3_of(absorbed(*h)),
        r@.len() == 32,
{
    h.finalize().as_bytes().to_vec()
}

/// Relies on hex::encode: two lowercase hexadecimal digits for each byte.
#[verifier::external_body]
fn to_hex(b: &Vec<u8>) -> (r: String)
    ensures
        r@ == hex_of(b@),
{
    hex::encode(b)
}

/// What one read of a file gave.
#[derive(Debug, Clone, PartialEq, Eq)]
pub enum ReadOutcome {
    /// The bytes read; none at the end of the file.
    Bytes(Vec<u8>),
    /// The read was interrupted before it read anything and may be tried again.
    Interrupted,
    /// The read failed.
    Failed(String),
}

/// What the digest of a file asks for after a read.
#[derive(Debug, Clone, PartialEq, Eq)]
pub enum DigestStep {
    /// Read on.
    Continue,
    /// The whole file was read: its identifier and its size.
    Done { digest: String, size: u64 },
    /// Reading the file failed.
    Failed(Error),
}

/// The bytes read out of a sequence of reads, in order.
pub open spec fn bytes_read(outcomes: Seq<ReadOutcome>) -> Seq<u8>
    decreases outcomes.len(),
{
    if outcomes.len() == 0 {
        seq![]
    } else {
        bytes_read(outcomes.drop_last()) + match outcomes.last() {
            ReadOutcome::Bytes(b) => b@,
            _ => seq![],
        }
    }
}

/// However the reads of a file were split, and however often they were
/// interrupted, two digests fed the same bytes in the same order report the
/// same identifier and the same size.
pub proof fn lemma_digest_determinism(a: Seq<ReadOutcome>, b: Seq<ReadOutcome>)
    requires
        bytes_read(a) == bytes_read(b),
    ensures
        content_digest(bytes_read(a)) == content_digest(bytes_read(b)),
        bytes_read(a).len() == bytes_read(b).len(),
{
}

/// A streaming digest of a file, fed one read at a time.
pub struct ContentDigester {
    hasher: blake3::Hasher,
    size: u64,
}

impl ContentDigester {
    /// The bytes fed so far.
    pub closed spec fn input(&self) -> Seq<u8> {
        absorbed(self.hasher)
    }

    pub closed spec fn wf(&self) -> bool {
        self.size == absorbed(self.hasher).len()
    }

    /// A digest that has been fed nothing.
    pub fn new() -> (r: ContentDigester)
        ensures
            r.wf(),
            r.input() == Seq::<u8>::empty(),
            r.input().len() <= u64::MAX,
    {
        ContentDigester { hasher: fresh_hasher(), size: 0 }
    }

    /// How many bytes were fed so far.
    pub fn byte_count(&self) -> (r: u64)
        requires
            self.wf(),
        ensures
            r == self.input().len(),
    {
        self.size
    }

    /// Takes the outcome of one read. Bytes are digested and the count goes
    /// up; an interrupted read is tried again; a read of nothing ends the file
    /// and gives the identifier of all bytes fed with their count; any other
    /// failure ends the digest with an I/O error.
    pub fn feed(&mut self, outcome: ReadOutcome) -> (r: DigestStep)
        requires
            old(self).wf(),
            outcome matches ReadOutcome::Bytes(b) ==> (b@.len() > 0 ==> old(self).input().len()
                + b@.len() <= u64::MAX),
        ensures
            final(self).wf(),
            final(self).input().len() <= u64::MAX,
            final(self).input() == old(self).input() + match outcome {
                ReadOutcome::Bytes(b) => b@,
                _ => seq![],
            },
            match outcome {
                ReadOutcome::Bytes(b) => if b@.len() == 0 {
                    r matches DigestStep::Done { digest, size } && digest@ == content_digest(
                        old(self).input(),
                    ) && digest@.len() == 64 && size == old(self).input().len()
                } else {
                    r is Continue
                },
                ReadOutcome::Interrupted => r is Continue,
                ReadOutcome::Failed(m) => r == DigestStep::Failed(Error::Io(m)),
            },
    {
        match outcome {
            ReadOutcome::Bytes(b) => {
                if b.len() == 0 {
                    proof {
                        assert(old(self).input() + b@ =~= old(self).input());
                    }
                    let bytes = finalize(&self.hasher);
                    proof {
                        lemma_hex_len(bytes@);
                    }
                    let digest = to_hex(&bytes);
                    DigestStep::Done { digest, size: self.size }
                } else {
                    absorb(&mut self.hasher, b.as_slice());
                    self.size = self.size + b.len() as u64;
                    DigestStep::Continue
                }
            },
            ReadOutcome::Interrupted => {
                proof {
                    assert(old(self).input() + seq![] =~= old(self).input());
                }
                DigestStep::Continue
            },
            ReadOutcome::Failed(m) => {
                proof {
                    assert(old(self).input() + seq![] =~= old(self).input());
                }
                DigestStep::Failed(Error::Io(m))
            },
        }
    }
}

} // verus!
