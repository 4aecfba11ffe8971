//! The streaming checksum scan: bytes are fed in chunks, in order, and the scan ends
//! on the first empty chunk with the hex digest of everything fed.

use crate::digest_state::{absorbed_of, blake2s_of, Blake2sState};
use crate::hex_text::{encode_hex, hex_of, is_lower_hex_digit, lemma_hex_shape};
use vstd::prelude::*;
use vstd::slice::slice_subrange;

verus! {

/// Read-chunk size used when a source is scanned from storage (128 KiB).
pub const DEFAULT_CHUNK_SIZE: usize = 131072;

/// The checksum of a byte sequence: its BLAKE2s-256 digest in lowercase hex.
pub open spec fn checksum_of(data: Seq<u8>) -> Seq<char> {
    hex_of(blake2s_of(data))
}

/// Whether `text` has the published checksum shape: 64 lowercase hex digits.
pub open spec fn is_checksum_text(text: Seq<char>) -> bool {
    &&& text.len() == 64
    &&& forall|i: int| 0 <= i < text.len() ==> is_lower_hex_digit(#[trigger] text[i])
}

/// Why a scan ended without a checksum.
#[derive(Debug, PartialEq, Eq)]
pub enum ScanError {
    /// The source could not be opened; carries the underlying cause.
    SourceUnavailable(String),
    /// Reading failed after the source was opened; carries the underlying cause.
    ReadFailure(String),
}

/// What happened at the source since the previous step.
#[derive(Debug, PartialEq, Eq)]
pub enum ScanEvent {
    /// Opening the source failed.
    OpenFailed(String),
    /// The next bytes of the source; an empty chunk means the source is exhausted.
    Chunk(Vec<u8>),
    /// A read failed mid-stream.
    ReadFailed(String),
}

/// What the scan does after an event.
pub enum ScanStep {
    /// Read the next chunk and hand it to this scanner.
    Continue(ChecksumScanner),
    /// The source is exhausted: the checksum of all its bytes.
    Done(String),
    /// The scan is aborted; no checksum.
    Failed(ScanError),
}

/// The state of one scan: the hash of every byte fed so far.
pub struct ChecksumScanner {
    state: Blake2sState,
}

impl ChecksumScanner {
    /// The bytes fed to this scan so far, in order.
    pub closed spec fn consumed(self) -> Seq<u8> {
        absorbed_of(self.state)
    }

    /// A scan that has consumed nothing.
    pub fn new() -> (r: ChecksumScanner)
        ensures
            r.consumed() == Seq::<u8>::empty(),
    {
        ChecksumScanner { state: Blake2sState::fresh() }
    }

    /// Feeds the next chunk of the source.
    pub fn feed(&mut self, chunk: &[u8])
        ensures
            final(self).consumed() == old(self).consumed() + chunk@,
    {
        self.state.absorb(chunk);
    }

    /// Ends the scan: the checksum of every byte consumed.
    pub fn finish(self) -> (r: String)
        ensures
            r@ == checksum_of(self.consumed()),
            is_checksum_text(r@),
    {
        let digest = self.state.digest();
        proof {
            lemma_hex_shape(digest@);
        }
        encode_hex(digest.as_slice())
    }

    /// One step of a scan driven by the events of a source: a failure aborts with
    /// the matching error, an empty chunk finishes, any other chunk is consumed.
    pub fn step(self, event: ScanEvent) -> (r: ScanStep)
        ensures
            match event {
                ScanEvent::OpenFailed(cause) => r == ScanStep::Failed(
                    ScanError::SourceUnavailable(cause),
                ),
                ScanEvent::ReadFailed(cause) => r == ScanStep::Failed(ScanError::ReadFailure(cause)),
                ScanEvent::Chunk(bytes) => if bytes@.len() == 0 {
                    &&& r is Done
                    &&& r->Done_0@ == checksum_of(self.consumed())
                    &&& is_checksum_text(r->Done_0@)
                } else {
                    &&& r is Continue
                    &&& r->Continue_0.consumed() == self.consumed() + bytes@
                },
            },
    {
        match event {
            ScanEvent::OpenFailed(cause) => ScanStep::Failed(ScanError::SourceUnavailable(cause)),
            ScanEvent::ReadFailed(cause) => ScanStep::Failed(ScanError::ReadFailure(cause)),
            ScanEvent::Chunk(bytes) => {
                if bytes.len() == 0 {
                    ScanStep::Done(self.finish())
                } else {
                    let mut next = self;
                    next.feed(bytes.as_slice());
                    ScanStep::Continue(next)
                }
            },
        }
    }
}

/// The bytes of a list of chunks, laid end to end.
pub open spec fn joined(chunks: Seq<Vec<u8>>) -> Seq<u8> {
    chunks.map_values(|c: Vec<u8>| c@).flatten()
}

/// The checksum of `data`, fed to a scan in chunks of at most `chunk_size` bytes.
pub fn checksum_chunked(data: &[u8], chunk_size: usize) -> (r: String)
    requires
        chunk_size > 0,
    ensures
        r@ == checksum_of(data@),
        is_checksum_text(r@),
{
    let mut scanner = ChecksumScanner::new();
    let mut pos: usize = 0;
    while pos < data.len()
        invariant
            pos <= data@.len(),
            chunk_size > 0,
            scanner.consumed() == data@.subrange(0, pos as int),
        decreases data@.len() - pos,
    {
        let end: usize = if data.len() - pos < chunk_size {
            data.len()
        } else {
            pos + chunk_size
        };
        let chunk = slice_subrange(data, pos, end);
        scanner.feed(chunk);
        assert(data@.subrange(0, pos as int) + data@.subrange(pos as int, end as int)
            =~= data@.subrange(0, end as int));
        pos = end;
    }
    assert(data@.subrange(0, data@.len() as int) =~= data@);
    scanner.finish()
}

/// The checksum of the bytes of `chunks`, fed to a scan one chunk at a time.
pub fn checksum_chunks(chunks: &Vec<Vec<u8>>) -> (r: String)
    ensures
        r@ == checksum_of(joined(chunks@)),
        is_checksum_text(r@),
{
    let mut scanner = ChecksumScanner::new();
    let mut i: usize = 0;
    assert(chunks@.subrange(0, 0).map_values(|c: Vec<u8>| c@) =~= Seq::<Seq<u8>>::empty());
    while i < chunks.len()
        invariant
            i <= chunks@.len(),
            scanner.consumed() == joined(chunks@.subrange(0, i as int)),
        decreases chunks@.len() - i,
    {
        scanner.feed(chunks[i].as_slice());
        proof {
            let before = chunks@.subrange(0, i as int).map_values(|c: Vec<u8>| c@);
            assert(chunks@.subrange(0, i + 1).map_values(|c: Vec<u8>| c@) =~= before.push(
                chunks@[i as int]@,
            ));
            before.lemma_flatten_push(chunks@[i as int]@);
        }
        i = i + 1;
    }
    assert(chunks@.subrange(0, chunks@.len() as int) =~= chunks@);
    scanner.finish()
}

} // verus!
