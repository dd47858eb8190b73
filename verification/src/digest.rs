//! Content fingerprints of audio files: streamed SHA-256, rendered as
//! lowercase hexadecimal.
use sha2::Digest;
use vstd::prelude::*;

use crate::text::{digit_char, digit_str};

verus! {

/// Size of the read buffer with which a file is streamed into the hasher.
pub const HASH_BUF_SIZE: usize = 64 * 1024;

/// A running `sha2::Sha256` hasher. Verus cannot take `sha2::Sha256` as a
/// declared type (it is an alias of a generic wrapper whose generics do not
/// match), so the hasher is held here, opaque to Verus.
#[verifier::external_body]
pub struct Sha256State {
    inner: sha2::Sha256,
}

/// The bytes that a SHA-256 hasher has absorbed since it was created.
pub uninterp spec fn absorbed(h: Sha256State) -> Seq<u8>;

/// The SHA-256 digest of a byte sequence.
pub uninterp spec fn sha256_digest(data: Seq<u8>) -> Seq<u8>;

/// `sha2::Sha256::new` (the `Digest::new` of the `digest` crate): a fresh
/// hasher that has absorbed nothing.
#[verifier::external_body]
fn sha256_new() -> (h: Sha256State)
    ensures
        absorbed(h) == Seq::<u8>::empty(),
{
    Sha256State { inner: sha2::Sha256::new() }
}

/// `Digest::update`: the hasher absorbs `data` after what it absorbed before;
/// the crate documents incremental updates as equivalent to hashing the
/// concatenated input.
#[verifier::external_body]
fn sha256_update(h: &mut Sha256State, data: &[u8])
    ensures
        absorbed(*final(h)) == absorbed(*old(h)) + data@,
{
    h.inner.update(data);
}

/// `Digest::finalize`: the 32-byte SHA-256 digest of everything absorbed.
#[verifier::external_body]
fn sha256_finalize(h: Sha256State) -> (d: Vec<u8>)
    ensures
        d@ == sha256_digest(absorbed(h)),
        d@.len() == 32,
{
    h.inner.finalize().to_vec()
}

/// Two lowercase hex digits per byte, high nibble first.
pub open spec fn hex_lower(bytes: Seq<u8>) -> Seq<char> {
    Seq::new(
        2 * bytes.len(),
        |i: int|
            if i % 2 == 0 {
                digit_char(bytes[i / 2] as int / 16)
            } else {
                digit_char(bytes[i / 2] as int % 16)
            },
    )
}

/// Renders bytes as lowercase hexadecimal, two digits per byte.
pub fn hex_lower_string(bytes: &[u8]) -> (s: String)
    ensures
        s@ == hex_lower(bytes@),
{
    let mut s = String::new();
    let mut i: usize = 0;
    while i < bytes.len()
        invariant
            i <= bytes.len(),
            s@ == hex_lower(bytes@.take(i as int)),
        decreases bytes.len() - i,
    {
        let b = bytes[i];
        let hi = digit_str(b / 16);
        let lo = digit_str(b % 16);
        s.append(hi);
        s.append(lo);
        assert(bytes@.take(i as int + 1) =~= bytes@.take(i as int).push(b));
        assert(s@ =~= hex_lower(bytes@.take(i as int + 1)));
        i = i + 1;
    }
    assert(bytes@.take(i as int) =~= bytes@);
    s
}

/// What one read of the file gave.
pub enum ReadOutcome {
    /// This many bytes were read into the buffer; zero means end of file.
    Bytes(usize),
    /// The read was interrupted before any byte was read.
    Interrupted,
    /// The read failed.
    Failed,
}

/// What the reading loop does next.
#[derive(Debug, Clone, Copy, PartialEq, Eq, Structural)]
pub enum HashStep {
    ReadMore,
    Finished,
    Abort,
}

/// Streams a file's content into SHA-256 and renders the fingerprint.
pub struct FileHasher {
    state: Sha256State,
}

impl View for FileHasher {
    type V = Seq<u8>;

    /// The content absorbed so far.
    closed spec fn view(&self) -> Seq<u8> {
        absorbed(self.state)
    }
}

impl FileHasher {
    /// A hasher that has absorbed nothing.
    pub fn new() -> (h: FileHasher)
        ensures
            h@ == Seq::<u8>::empty(),
    {
        FileHasher { state: sha256_new() }
    }

    /// Absorbs the next chunk of content.
    pub fn absorb(&mut self, chunk: &[u8])
        ensures
            final(self)@ == old(self)@ + chunk@,
    {
        sha256_update(&mut self.state, chunk);
    }

    /// Takes the outcome of one read into `buf`: read bytes are absorbed and
    /// reading goes on, end of file finishes, an interrupted read is retried
    /// and a failed read aborts.
    pub fn on_read(&mut self, buf: &[u8], outcome: ReadOutcome) -> (step: HashStep)
        requires
            outcome matches ReadOutcome::Bytes(n) ==> n <= buf@.len(),
        ensures
            match outcome {
                ReadOutcome::Bytes(n) => if n == 0 {
                    step == HashStep::Finished && final(self)@ == old(self)@
                } else {
                    step == HashStep::ReadMore && final(self)@ == old(self)@ + buf@.take(
                        n as int,
                    )
                },
                ReadOutcome::Interrupted => step == HashStep::ReadMore && final(self)@ == old(
                    self,
                )@,
                ReadOutcome::Failed => step == HashStep::Abort && final(self)@ == old(self)@,
            },
    {
        match outcome {
            ReadOutcome::Bytes(n) => {
                if n == 0 {
                    HashStep::Finished
                } else {
                    let (read, _) = buf.split_at(n);
                    self.absorb(read);
                    HashStep::ReadMore
                }
            },
            ReadOutcome::Interrupted => HashStep::ReadMore,
            ReadOutcome::Failed => HashStep::Abort,
        }
    }

    /// The fingerprint of everything absorbed: the SHA-256 digest as 64
    /// lowercase hex digits.
    pub fn finish(self) -> (hex: String)
        ensures
            hex@ == fingerprint(self@),
            hex@.len() == 64,
    {
        let d = sha256_finalize(self.state);
        hex_lower_string(d.as_slice())
    }
}

/// Digits of distinct values below 16 are distinct characters.
proof fn lemma_digit_char_one_to_one(x: int, y: int)
    requires
        0 <= x < 16,
        0 <= y < 16,
        digit_char(x) == digit_char(y),
    ensures
        x == y,
{
    assert(digit_char(x) as int == if x < 10 { 48 + x } else { 87 + x });
    assert(digit_char(y) as int == if y < 10 { 48 + y } else { 87 + y });
}

/// Hex notation loses nothing: bytes with the same hex text are the same
/// bytes.
pub proof fn law_hex_is_one_to_one(a: Seq<u8>, b: Seq<u8>)
    requires
        hex_lower(a) == hex_lower(b),
    ensures
        a == b,
{
    assert(hex_lower(a).len() == 2 * a.len());
    assert(hex_lower(b).len() == 2 * b.len());
    assert(a.len() == b.len());
    assert forall|i: int| 0 <= i < a.len() implies a[i] == b[i] by {
        let (x, y) = (a[i] as int, b[i] as int);
        assert((2 * i) / 2 == i && (2 * i) % 2 == 0);
        assert((2 * i + 1) / 2 == i && (2 * i + 1) % 2 == 1);
        assert(hex_lower(a)[2 * i] == digit_char(x / 16));
        assert(hex_lower(b)[2 * i] == digit_char(y / 16));
        assert(hex_lower(a)[2 * i + 1] == digit_char(x % 16));
        assert(hex_lower(b)[2 * i + 1] == digit_char(y % 16));
        lemma_digit_char_one_to_one(x / 16, y / 16);
        lemma_digit_char_one_to_one(x % 16, y % 16);
    }
    assert(a =~= b);
}

/// The fingerprint of a content: its SHA-256 digest in lowercase hex.
pub open spec fn fingerprint(content: Seq<u8>) -> Seq<char> {
    hex_lower(sha256_digest(content))
}

/// A fingerprint depends only on the content, not on how it was split into
/// chunks: a fresh hasher that absorbs `a` and then `b` finishes with the
/// same hex as a fresh hasher that absorbs `a + b` at once. The hashers are
/// given by the states that `FileHasher::new` and `FileHasher::absorb` leave.
pub proof fn law_fingerprint_ignores_chunking(
    fresh: FileHasher,
    after_a: FileHasher,
    after_a_then_b: FileHasher,
    after_whole: FileHasher,
    a: Seq<u8>,
    b: Seq<u8>,
)
    requires
        fresh@ == Seq::<u8>::empty(),
        after_a@ == fresh@ + a,
        after_a_then_b@ == after_a@ + b,
        after_whole@ == fresh@ + (a + b),
    ensures
        after_a_then_b@ == after_whole@,
        fingerprint(after_a_then_b@) == fingerprint(after_whole@),
{
    assert(after_a_then_b@ =~= after_whole@);
}

} // verus!
