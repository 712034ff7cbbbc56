//! A 64-bit fingerprint for large media files.
//!
//! The fingerprint of a file is its byte length plus the little-endian
//! 64-bit words of the first and last 64 KiB windows, summed with
//! wraparound arithmetic, rendered as 16 lowercase hexadecimal digits.
//! The computation here is pure: a caller reads the file's length and its
//! two windows and hands them in as plain values.

use vstd::prelude::*;

mod hex;
mod words;

pub use hex::{hex_digit_char, is_lower_hex_digit, lemma_hex_well_formed, nibble, spec_hex64};
pub use words::{le_word, words_sum, WORD_MODULUS};

verus! {

/// Number of bytes in each of the two windows that the fingerprint reads.
pub const CHUNK_SIZE: u64 = 65536;

/// A portable classification of why a filesystem operation failed,
/// independent of any platform-specific error code.
#[derive(Clone, Copy, Debug, PartialEq, Eq, Structural)]
pub enum IoKind {
    NotFound,
    PermissionDenied,
    InvalidFilename,
    IsADirectory,
    InvalidInput,
    Interrupted,
    UnexpectedEof,
    Other,
}

/// The two failure modes of the fingerprint computation: an input smaller
/// than one window, or an underlying I/O failure with its kind preserved.
#[derive(Clone, Copy, Debug, PartialEq, Eq, Structural)]
pub enum Error {
    SmallSize,
    Io(IoKind),
}

/// The standard textual description of an I/O failure kind.
pub open spec fn spec_kind_message(k: IoKind) -> Seq<char> {
    match k {
        IoKind::NotFound => "entity not found"@,
        IoKind::PermissionDenied => "permission denied"@,
        IoKind::InvalidFilename => "invalid filename"@,
        IoKind::IsADirectory => "is a directory"@,
        IoKind::InvalidInput => "invalid input parameter"@,
        IoKind::Interrupted => "operation interrupted"@,
        IoKind::UnexpectedEof => "unexpected end of file"@,
        IoKind::Other => "other error"@,
    }
}

/// The human-readable message of an error: a fixed sentence for an
/// undersized input, the kind's standard description for an I/O failure.
pub open spec fn spec_message(e: Error) -> Seq<char> {
    match e {
        Error::SmallSize => "file size is less than 64 KB"@,
        Error::Io(k) => spec_kind_message(k),
    }
}

impl IoKind {
    /// The standard textual description of this failure kind.
    pub fn message(&self) -> (r: &'static str)
        ensures
            r@ == spec_kind_message(*self),
    {
        match self {
            IoKind::NotFound => "entity not found",
            IoKind::PermissionDenied => "permission denied",
            IoKind::InvalidFilename => "invalid filename",
            IoKind::IsADirectory => "is a directory",
            IoKind::InvalidInput => "invalid input parameter",
            IoKind::Interrupted => "operation interrupted",
            IoKind::UnexpectedEof => "unexpected end of file",
            IoKind::Other => "other error",
        }
    }
}

impl Error {
    /// The human-readable message of this error.
    pub fn message(&self) -> (r: &'static str)
        ensures
            r@ == spec_message(*self),
    {
        match self {
            Error::SmallSize => "file size is less than 64 KB",
            Error::Io(k) => k.message(),
        }
    }
}

/// The 64-bit fingerprint of a file: the file's byte length plus the
/// little-endian 64-bit words of its first and last windows, summed
/// modulo 2^64.
#[derive(Clone, Copy, Debug, PartialEq, Eq, Structural)]
pub struct MovieHash(pub u64);

/// The fingerprint of a file of byte length `size` whose first window is
/// `head` and whose last window is `tail`: the sum of the length and of
/// every word of both windows, reduced modulo 2^64.
pub open spec fn spec_fingerprint(size: u64, head: Seq<u8>, tail: Seq<u8>) -> u64 {
    ((size + words_sum(head, CHUNK_SIZE as int / 8) + words_sum(tail, CHUNK_SIZE as int / 8))
        % (WORD_MODULUS as int)) as u64
}

impl MovieHash {
    /// Wraps a known 64-bit value as a fingerprint.
    pub fn new(hash: u64) -> (r: Self)
        ensures
            r == MovieHash(hash),
    {
        MovieHash(hash)
    }

    /// The canonical textual form of the fingerprint: exactly 16 lowercase
    /// hexadecimal digits, zero-padded.
    pub fn as_hex(&self) -> (r: String)
        ensures
            r@ == spec_hex64(self.0),
            r@.len() == 16,
    {
        hex::to_hex64(self.0)
    }

    /// Computes the fingerprint of a file of byte length `size` from its
    /// two windows, each read from the file as `CHUNK_SIZE` bytes: `head`
    /// from offset 0 and `tail` from offset `size - CHUNK_SIZE`. A file
    /// shorter than one window is rejected; for a file of exactly one
    /// window the two reads coincide and the window counts twice.
    pub fn compute(size: u64, head: &Vec<u8>, tail: &Vec<u8>) -> (r: Result<Self, Error>)
        requires
            size >= CHUNK_SIZE ==> head@.len() == CHUNK_SIZE && tail@.len() == CHUNK_SIZE,
        ensures
            size < CHUNK_SIZE ==> r == Err::<MovieHash, Error>(Error::SmallSize),
            size >= CHUNK_SIZE ==> r == Ok::<MovieHash, Error>(
                MovieHash(spec_fingerprint(size, head@, tail@)),
            ),
    {
        if size < CHUNK_SIZE {
            return Err(Error::SmallSize);
        }
        let n: usize = (CHUNK_SIZE / 8) as usize;
        let h1 = words::add_words(size, head.as_slice(), n);
        let h2 = words::add_words(h1, tail.as_slice(), n);
        proof {
            let m: int = WORD_MODULUS as int;
            let sh: int = words_sum(head@, n as int) as int;
            let st: int = words_sum(tail@, n as int) as int;
            vstd::arithmetic::div_mod::lemma_add_mod_noop(size + sh, st, m);
            vstd::arithmetic::div_mod::lemma_add_mod_noop_right(h1 as int, st, m);
        }
        Ok(MovieHash(h2))
    }
}

/// The fingerprint is deterministic: it is a function of the file's byte
/// length and its two windows alone, so repeated computations over the
/// same unchanged data agree.
pub proof fn lemma_fingerprint_deterministic(
    size: u64,
    head: Seq<u8>,
    tail: Seq<u8>,
    h1: MovieHash,
    h2: MovieHash,
)
    requires
        h1.0 == spec_fingerprint(size, head, tail),
        h2.0 == spec_fingerprint(size, head, tail),
    ensures
        h1 == h2,
{
}

} // verus!
