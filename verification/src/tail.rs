//! The tail reader: which trailing bytes of a captured error stream are read,
//! and how they become diagnostic text.
//!
//! Reading takes two steps around one access to the sink. From the sink's
//! size, [`tail_len`] says how many bytes to read and [`tail_seek_offset`]
//! where to start; from what was read, [`last_utf8_content`] makes the text.
//! Neither step can fail: a diagnostic that cannot be produced must not hide
//! the failure it was meant to describe.

use vstd::prelude::*;
use vstd::slice::slice_subrange;
use vstd::utf8::{decode_utf8, valid_utf8};

verus! {

/// The most bytes of a captured error stream that a diagnostic is made from.
pub const MAX_STDERR_BYTES: u16 = 1024;

/// The character that stands in for bytes that are not UTF-8.
pub const REPLACEMENT_CHARACTER: char = '\u{FFFD}';

/// `n`, but no more than [`MAX_STDERR_BYTES`].
pub open spec fn spec_clamp(n: nat) -> nat {
    if n <= MAX_STDERR_BYTES {
        n
    } else {
        MAX_STDERR_BYTES as nat
    }
}

/// The number of trailing bytes to read from a sink of the given size.
/// A size that could not be determined counts as zero.
pub open spec fn spec_tail_len(size: Option<u64>) -> nat {
    match size {
        Some(n) => spec_clamp(n as nat),
        None => 0,
    }
}

/// The part of `content` that a diagnostic is made from: all of it, or its
/// last [`MAX_STDERR_BYTES`] bytes where it is longer.
pub open spec fn spec_tail(content: Seq<u8>) -> Seq<u8> {
    content.subrange(content.len() - spec_clamp(content.len()), content.len() as int)
}

/// What [`String::from_utf8_lossy`] makes of `bytes`.
pub uninterp spec fn lossy_utf8(bytes: Seq<u8>) -> Seq<char>;

/// The text that stands in for a tail that could not be read.
pub open spec fn spec_read_failed() -> Seq<char> {
    "<failed to read stderr>"@
}

/// The outcome of reading the tail, as the byte sequence that was read.
pub open spec fn spec_read(read: Option<Vec<u8>>) -> Option<Seq<u8>> {
    match read {
        Some(bytes) => Some(bytes@),
        None => None,
    }
}

/// The diagnostic made from the outcome of reading the tail: the tail of the
/// bytes decoded with replacement, or the placeholder where reading failed.
pub open spec fn spec_diagnostic(read: Option<Seq<u8>>) -> Seq<char> {
    match read {
        Some(bytes) => lossy_utf8(spec_tail(bytes)),
        None => spec_read_failed(),
    }
}

/// The number of trailing bytes to read from a sink of the given size, where
/// `None` is a size that could not be determined.
pub fn tail_len(size: Option<u64>) -> (len: u16)
    ensures
        len as nat == spec_tail_len(size),
        len <= MAX_STDERR_BYTES,
{
    match size {
        Some(n) => if n <= MAX_STDERR_BYTES as u64 {
            n as u16
        } else {
            MAX_STDERR_BYTES
        },
        None => 0,
    }
}

/// Where to start reading a tail of `len` bytes, as an offset from the end of
/// the sink.
pub fn tail_seek_offset(len: u16) -> (offset: i64)
    ensures
        offset == -(len as int),
{
    -(len as i64)
}

/// Calls [`String::from_utf8_lossy`] of std and takes the text it returns.
///
/// Claimed of it, after its documentation: the text is a function of the bytes
/// alone; bytes that are valid UTF-8 decode to the characters they encode; and
/// bytes that are not have their invalid sequences replaced by U+FFFD, so that
/// the text holds that character.
#[verifier::external_body]
fn utf8_lossy(bytes: &[u8]) -> (text: String)
    ensures
        text@ == lossy_utf8(bytes@),
        valid_utf8(bytes@) ==> text@ == decode_utf8(bytes@),
        !valid_utf8(bytes@) ==> text@.contains(REPLACEMENT_CHARACTER),
{
    String::from_utf8_lossy(bytes).into_owned()
}

/// The diagnostic text for the outcome of reading the tail of the error sink.
///
/// `read` holds the bytes that were read from the requested offset to the end
/// of the sink, or `None` where seeking or reading failed. Of the bytes, no
/// more than the last [`MAX_STDERR_BYTES`] are used, however many were handed
/// in. They are decoded as UTF-8 with every invalid sequence replaced, so any
/// bytes give a text; a failed read gives the placeholder
/// `<failed to read stderr>`.
pub fn last_utf8_content(read: &Option<Vec<u8>>) -> (text: String)
    ensures
        text@ == spec_diagnostic(spec_read(*read)),
        read matches Some(bytes) ==> if valid_utf8(spec_tail(bytes@)) {
            text@ == decode_utf8(spec_tail(bytes@))
        } else {
            text@.contains(REPLACEMENT_CHARACTER)
        },
{
    match read {
        Some(bytes) => {
            let n: usize = bytes.len();
            let start: usize = if n <= MAX_STDERR_BYTES as usize {
                0
            } else {
                n - MAX_STDERR_BYTES as usize
            };
            utf8_lossy(slice_subrange(bytes.as_slice(), start, n))
        },
        None => String::from_str("<failed to read stderr>"),
    }
}

/// The tail is a suffix of the content, of the clamped length: it never holds
/// more than [`MAX_STDERR_BYTES`] bytes, however long the content is, and it
/// is the whole content where that is short enough.
pub proof fn lemma_tail_is_bounded_suffix(content: Seq<u8>)
    ensures
        spec_tail(content).len() == spec_clamp(content.len()),
        spec_tail(content).len() <= MAX_STDERR_BYTES,
        content == content.subrange(0, content.len() - spec_tail(content).len()) + spec_tail(
            content,
        ),
        content.len() <= MAX_STDERR_BYTES ==> spec_tail(content) == content,
{
    let cut = content.len() - spec_clamp(content.len());
    assert(content =~= content.subrange(0, cut) + spec_tail(content));
    if content.len() <= MAX_STDERR_BYTES {
        assert(spec_tail(content) =~= content);
    }
}

/// Taking the tail twice is taking it once: a read that already holds only
/// the tail is used whole.
pub proof fn lemma_tail_of_tail(content: Seq<u8>)
    ensures
        spec_tail(spec_tail(content)) == spec_tail(content),
{
    lemma_tail_is_bounded_suffix(content);
    lemma_tail_is_bounded_suffix(spec_tail(content));
}

} // verus!
