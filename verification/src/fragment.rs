//! The bytes of one payload, as the decoder consumes them from the front.

use arrow::buffer::Buffer;
use vstd::prelude::*;

verus! {

#[verifier::external_type_specification]
#[verifier::external_body]
pub struct ExBuffer(Buffer);

/// The bytes that a buffer holds, first to last.
pub uninterp spec fn buffer_bytes(buffer: Buffer) -> Seq<u8>;

/// `arrow::buffer::Buffer::from_slice_ref` on a byte slice: the new buffer
/// holds a copy of the slice.
#[verifier::external_body]
fn buffer_from_slice(bytes: &[u8]) -> (buffer: Buffer)
    ensures
        buffer_bytes(buffer) == bytes@,
{
    Buffer::from_slice_ref(bytes)
}

/// `arrow::buffer::Buffer::len`: the number of bytes that the buffer holds.
#[verifier::external_body]
fn buffer_len(buffer: &Buffer) -> (len: usize)
    ensures
        len == buffer_bytes(*buffer).len(),
{
    buffer.len()
}

/// `arrow::buffer::Buffer::as_slice`, copied: the bytes that the buffer holds.
#[verifier::external_body]
fn buffer_to_vec(buffer: &Buffer) -> (bytes: Vec<u8>)
    ensures
        bytes@ == buffer_bytes(*buffer),
{
    buffer.as_slice().to_vec()
}

/// The part of a payload's record that no decoder has consumed yet. The
/// driver of a session lets the stream decoder take bytes from the front of
/// `buffer`.
pub struct Fragment {
    pub buffer: Buffer,
}

impl View for Fragment {
    type V = Seq<u8>;

    closed spec fn view(&self) -> Seq<u8> {
        buffer_bytes(self.buffer)
    }
}

impl Fragment {
    /// A fragment that holds a copy of `bytes`.
    pub fn new(bytes: &[u8]) -> (fragment: Fragment)
        ensures
            fragment@ == bytes@,
    {
        Fragment { buffer: buffer_from_slice(bytes) }
    }

    /// A fragment without bytes.
    pub fn empty() -> (fragment: Fragment)
        ensures
            fragment@ == Seq::<u8>::empty(),
    {
        let bytes: Vec<u8> = Vec::new();
        Fragment { buffer: buffer_from_slice(bytes.as_slice()) }
    }

    /// The number of bytes left.
    pub fn len(&self) -> (len: usize)
        ensures
            len == self@.len(),
    {
        buffer_len(&self.buffer)
    }

    /// Whether every byte has been consumed.
    pub fn is_empty(&self) -> (empty: bool)
        ensures
            empty == (self@.len() == 0),
    {
        buffer_len(&self.buffer) == 0
    }

    /// A copy of the bytes left.
    pub fn to_vec(&self) -> (bytes: Vec<u8>)
        ensures
            bytes@ == self@,
    {
        buffer_to_vec(&self.buffer)
    }
}

/// The bytes that a decoder took from the front of `whole` when it left
/// as many bytes as `rest` holds; all of `whole` where `rest` is the longer.
pub open spec fn taken_from(whole: Seq<u8>, rest: Seq<u8>) -> Seq<u8> {
    if rest.len() <= whole.len() {
        whole.take(whole.len() - rest.len())
    } else {
        whole
    }
}

/// A decoder that leaves nothing has taken everything, and one that leaves
/// as much as it was given has taken nothing.
pub proof fn lemma_taken_all_or_nothing(whole: Seq<u8>)
    ensures
        taken_from(whole, Seq::empty()) == whole,
        taken_from(whole, whole) == Seq::<u8>::empty(),
{
    assert(taken_from(whole, Seq::empty()) =~= whole);
    assert(taken_from(whole, whole) =~= Seq::<u8>::empty());
}

} // verus!
