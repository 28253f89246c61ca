//! Values of the entity table: raw bytes, stored uncompressed.

use vstd::prelude::*;
use vstd::slice::slice_to_vec;

verus! {

/// A value of the entity table.
#[derive(Debug, Clone, PartialEq, Eq, PartialOrd, Ord)]
pub struct EntityValue(pub Vec<u8>);

impl View for EntityValue {
    type V = Seq<u8>;

    open spec fn view(&self) -> Seq<u8> {
        self.0@
    }
}

/// The bytes under which a value is stored: the value's own bytes, since
/// values are not compressed.
pub open spec fn value_compression(value: Seq<u8>) -> Seq<u8> {
    value
}

/// The value read back from stored bytes: the bytes themselves.
pub open spec fn value_decompression(bytes: Seq<u8>) -> Seq<u8> {
    bytes
}

/// `bytes::BufMut::put_slice` on a `Vec<u8>`, which extends the vector by
/// the slice (its source calls `Vec::extend_from_slice`). The contract claims
/// that the buffer afterwards is the old buffer followed by `src`.
#[verifier::external_body]
fn buf_put_slice(buf: &mut Vec<u8>, src: &[u8])
    requires
        old(buf)@.len() + src@.len() <= isize::MAX,
    ensures
        final(buf)@ == old(buf)@ + src@,
{
    bytes::BufMut::put_slice(buf, src)
}

impl EntityValue {
    /// The value's bytes, borrowed.
    pub fn as_ref(&self) -> (bytes: &[u8])
        ensures
            bytes@ == self@,
    {
        self.0.as_slice()
    }

    /// The value's bytes, which are stored as they are: there is always an
    /// uncompressed form.
    pub fn uncompressable_ref(&self) -> (bytes: Option<&[u8]>)
        ensures
            bytes is Some,
            bytes->0@ == value_compression(self@),
    {
        Some(self.0.as_slice())
    }

    /// The bytes under which the value is stored.
    pub fn compress(self) -> (compressed: Vec<u8>)
        ensures
            compressed@ == value_compression(self@),
    {
        self.0
    }

    /// Appends the stored form of the value to `buf`.
    pub fn compress_to_buf(&self, buf: &mut Vec<u8>)
        requires
            old(buf)@.len() + self@.len() <= isize::MAX,
        ensures
            final(buf)@ == old(buf)@ + value_compression(self@),
    {
        buf_put_slice(buf, self.0.as_slice());
    }

    /// The value stored under `value`. Every byte string is a value, so
    /// this cannot fail.
    pub fn decompress(value: &[u8]) -> (decompressed: EntityValue)
        ensures
            decompressed@ == value_decompression(value@),
    {
        EntityValue(slice_to_vec(value))
    }

    /// The value stored under `value`, taking the bytes by value.
    pub fn decompress_owned(value: Vec<u8>) -> (decompressed: EntityValue)
        ensures
            decompressed@ == value_decompression(value@),
    {
        EntityValue(value)
    }
}

/// Decompressing the stored form of a value gives the value back.
pub proof fn lemma_value_roundtrip(value: EntityValue)
    ensures
        value_decompression(value_compression(value@)) == value@,
{
}

} // verus!
