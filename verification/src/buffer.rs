use vstd::prelude::*;

verus! {

// `bytes::Bytes` is the shared, reference-counted byte buffer that carries a
// buffered request body.  The type is opaque here; `buffer_bytes` names the
// sequence of bytes a buffer holds, and the wrappers below say how each call
// relates to that sequence.
#[verifier::external_type_specification]
#[verifier::external_body]
pub struct ExBytes(bytes::Bytes);

/// The bytes that a `bytes::Bytes` buffer holds, in order.
pub uninterp spec fn buffer_bytes(b: bytes::Bytes) -> Seq<u8>;

/// Relies on `<bytes::Bytes as Clone>::clone`: the clone shares the same
/// underlying memory, so it holds exactly the same bytes.
#[verifier::external_body]
pub(crate) fn buffer_clone(b: &bytes::Bytes) -> (r: bytes::Bytes)
    ensures
        buffer_bytes(r) == buffer_bytes(*b),
{
    b.clone()
}

/// Relies on `<bytes::Bytes as From<Vec<u8>>>::from`: the buffer takes
/// ownership of the vector's bytes unchanged.
#[verifier::external_body]
pub(crate) fn buffer_from_vec(v: Vec<u8>) -> (r: bytes::Bytes)
    ensures
        buffer_bytes(r) == v@,
{
    bytes::Bytes::from(v)
}

/// Relies on `<bytes::Bytes as AsRef<[u8]>>::as_ref`: the slice is exactly the
/// buffer's bytes; `to_vec` copies them out.
#[verifier::external_body]
pub(crate) fn buffer_to_vec(b: &bytes::Bytes) -> (r: Vec<u8>)
    ensures
        r@ == buffer_bytes(*b),
{
    b.as_ref().to_vec()
}

} // verus!
