//! Bounded storage from `heapless`, made visible to the verifier.
//!
//! The client runs without dynamic allocation: its identifier lives in a
//! fixed 32-byte string and its pending subscriptions in a fixed 32-entry
//! vector.  Both types come from `heapless`; this module declares them,
//! names their contents, and wraps the handful of methods the session logic
//! calls, each wrapper stating over those names what the `heapless` source
//! shows.

use vstd::prelude::*;
use vstd::string::StringSliceAdditionalSpecFns;

verus! {

#[verifier::external_type_specification]
#[verifier::external_body]
#[verifier::reject_recursive_types(T)]
pub struct ExVec<T, const N: usize>(heapless::Vec<T, N>);

#[verifier::external_type_specification]
#[verifier::external_body]
pub struct ExString<const N: usize>(heapless::String<N>);

/// The elements a pending-subscription vector holds, in storage order.
pub uninterp spec fn vec_elems(v: heapless::Vec<u16, 32>) -> Seq<u16>;

/// The UTF-8 bytes a bounded client-identifier string holds.
pub uninterp spec fn str_bytes(s: heapless::String<32>) -> Seq<u8>;

/// Relies on `heapless::Vec::new`: a freshly constructed vector is empty.
#[verifier::external_body]
pub(crate) fn vec_new() -> (v: heapless::Vec<u16, 32>)
    ensures
        vec_elems(v) == Seq::<u16>::empty(),
{
    heapless::Vec::new()
}

/// Relies on `heapless::Vec::push`: the item is appended exactly when the
/// vector is below its capacity of 32, and otherwise handed back with the
/// vector left unchanged.
#[verifier::external_body]
pub(crate) fn vec_push(v: &mut heapless::Vec<u16, 32>, item: u16) -> (r: Result<(), u16>)
    ensures
        r is Ok <==> vec_elems(*old(v)).len() < 32,
        r is Ok ==> vec_elems(*final(v)) == vec_elems(*old(v)).push(item),
        r matches Err(back) ==> *final(v) == *old(v) && back == item,
{
    v.push(item)
}

/// Relies on `heapless::Vec::clear`: it truncates the vector to length zero.
#[verifier::external_body]
pub(crate) fn vec_clear(v: &mut heapless::Vec<u16, 32>)
    ensures
        vec_elems(*final(v)) == Seq::<u16>::empty(),
{
    v.clear()
}

/// Relies on `heapless::Vec`'s deref to a slice of its `len` elements.
#[verifier::external_body]
pub(crate) fn vec_len(v: &heapless::Vec<u16, 32>) -> (n: usize)
    ensures
        n == vec_elems(*v).len(),
{
    v.len()
}

/// Relies on `heapless::Vec`'s deref to a slice of its elements in storage
/// order; indexing below the length cannot fail.
#[verifier::external_body]
pub(crate) fn vec_at(v: &heapless::Vec<u16, 32>, i: usize) -> (x: u16)
    requires
        i < vec_elems(*v).len(),
    ensures
        x == vec_elems(*v)[i as int],
{
    v[i]
}

/// Relies on `heapless::Vec::remove`: it takes out the element at the index
/// and shifts the later elements down; an index below the length cannot
/// panic.
#[verifier::external_body]
pub(crate) fn vec_remove_at(v: &mut heapless::Vec<u16, 32>, i: usize) -> (x: u16)
    requires
        i < vec_elems(*old(v)).len(),
    ensures
        x == vec_elems(*old(v))[i as int],
        vec_elems(*final(v)) == vec_elems(*old(v)).remove(i as int),
{
    v.remove(i)
}

/// Relies on `heapless::String::try_from(&str)` (through `push_str`): the
/// UTF-8 bytes are copied exactly when they fit in the 32-byte capacity,
/// else the conversion fails.
#[verifier::external_body]
pub(crate) fn str_to_bounded(s: &str) -> (r: Option<heapless::String<32>>)
    ensures
        r is Some <==> s.spec_bytes().len() <= 32,
        r matches Some(t) ==> str_bytes(t) == s.spec_bytes(),
{
    heapless::String::try_from(s).ok()
}

} // verus!
