use vstd::prelude::*;

verus! {

/// The first `n` elements of a vector as a mutable slice, by std's range
/// indexing of `Vec`, `&mut data[..n]`. The contract is not proved: it
/// claims that the slice holds those elements, that it still has `n`
/// elements when the caller is done with it, and that the vector then
/// holds what the slice holds, followed by its own elements from `n` on as
/// they were.
#[verifier::external_body]
pub(crate) fn front_mut<T>(data: &mut Vec<T>, n: usize) -> (front: &mut [T])
    requires
        n <= old(data)@.len(),
    ensures
        front@ == old(data)@.take(n as int),
        final(front)@.len() == n,
        final(data)@ == final(front)@ + old(data)@.skip(n as int),
{
    &mut data[..n]
}

} // verus!
