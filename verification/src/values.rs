//! The values that a configuration response carries, held in a
//! `heapless::Vec` of fixed capacity.
use vstd::prelude::*;

verus! {

#[verifier::external_type_specification]
#[verifier::external_body]
#[verifier::reject_recursive_types(T)]
pub struct ExHeaplessVec<T, const N: usize>(heapless::Vec<T, N>);

/// Values of a configuration response, at most `PARAMS_PER_MESSAGE` of them.
pub type NewValues = heapless::Vec<u16, 32>;

/// The values that a `NewValues` holds, in order.
pub uninterp spec fn values_view(v: heapless::Vec<u16, 32>) -> Seq<u16>;

/// `heapless::Vec::new`: an empty vector.
#[verifier::external_body]
pub fn values_new() -> (r: NewValues)
    ensures values_view(r) == Seq::<u16>::empty(),
{
    heapless::Vec::new()
}

/// `heapless::Vec::push`: appends the value when fewer than 32 are held,
/// and hands it back otherwise, leaving the vector as it was.
#[verifier::external_body]
pub fn values_push(v: &mut NewValues, x: u16) -> (r: Result<(), u16>)
    ensures
        r is Ok <==> values_view(*old(v)).len() < 32,
        r is Ok ==> values_view(*final(v)) == values_view(*old(v)).push(x),
        r is Err ==> r->Err_0 == x && values_view(*final(v)) == values_view(*old(v)),
{
    v.push(x)
}

/// `heapless::Vec::len` (through its slice): the number of values held,
/// never more than the capacity of 32.
#[verifier::external_body]
pub fn values_len(v: &NewValues) -> (r: usize)
    ensures
        r == values_view(*v).len(),
        r <= 32,
{
    v.len()
}

/// Indexing a `heapless::Vec` (through its slice): the value at `i`.
#[verifier::external_body]
pub fn values_get(v: &NewValues, i: usize) -> (r: u16)
    requires i < values_view(*v).len(),
    ensures r == values_view(*v)[i as int],
{
    v[i]
}

/// A new vector with the same values.
pub fn values_copy(v: &NewValues) -> (r: NewValues)
    ensures values_view(r) == values_view(*v),
{
    let mut r = values_new();
    let n = values_len(v);
    let mut i: usize = 0;
    while i < n
        invariant
            0 <= i <= n,
            n == values_view(*v).len(),
            n <= 32,
            values_view(r) == values_view(*v).take(i as int),
        decreases n - i,
    {
        let x = values_get(v, i);
        let _ = values_push(&mut r, x);
        i += 1;
        proof { assert(values_view(r) =~= values_view(*v).take(i as int)); }
    }
    proof { assert(values_view(*v).take(i as int) =~= values_view(*v)); }
    r
}

} // verus!
