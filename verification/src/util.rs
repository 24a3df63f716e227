use vstd::prelude::*;

verus! {

/// A number `i * s + v` with `0 <= v < s` determines both `i` and `v`.
pub(crate) proof fn lemma_digits_unique(i1: int, v1: int, i2: int, v2: int, s: int)
    requires
        0 <= v1 < s,
        0 <= v2 < s,
        i1 * s + v1 == i2 * s + v2,
    ensures
        i1 == i2,
        v1 == v2,
{
    vstd::arithmetic::div_mod::lemma_fundamental_div_mod_converse(i1 * s + v1, s, i1, v1);
    vstd::arithmetic::div_mod::lemma_fundamental_div_mod_converse(i2 * s + v2, s, i2, v2);
}

/// A position `v < n` scaled by a stride `s` stays at least one stride below `n * s`.
pub(crate) proof fn lemma_scaled_below(v: int, n: int, s: int)
    requires
        0 <= v < n,
        s >= 0,
    ensures
        0 <= v * s,
        v * s + s <= n * s,
{
    assert(0 <= v * s && v * s + s <= n * s) by (nonlinear_arith)
        requires
            0 <= v < n,
            s >= 0,
    ;
}

/// Scaling by a positive stride is one to one.
pub(crate) proof fn lemma_scale_injective(a: int, b: int, s: int)
    requires
        s > 0,
        a * s == b * s,
    ensures
        a == b,
{
    assert(a == b) by (nonlinear_arith)
        requires
            s > 0,
            a * s == b * s,
    ;
}

/// Views `slice` as an array of its own length.
///
/// Calls `<&[T; N] as TryFrom<&[T]>>::try_from`, which succeeds exactly when the slice has `N` elements; the contract claims that the array holds the slice's elements in order.
#[verifier::external_body]
pub(crate) fn slice_as_array<T, const N: usize>(slice: &[T]) -> (array: &[T; N])
    requires
        slice@.len() == N,
    ensures
        array@ == slice@,
{
    slice.try_into().unwrap()
}

/// Views `slice` as a mutable array of its own length.
///
/// Calls `<&mut [T; N] as TryFrom<&mut [T]>>::try_from`, which succeeds exactly when the slice has `N` elements and hands back a reference to the same memory; the contract claims that the array holds the slice's elements, and that the slice holds in the end what the array holds in the end.
#[verifier::external_body]
pub(crate) fn slice_as_array_mut<T, const N: usize>(slice: &mut [T]) -> (array: &mut [T; N])
    requires
        old(slice)@.len() == N,
    ensures
        array@ == old(slice)@,
        final(slice)@ == final(array)@,
{
    slice.try_into().unwrap()
}

/// The elements of `vector` as one mutable slice.
///
/// Calls `Vec::as_mut_slice`, which hands back the vector's own storage and has no way to panic; the contract claims that the slice holds the vector's elements, that the vector holds in the end what the slice holds in the end (a slice cannot change its length, so neither does the vector), and that the call does not unwind.
#[verifier::external_body]
pub(crate) fn vec_as_mut_slice<T>(vector: &mut Vec<T>) -> (slice: &mut [T])
    ensures
        slice@ == old(vector)@,
        final(vector)@ == final(slice)@,
        final(vector)@.len() == old(vector)@.len(),
    no_unwind
{
    vector.as_mut_slice()
}

/// Splits a mutable slice in two at `mid`.
///
/// Calls `<[T]>::split_at_mut`, which hands back the two parts of the same memory, before and from `mid`; the contract claims the parts' elements, that the slice holds in the end what the two parts hold in the end, and that neither part changes its length (no mutable slice can).
#[verifier::external_body]
pub(crate) fn split_slice_mut<'a, T>(slice: &'a mut [T], mid: usize) -> (parts: (&'a mut [T], &'a mut [T]))
    requires
        mid <= old(slice)@.len(),
    ensures
        parts.0@ == old(slice)@.subrange(0, mid as int),
        parts.1@ == old(slice)@.subrange(mid as int, old(slice)@.len() as int),
        final(slice)@ == final(parts.0)@ + final(parts.1)@,
        final(parts.0)@.len() == parts.0@.len(),
        final(parts.1)@.len() == parts.1@.len(),
{
    slice.split_at_mut(mid)
}

/// Splits the first `count * N` elements of `slice` into `count` mutable arrays of `N`
/// consecutive elements, in order; the elements after them are left out.
pub(crate) fn split_arrays_mut<'a, T, const N: usize>(slice: &'a mut [T], count: usize) -> (chunks: Vec<
    &'a mut [T; N],
>)
    requires
        N > 0,
        count * N <= old(slice)@.len(),
    ensures
        chunks.len() == count,
        final(slice)@.len() == old(slice)@.len(),
        forall|i: int|
            0 <= i < chunks.len() ==> #[trigger] chunks@[i]@ == old(slice)@.subrange(i * N, i * N + N),
        forall|i: int, j: int|
            #![trigger final(chunks@[i])@[j]]
            0 <= i < chunks.len() && 0 <= j < N ==> final(slice)@[i * N + j] == final(chunks@[i])@[j],
        forall|k: int|
            count * N <= k < old(slice)@.len() ==> final(slice)@[k] == old(slice)@[k],
{
    let ghost fin: Seq<T> = final(slice)@;
    let mut chunks: Vec<&'a mut [T; N]> = Vec::new();
    let mut rest: &'a mut [T] = slice;
    let ghost total = old(slice)@.len();
    assert(chunks.len() == 0);
    while chunks.len() < count
        invariant
            N > 0,
            total == old(slice)@.len(),
            count * N <= total,
            chunks.len() <= count,
            rest@.len() + chunks.len() * N == total,
            rest@ == old(slice)@.subrange(chunks.len() * N, total as int),
            forall|i: int|
                0 <= i < chunks.len() ==> #[trigger] chunks@[i]@ == old(slice)@.subrange(
                    i * N,
                    i * N + N,
                ),
            fin.len() == chunks.len() * N + final(rest)@.len(),
            fin.subrange(chunks.len() * N, fin.len() as int) == final(rest)@,
            forall|i: int, j: int|
                #![trigger final(chunks@[i])@[j]]
                0 <= i < chunks.len() && 0 <= j < N ==> fin[i * N + j] == final(chunks@[i])@[j],
        decreases count - chunks.len(),
    {
        proof {
            assert(chunks.len() * N + N == (chunks.len() + 1) * N) by (nonlinear_arith);
            assert((chunks.len() + 1) * N <= count * N) by (nonlinear_arith)
                requires
                    chunks.len() + 1 <= count,
                    N > 0,
            ;
        }
        let ghost k = chunks.len() as int;
        let ghost fr = final(rest)@;
        let (head, tail) = rest.split_at_mut(N);
        let array: &'a mut [T; N] = slice_as_array_mut(head);
        proof {
            assert(fr == final(array)@ + final(tail)@);
            assert forall|j: int| 0 <= j < N implies fin[k * N + j] == final(array)@[j] by {
                assert(fin.subrange(k * N, fin.len() as int)[j] == fr[j]);
            }
            assert(final(tail)@.len() == fin.len() - k * N - N);
            assert forall|m: int| 0 <= m < final(tail)@.len() implies fin.subrange(
                k * N + N,
                fin.len() as int,
            )[m] == final(tail)@[m] by {
                assert(fr[N + m] == final(tail)@[m]);
                assert(fin.subrange(k * N, fin.len() as int)[N + m] == fin[k * N + N + m]);
            }
            assert(fin.subrange(k * N + N, fin.len() as int) =~= final(tail)@);
        }
        chunks.push(array);
        rest = tail;
    }
    proof {
        let k = chunks.len() as int;
        assert(final(rest)@ == rest@);
        assert forall|i: int| k * N <= i < total implies fin[i] == old(slice)@[i] by {
            assert(fin.subrange(k * N, fin.len() as int)[i - k * N] == fin[i]);
        }
    }
    chunks
}

} // verus!
