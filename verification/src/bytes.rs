//! Conversions between byte slices, vectors and fixed-size arrays, and
//! random byte vectors.

use vstd::prelude::*;

verus! {

/// Copies the bytes of `arr` into a fresh vector.
pub fn array_as_vector(arr: &[u8]) -> (vector: Vec<u8>)
    ensures
        vector@ == arr@,
{
    let mut vector: Vec<u8> = Vec::new();
    let n: usize = arr.len();
    for i in 0..n
        invariant
            n == arr@.len(),
            vector@ == arr@.take(i as int),
    {
        vector.push(arr[i]);
        assert(arr@.take(i + 1) =~= arr@.take(i as int).push(arr@[i as int]));
    }
    assert(arr@.take(n as int) =~= arr@);
    vector
}

/// The first 64 bytes of `vector`, as an array.
pub fn vector_as_u8_64_array(vector: Vec<u8>) -> (arr: [u8; 64])
    requires
        vector@.len() >= 64,
    ensures
        arr@ == vector@.take(64),
{
    let mut arr: [u8; 64] = [0u8; 64];
    for i in 0..64
        invariant
            vector@.len() >= 64,
            arr@.len() == 64,
            forall|j: int| 0 <= j < i ==> arr@[j] == vector@[j],
    {
        arr[i] = vector[i];
    }
    assert(arr@ =~= vector@.take(64));
    arr
}

/// The first 32 bytes of `vector`, as an array.
pub fn vector_as_u8_32_array(vector: Vec<u8>) -> (arr: [u8; 32])
    requires
        vector@.len() >= 32,
    ensures
        arr@ == vector@.take(32),
{
    let mut arr: [u8; 32] = [0u8; 32];
    for i in 0..32
        invariant
            vector@.len() >= 32,
            arr@.len() == 32,
            forall|j: int| 0 <= j < i ==> arr@[j] == vector@[j],
    {
        arr[i] = vector[i];
    }
    assert(arr@ =~= vector@.take(32));
    arr
}

/// One byte drawn by `rand::random::<u8>()` from the thread-local generator.
/// Nothing is claimed of the value: it depends on the generator's state.
#[verifier::external_body]
pub(crate) fn random_byte() -> (b: u8) {
    rand::random::<u8>()
}

/// One `u32` drawn by `rand::random::<u32>()` from the thread-local generator.
/// Nothing is claimed of the value: it depends on the generator's state.
#[verifier::external_body]
pub(crate) fn random_u32() -> (x: u32) {
    rand::random::<u32>()
}

/// A vector of `size` random bytes.
pub fn generate_random_vec_u8(size: usize) -> (vec: Vec<u8>)
    ensures
        vec@.len() == size,
{
    let mut vec: Vec<u8> = Vec::with_capacity(size);
    for _i in 0..size
        invariant
            vec@.len() == _i,
    {
        vec.push(random_byte());
    }
    vec
}

/// Copying a 64-byte array into a vector (`array_as_vector`) and back
/// (`vector_as_u8_64_array`) gives the array back.
pub proof fn lemma_array_vector_round_trip_64(arr: [u8; 64], vector: Seq<u8>, back: [u8; 64])
    requires
        vector == arr@,
        back@ == vector.take(64),
    ensures
        back == arr,
{
    assert(back@ =~= arr@);
    assert(back =~= arr);
}

/// Copying a 32-byte array into a vector (`array_as_vector`) and back
/// (`vector_as_u8_32_array`) gives the array back; so does making a key from
/// 32 bytes and asking it for its bytes.
pub proof fn lemma_array_vector_round_trip_32(arr: [u8; 32], vector: Seq<u8>, back: [u8; 32])
    requires
        vector == arr@,
        back@ == vector.take(32),
    ensures
        back == arr,
{
    assert(back@ =~= arr@);
    assert(back =~= arr);
}

} // verus!
