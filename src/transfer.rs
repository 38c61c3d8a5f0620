//! Host staging of 32-bit elements as the little-endian bytes that a copy
//! between host and device moves.
use vstd::prelude::*;
use crate::status::{misuse, usage_error, CudaError};

verus! {

/// The bytes that hold one element on the device, lowest first.
pub open spec fn word_le_bytes(x: u32) -> Seq<u8> {
    seq![(x & 0xff) as u8, ((x >> 8u32) & 0xff) as u8, ((x >> 16u32) & 0xff) as u8, (x >> 24u32) as u8]
}

/// The element that four bytes hold, lowest first.
pub open spec fn word_from_le(b0: u8, b1: u8, b2: u8, b3: u8) -> u32 {
    (b0 as u32) | ((b1 as u32) << 8u32) | ((b2 as u32) << 16u32) | ((b3 as u32) << 24u32)
}

/// The bytes of a sequence of elements, element after element.
pub open spec fn encoded(words: Seq<u32>) -> Seq<u8> {
    Seq::new((4 * words.len()) as nat, |j: int| word_le_bytes(words[j / 4])[j % 4])
}

/// The elements that a sequence of bytes holds, four bytes each.
pub open spec fn decoded(bytes: Seq<u8>) -> Seq<u32> {
    Seq::new(
        bytes.len() / 4,
        |i: int| word_from_le(bytes[4 * i], bytes[4 * i + 1], bytes[4 * i + 2], bytes[4 * i + 3]),
    )
}

proof fn lemma_word_round_trip(x: u32)
    ensures
        word_from_le(
            word_le_bytes(x)[0],
            word_le_bytes(x)[1],
            word_le_bytes(x)[2],
            word_le_bytes(x)[3],
        ) == x,
{
    let b0 = (x & 0xff) as u8;
    let b1 = ((x >> 8u32) & 0xff) as u8;
    let b2 = ((x >> 16u32) & 0xff) as u8;
    let b3 = (x >> 24u32) as u8;
    assert((b0 as u32) | ((b1 as u32) << 8u32) | ((b2 as u32) << 16u32) | ((b3 as u32) << 24u32)
        == x) by (bit_vector)
        requires
            b0 == (x & 0xff) as u8,
            b1 == ((x >> 8u32) & 0xff) as u8,
            b2 == ((x >> 16u32) & 0xff) as u8,
            b3 == (x >> 24u32) as u8,
    ;
}

/// Decoding the bytes of any sequence of elements gives back that sequence.
pub proof fn lemma_round_trip(words: Seq<u32>)
    ensures
        decoded(encoded(words)) == words,
{
    let e = encoded(words);
    assert forall|i: int| 0 <= i < words.len() implies #[trigger] decoded(e)[i] == words[i] by {
        assert((4 * i) / 4 == i && (4 * i) % 4 == 0);
        assert((4 * i + 1) / 4 == i && (4 * i + 1) % 4 == 1);
        assert((4 * i + 2) / 4 == i && (4 * i + 2) % 4 == 2);
        assert((4 * i + 3) / 4 == i && (4 * i + 3) % 4 == 3);
        lemma_word_round_trip(words[i]);
    }
    assert(decoded(e) =~= words);
}

/// The bytes to copy to the device for `words`.
pub fn encode_words(words: &[u32]) -> (r: Vec<u8>)
    requires
        4 * words@.len() <= usize::MAX,
    ensures
        r@ == encoded(words@),
{
    let mut out: Vec<u8> = Vec::new();
    let mut i: usize = 0;
    while i < words.len()
        invariant
            i <= words@.len(),
            4 * words@.len() <= usize::MAX,
            out@.len() == 4 * i,
            forall|j: int| 0 <= j < 4 * i ==> out@[j] == word_le_bytes(words@[j / 4])[j % 4],
        decreases words@.len() - i,
    {
        let x = words[i];
        out.push((x & 0xff) as u8);
        out.push(((x >> 8u32) & 0xff) as u8);
        out.push(((x >> 16u32) & 0xff) as u8);
        out.push((x >> 24u32) as u8);
        proof {
            let b = 4 * i as int;
            assert(b / 4 == i && b % 4 == 0);
            assert((b + 1) / 4 == i && (b + 1) % 4 == 1);
            assert((b + 2) / 4 == i && (b + 2) % 4 == 2);
            assert((b + 3) / 4 == i && (b + 3) % 4 == 3);
        }
        i = i + 1;
    }
    assert(out@ =~= encoded(words@));
    out
}

/// The elements that bytes copied back from the device hold; a length that
/// is not a whole number of elements is a usage error.
pub fn decode_words(bytes: &[u8]) -> (r: Result<Vec<u32>, CudaError>)
    ensures
        bytes@.len() % 4 == 0 ==> (r matches Ok(v) && v@ == decoded(bytes@)),
        bytes@.len() % 4 != 0 ==> r == Err::<Vec<u32>, CudaError>(usage_error()),
{
    if bytes.len() % 4 != 0 {
        return Err(misuse());
    }
    let len: usize = bytes.len();
    let n: usize = len / 4;
    let mut out: Vec<u32> = Vec::new();
    let mut i: usize = 0;
    while i < n
        invariant
            n == bytes@.len() / 4,
            4 * n == bytes@.len(),
            len == bytes@.len(),
            bytes@.len() % 4 == 0,
            i <= n,
            out@.len() == i,
            forall|k: int| 0 <= k < i ==> out@[k] == #[trigger] decoded(bytes@)[k],
        decreases n - i,
    {
        let b0 = bytes[4 * i];
        let b1 = bytes[4 * i + 1];
        let b2 = bytes[4 * i + 2];
        let b3 = bytes[4 * i + 3];
        out.push((b0 as u32) | ((b1 as u32) << 8u32) | ((b2 as u32) << 16u32) | ((b3 as u32) << 24u32));
        i = i + 1;
    }
    assert(out@ =~= decoded(bytes@));
    Ok(out)
}

} // verus!
