use vstd::prelude::*;

verus! {

/// The checksum of `bytes`: the exclusive or of all of them, 0 for none.
pub open spec fn spec_checksum(bytes: Seq<u8>) -> u8
    decreases bytes.len(),
{
    if bytes.len() == 0 {
        0
    } else {
        spec_checksum(bytes.drop_last()) ^ bytes.last()
    }
}

/// The checksum of `bytes`: the exclusive or of all of them, 0 for none.
pub fn checksum(bytes: &[u8]) -> (sum: u8)
    ensures
        sum == spec_checksum(bytes@),
{
    let mut sum: u8 = 0;
    let mut index: usize = 0;
    while index < bytes.len()
        invariant
            index <= bytes@.len(),
            sum == spec_checksum(bytes@.take(index as int)),
        decreases bytes@.len() - index,
    {
        assert(bytes@.take(index + 1).drop_last() == bytes@.take(index as int));
        sum = sum ^ bytes[index];
        index += 1;
    }
    assert(bytes@.take(index as int) == bytes@);
    sum
}

/// One more byte at the end folds into the checksum by exclusive or.
pub proof fn lemma_checksum_push(bytes: Seq<u8>, byte: u8)
    ensures
        spec_checksum(bytes.push(byte)) == spec_checksum(bytes) ^ byte,
{
    assert(bytes.push(byte).drop_last() == bytes);
}

/// A sequence that ends in the checksum of what stands before it has
/// checksum 0, and only such a one: the last byte is the only one that
/// fits.
pub proof fn lemma_checksum_round_trip(bytes: Seq<u8>, last: u8)
    ensures
        last == spec_checksum(bytes) <==> spec_checksum(bytes.push(last)) == 0,
{
    lemma_checksum_push(bytes, last);
    let sum = spec_checksum(bytes);
    assert((sum ^ last == 0) <==> last == sum) by (bit_vector);
}

/// Changing the bits of one byte by `mask` changes the checksum by the same
/// `mask`.
pub proof fn lemma_checksum_flip(bytes: Seq<u8>, index: int, mask: u8)
    requires
        0 <= index < bytes.len(),
    ensures
        spec_checksum(bytes.update(index, bytes[index] ^ mask)) == spec_checksum(bytes) ^ mask,
    decreases bytes.len(),
{
    let flipped = bytes.update(index, bytes[index] ^ mask);
    let rest = spec_checksum(bytes.drop_last());
    let last = bytes.last();
    if index == bytes.len() - 1 {
        assert(flipped.drop_last() == bytes.drop_last());
        assert(rest ^ (last ^ mask) == (rest ^ last) ^ mask) by (bit_vector);
    } else {
        lemma_checksum_flip(bytes.drop_last(), index, mask);
        assert(flipped.drop_last() == bytes.drop_last().update(
            index,
            bytes.drop_last()[index] ^ mask,
        ));
        assert((rest ^ mask) ^ last == (rest ^ last) ^ mask) by (bit_vector);
    }
}

/// Flipping one bit of one byte changes the checksum.
pub proof fn lemma_checksum_detects_bit_flip(bytes: Seq<u8>, index: int, bit: u8)
    requires
        0 <= index < bytes.len(),
        bit < 8,
    ensures
        spec_checksum(bytes.update(index, bytes[index] ^ (1u8 << bit))) != spec_checksum(bytes),
{
    lemma_checksum_flip(bytes, index, 1u8 << bit);
    let sum = spec_checksum(bytes);
    assert(bit < 8 ==> sum ^ (1u8 << bit) != sum) by (bit_vector);
}

} // verus!
