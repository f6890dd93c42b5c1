use vstd::prelude::*;
use vstd::bytes::*;
use vstd::slice::slice_subrange;
use vstd::assert_seqs_equal;

verus! {

/// Number of bytes the persisted header occupies at the front of an
/// authorized or vending buffer: one nonce byte plus a little-endian u64.
pub const HEADER_LEN: usize = 9;

/// The 9-byte wire form shared by both header variants: the nonce byte
/// followed by the numeric field in little-endian order.
pub open spec fn spec_header_bytes(nonce: u8, value: u64) -> Seq<u8> {
    seq![nonce] + spec_u64_to_le_bytes(value)
}

/// The nonce byte stored at offset 0 of an encoded header.
pub open spec fn spec_header_nonce(s: Seq<u8>) -> u8 {
    s[0]
}

/// The numeric field stored little-endian at offsets 1..9 of an encoded header.
pub open spec fn spec_header_value(s: Seq<u8>) -> u64 {
    spec_u64_from_le_bytes(s.subrange(1, 9))
}

/// Header persisted at the front of an authority-bound buffer: the
/// derivation nonce and the numeric seed, the only witnesses needed to
/// re-derive the buffer's own address on every later write.
#[derive(Clone, Copy, PartialEq, Eq, Structural, Debug)]
pub struct AuthorizedBufferHeader {
    pub bump_seed: u8,
    pub buffer_seed: u64,
}

/// Header persisted at the front of a pay-per-write buffer: the derivation
/// nonce and the price, which doubles as derivation seed and burn amount.
#[derive(Clone, Copy, PartialEq, Eq, Structural, Debug)]
pub struct VendingMachineBufferHeader {
    pub bump_seed: u8,
    pub price: u64,
}

impl AuthorizedBufferHeader {
    /// This header's 9-byte wire form.
    pub open spec fn spec_bytes(self) -> Seq<u8> {
        spec_header_bytes(self.bump_seed, self.buffer_seed)
    }

    /// Decodes the header from the first 9 bytes of a buffer's data region.
    /// A region shorter than 9 bytes is a caller error, not a codec error.
    pub fn read_from(data: &Vec<u8>) -> (h: Self)
        requires
            data@.len() >= HEADER_LEN,
        ensures
            h.bump_seed == spec_header_nonce(data@),
            h.buffer_seed == spec_header_value(data@),
    {
        let (nonce, value) = read_header_fields(data);
        AuthorizedBufferHeader { bump_seed: nonce, buffer_seed: value }
    }
}

impl VendingMachineBufferHeader {
    /// This header's 9-byte wire form.
    pub open spec fn spec_bytes(self) -> Seq<u8> {
        spec_header_bytes(self.bump_seed, self.price)
    }

    /// Decodes the header from the first 9 bytes of a buffer's data region.
    /// A region shorter than 9 bytes is a caller error, not a codec error.
    pub fn read_from(data: &Vec<u8>) -> (h: Self)
        requires
            data@.len() >= HEADER_LEN,
        ensures
            h.bump_seed == spec_header_nonce(data@),
            h.price == spec_header_value(data@),
    {
        let (nonce, value) = read_header_fields(data);
        VendingMachineBufferHeader { bump_seed: nonce, price: value }
    }
}

/// Reads the nonce byte and the little-endian numeric field from the
/// first 9 bytes of `data`.
fn read_header_fields(data: &Vec<u8>) -> (r: (u8, u64))
    requires
        data@.len() >= HEADER_LEN,
    ensures
        r.0 == spec_header_nonce(data@),
        r.1 == spec_header_value(data@),
{
    let nonce = data[0];
    let value = u64_from_le_bytes(slice_subrange(data.as_slice(), 1, 9));
    (nonce, value)
}

/// Writes the header `{nonce, value}` into the first 9 bytes of `data`,
/// leaving every byte at offset 9 and beyond untouched.
pub fn write_header(data: &mut Vec<u8>, nonce: u8, value: u64)
    requires
        old(data)@.len() >= HEADER_LEN,
    ensures
        final(data)@.len() == old(data)@.len(),
        final(data)@.subrange(0, 9) == spec_header_bytes(nonce, value),
        forall|i: int| 9 <= i < old(data)@.len() ==> final(data)@[i] == old(data)@[i],
{
    proof {
        lemma_auto_spec_u64_to_from_le_bytes();
    }
    let encoded = u64_to_le_bytes(value);
    data[0] = nonce;
    let mut i: usize = 0;
    while i < 8
        invariant
            i <= 8,
            encoded@ == spec_u64_to_le_bytes(value),
            encoded@.len() == 8,
            data@.len() == old(data)@.len(),
            old(data)@.len() >= HEADER_LEN,
            data@[0] == nonce,
            forall|j: int| 0 <= j < i ==> data@[1 + j] == encoded@[j],
            forall|j: int| 9 <= j < old(data)@.len() ==> data@[j] == old(data)@[j],
        decreases 8 - i,
    {
        data[1 + i] = encoded[i];
        i = i + 1;
    }
    proof {
        assert_seqs_equal!(data@.subrange(0, 9) == spec_header_bytes(nonce, value));
    }
}

/// Decoding inverts encoding for an authorized header: reading back its
/// 9 wire bytes recovers exactly the stored nonce and seed.
pub proof fn lemma_authorized_header_round_trip(h: AuthorizedBufferHeader)
    ensures
        h.spec_bytes().len() == 9,
        spec_header_nonce(h.spec_bytes()) == h.bump_seed,
        spec_header_value(h.spec_bytes()) == h.buffer_seed,
{
    lemma_header_round_trip(h.bump_seed, h.buffer_seed);
}

/// Decoding inverts encoding for a vending header: reading back its
/// 9 wire bytes recovers exactly the stored nonce and price.
pub proof fn lemma_vending_header_round_trip(h: VendingMachineBufferHeader)
    ensures
        h.spec_bytes().len() == 9,
        spec_header_nonce(h.spec_bytes()) == h.bump_seed,
        spec_header_value(h.spec_bytes()) == h.price,
{
    lemma_header_round_trip(h.bump_seed, h.price);
}

/// Decoding inverts encoding: reading back the 9 bytes written for a
/// header recovers exactly the nonce and numeric field that were stored.
pub proof fn lemma_header_round_trip(nonce: u8, value: u64)
    ensures
        spec_header_bytes(nonce, value).len() == 9,
        spec_header_nonce(spec_header_bytes(nonce, value)) == nonce,
        spec_header_value(spec_header_bytes(nonce, value)) == value,
{
    lemma_auto_spec_u64_to_from_le_bytes();
    let s = spec_header_bytes(nonce, value);
    assert_seqs_equal!(s.subrange(1, 9) == spec_u64_to_le_bytes(value));
}

} // verus!
