use vstd::prelude::*;

verus! {

/// The little-endian bytes of a 64-bit integer, least significant
/// first.
pub open spec fn u64_le_bytes(x: u64) -> Seq<u8> {
    seq![
        (x & 0xffu64) as u8,
        ((x >> 8u64) & 0xffu64) as u8,
        ((x >> 16u64) & 0xffu64) as u8,
        ((x >> 24u64) & 0xffu64) as u8,
        ((x >> 32u64) & 0xffu64) as u8,
        ((x >> 40u64) & 0xffu64) as u8,
        ((x >> 48u64) & 0xffu64) as u8,
        ((x >> 56u64) & 0xffu64) as u8,
    ]
}

/// The 64-bit integer read from eight little-endian bytes.
pub open spec fn le_u64(s: Seq<u8>) -> u64
    recommends
        s.len() == 8,
{
    (s[0] as u64) | ((s[1] as u64) << 8u64) | ((s[2] as u64) << 16u64) | ((s[3] as u64) << 24u64) | ((
    s[4] as u64) << 32u64) | ((s[5] as u64) << 40u64) | ((s[6] as u64) << 48u64) | ((s[7] as u64) << 56u64)
}

/// Writes an integer as its eight little-endian bytes.
pub fn to_bytes(x: u64) -> (r: [u8; 8])
    ensures
        r@ == u64_le_bytes(x),
{
    assert((x & 0xffu64) <= 0xff && ((x >> 8u64) & 0xffu64) <= 0xff && ((x >> 16u64) & 0xffu64) <= 0xff && ((x
        >> 24u64) & 0xffu64) <= 0xff && ((x >> 32u64) & 0xffu64) <= 0xff && ((x >> 40u64) & 0xffu64) <= 0xff && ((x
        >> 48u64) & 0xffu64) <= 0xff && ((x >> 56u64) & 0xffu64) <= 0xff) by (bit_vector);
    let r: [u8; 8] = [
        (x & 0xffu64) as u8,
        ((x >> 8u64) & 0xffu64) as u8,
        ((x >> 16u64) & 0xffu64) as u8,
        ((x >> 24u64) & 0xffu64) as u8,
        ((x >> 32u64) & 0xffu64) as u8,
        ((x >> 40u64) & 0xffu64) as u8,
        ((x >> 48u64) & 0xffu64) as u8,
        ((x >> 56u64) & 0xffu64) as u8,
    ];
    assert(r@ =~= u64_le_bytes(x));
    r
}

/// Reads the integer back from its eight little-endian bytes.
pub fn from_bytes(bytes: [u8; 8]) -> (r: u64)
    ensures
        r == le_u64(bytes@),
{
    (bytes[0] as u64) | ((bytes[1] as u64) << 8u64) | ((bytes[2] as u64) << 16u64) | ((bytes[3] as u64)
        << 24u64) | ((bytes[4] as u64) << 32u64) | ((bytes[5] as u64) << 40u64) | ((bytes[6] as u64) << 48u64)
        | ((bytes[7] as u64) << 56u64)
}

/// Reads the integer from a slice that holds exactly its eight
/// little-endian bytes.
pub fn from_bytes_slice(bytes: &[u8]) -> (r: u64)
    requires
        bytes@.len() == 8,
    ensures
        r == le_u64(bytes@),
{
    let mut buf: [u8; 8] = [0, 0, 0, 0, 0, 0, 0, 0];
    let mut i: usize = 0;
    while i < 8
        invariant
            i <= 8,
            bytes@.len() == 8,
            forall|j: int| 0 <= j < i ==> buf@[j] == bytes@[j],
        decreases 8 - i,
    {
        buf[i] = bytes[i];
        i = i + 1;
    }
    assert(buf@ =~= bytes@);
    from_bytes(buf)
}

/// Writing an integer as little-endian bytes and reading them back
/// returns the integer unchanged.
pub proof fn lemma_bytes_round_trip(x: u64)
    ensures
        le_u64(u64_le_bytes(x)) == x,
{
    assert((((x & 0xffu64) as u8) as u64) | (((((x >> 8u64) & 0xffu64) as u8) as u64) << 8u64) | (((((x >> 16u64)
        & 0xffu64) as u8) as u64) << 16u64) | (((((x >> 24u64) & 0xffu64) as u8) as u64) << 24u64) | (((((x >> 32u64)
        & 0xffu64) as u8) as u64) << 32u64) | (((((x >> 40u64) & 0xffu64) as u8) as u64) << 40u64) | (((((x >> 48u64)
        & 0xffu64) as u8) as u64) << 48u64) | (((((x >> 56u64) & 0xffu64) as u8) as u64) << 56u64) == x)
        by (bit_vector);
}

} // verus!
