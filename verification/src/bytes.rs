//! Little-endian integers in byte sequences.
use vstd::prelude::*;

verus! {

/// The 32-bit value that four little-endian bytes hold.
pub open spec fn spec_le_u32(b: Seq<u8>) -> u32
    recommends
        b.len() == 4,
{
    (b[0] + b[1] * 0x100 + b[2] * 0x1_0000 + b[3] * 0x100_0000) as u32
}

/// The 64-bit value that eight little-endian bytes hold.
pub open spec fn spec_le_u64(b: Seq<u8>) -> u64
    recommends
        b.len() == 8,
{
    (b[0] + b[1] * 0x100 + b[2] * 0x1_0000 + b[3] * 0x100_0000 + b[4] * 0x1_0000_0000 + b[5]
        * 0x100_0000_0000 + b[6] * 0x1_0000_0000_0000 + b[7] * 0x100_0000_0000_0000) as u64
}

/// The four little-endian bytes of a 32-bit value.
pub open spec fn spec_u32_le_bytes(x: u32) -> Seq<u8> {
    seq![
        (x % 0x100) as u8,
        ((x / 0x100) % 0x100) as u8,
        ((x / 0x1_0000) % 0x100) as u8,
        ((x / 0x100_0000) % 0x100) as u8,
    ]
}

/// The eight little-endian bytes of a 64-bit value.
pub open spec fn spec_u64_le_bytes(x: u64) -> Seq<u8> {
    seq![
        (x % 0x100) as u8,
        ((x / 0x100) % 0x100) as u8,
        ((x / 0x1_0000) % 0x100) as u8,
        ((x / 0x100_0000) % 0x100) as u8,
        ((x / 0x1_0000_0000) % 0x100) as u8,
        ((x / 0x100_0000_0000) % 0x100) as u8,
        ((x / 0x1_0000_0000_0000) % 0x100) as u8,
        ((x / 0x100_0000_0000_0000) % 0x100) as u8,
    ]
}

/// Reads a little-endian 32-bit value at `start`.
pub fn le_u32(bytes: &[u8], start: usize) -> (x: u32)
    requires
        start + 4 <= bytes@.len(),
    ensures
        x == spec_le_u32(bytes@.subrange(start as int, start + 4)),
{
    let n = bytes.len();
    let b0: u32 = bytes[start] as u32;
    let b1: u32 = bytes[start + 1] as u32;
    let b2: u32 = bytes[start + 2] as u32;
    let b3: u32 = bytes[start + 3] as u32;
    b0 + b1 * 0x100 + b2 * 0x1_0000 + b3 * 0x100_0000
}

/// Reads a little-endian 64-bit value at `start`.
pub fn le_u64(bytes: &[u8], start: usize) -> (x: u64)
    requires
        start + 8 <= bytes@.len(),
    ensures
        x == spec_le_u64(bytes@.subrange(start as int, start + 8)),
{
    let n = bytes.len();
    let b0: u64 = bytes[start] as u64;
    let b1: u64 = bytes[start + 1] as u64;
    let b2: u64 = bytes[start + 2] as u64;
    let b3: u64 = bytes[start + 3] as u64;
    let b4: u64 = bytes[start + 4] as u64;
    let b5: u64 = bytes[start + 5] as u64;
    let b6: u64 = bytes[start + 6] as u64;
    let b7: u64 = bytes[start + 7] as u64;
    b0 + b1 * 0x100 + b2 * 0x1_0000 + b3 * 0x100_0000 + b4 * 0x1_0000_0000 + b5
        * 0x100_0000_0000 + b6 * 0x1_0000_0000_0000 + b7 * 0x100_0000_0000_0000
}

/// Writes a 32-bit value as four little-endian bytes.
pub fn u32_le_bytes(x: u32) -> (bytes: Vec<u8>)
    ensures
        bytes@ == spec_u32_le_bytes(x),
        bytes@.len() == 4,
{
    let bytes: Vec<u8> = vec![
        (x % 0x100) as u8,
        ((x / 0x100) % 0x100) as u8,
        ((x / 0x1_0000) % 0x100) as u8,
        ((x / 0x100_0000) % 0x100) as u8,
    ];
    assert(bytes@ =~= spec_u32_le_bytes(x));
    bytes
}

/// Writes a 64-bit value as eight little-endian bytes.
pub fn u64_le_bytes(x: u64) -> (bytes: Vec<u8>)
    ensures
        bytes@ == spec_u64_le_bytes(x),
        bytes@.len() == 8,
{
    let bytes: Vec<u8> = vec![
        (x % 0x100) as u8,
        ((x / 0x100) % 0x100) as u8,
        ((x / 0x1_0000) % 0x100) as u8,
        ((x / 0x100_0000) % 0x100) as u8,
        ((x / 0x1_0000_0000) % 0x100) as u8,
        ((x / 0x100_0000_0000) % 0x100) as u8,
        ((x / 0x1_0000_0000_0000) % 0x100) as u8,
        ((x / 0x100_0000_0000_0000) % 0x100) as u8,
    ];
    assert(bytes@ =~= spec_u64_le_bytes(x));
    bytes
}

/// Reading the bytes of a 64-bit value gives the value back.
pub proof fn lemma_le_u64_of_bytes(x: u64)
    ensures
        spec_u64_le_bytes(x).len() == 8,
        spec_le_u64(spec_u64_le_bytes(x)) == x,
{
    let q1 = x / 0x100;
    let q2 = q1 / 0x100;
    let q3 = q2 / 0x100;
    let q4 = q3 / 0x100;
    let q5 = q4 / 0x100;
    let q6 = q5 / 0x100;
    let q7 = q6 / 0x100;
    assert(q2 == x / 0x1_0000 && q3 == x / 0x100_0000 && q4 == x / 0x1_0000_0000 && q5 == x
        / 0x100_0000_0000 && q6 == x / 0x1_0000_0000_0000 && q7 == x / 0x100_0000_0000_0000)
        by (bit_vector)
        requires
            q1 == x / 0x100,
            q2 == q1 / 0x100,
            q3 == q2 / 0x100,
            q4 == q3 / 0x100,
            q5 == q4 / 0x100,
            q6 == q5 / 0x100,
            q7 == q6 / 0x100,
    ;
    assert(q7 < 0x100);
}

/// Writing the value that eight bytes hold gives the bytes back.
pub proof fn lemma_bytes_of_le_u64(b: Seq<u8>)
    requires
        b.len() == 8,
    ensures
        spec_u64_le_bytes(spec_le_u64(b)) == b,
{
    let x = spec_le_u64(b);
    let q1 = x / 0x100;
    let q2 = q1 / 0x100;
    let q3 = q2 / 0x100;
    let q4 = q3 / 0x100;
    let q5 = q4 / 0x100;
    let q6 = q5 / 0x100;
    let q7 = q6 / 0x100;
    assert(q2 == x / 0x1_0000 && q3 == x / 0x100_0000 && q4 == x / 0x1_0000_0000 && q5 == x
        / 0x100_0000_0000 && q6 == x / 0x1_0000_0000_0000 && q7 == x / 0x100_0000_0000_0000)
        by (bit_vector)
        requires
            q1 == x / 0x100,
            q2 == q1 / 0x100,
            q3 == q2 / 0x100,
            q4 == q3 / 0x100,
            q5 == q4 / 0x100,
            q6 == q5 / 0x100,
            q7 == q6 / 0x100,
    ;
    assert(x % 0x100 == b[0]);
    assert(q1 == b[1] + b[2] * 0x100 + b[3] * 0x1_0000 + b[4] * 0x100_0000 + b[5]
        * 0x1_0000_0000 + b[6] * 0x100_0000_0000 + b[7] * 0x1_0000_0000_0000);
    assert(q2 == b[2] + b[3] * 0x100 + b[4] * 0x1_0000 + b[5] * 0x100_0000 + b[6]
        * 0x1_0000_0000 + b[7] * 0x100_0000_0000);
    assert(q3 == b[3] + b[4] * 0x100 + b[5] * 0x1_0000 + b[6] * 0x100_0000 + b[7]
        * 0x1_0000_0000);
    assert(q4 == b[4] + b[5] * 0x100 + b[6] * 0x1_0000 + b[7] * 0x100_0000);
    assert(q5 == b[5] + b[6] * 0x100 + b[7] * 0x1_0000);
    assert(q6 == b[6] + b[7] * 0x100);
    assert(q7 == b[7]);
    assert(spec_u64_le_bytes(x) =~= b);
}

/// Two 64-bit values with the same bytes are equal.
pub proof fn lemma_u64_le_bytes_injective(x: u64, y: u64)
    requires
        spec_u64_le_bytes(x) == spec_u64_le_bytes(y),
    ensures
        x == y,
{
    lemma_le_u64_of_bytes(x);
    lemma_le_u64_of_bytes(y);
}

/// Reading the bytes of a 32-bit value gives the value back.
pub proof fn lemma_le_u32_of_bytes(x: u32)
    ensures
        spec_u32_le_bytes(x).len() == 4,
        spec_le_u32(spec_u32_le_bytes(x)) == x,
{
}

} // verus!
