//! Bit and byte helpers shared by the machine's components.

use vstd::prelude::*;

verus! {

/// The value of bit `index` of a byte: two to the power of `index`.
pub open spec fn bit_weight(index: u8) -> int {
    if index == 0 {
        1
    } else if index == 1 {
        2
    } else if index == 2 {
        4
    } else if index == 3 {
        8
    } else if index == 4 {
        16
    } else if index == 5 {
        32
    } else if index == 6 {
        64
    } else {
        128
    }
}

/// Whether bit `index` of `flag` is set.
pub open spec fn spec_bitflag(flag: u8, index: u8) -> bool {
    (flag as int / bit_weight(index)) % 2 == 1
}

/// `flag` with bit `index` made equal to `value` and every other bit kept.
pub open spec fn spec_set_bitflag(flag: u8, index: u8, value: bool) -> u8 {
    if spec_bitflag(flag, index) == value {
        flag
    } else if value {
        (flag + bit_weight(index)) as u8
    } else {
        (flag - bit_weight(index)) as u8
    }
}

/// Read a single value from a bitflag.
pub fn bitflag(flag: u8, index: u8) -> (r: bool)
    requires
        index < 8,
    ensures
        r == spec_bitflag(flag, index),
{
    assert((flag & (1u8 << index) != 0) == ((flag as int / bit_weight(index)) % 2 == 1))
        by (bit_vector)
        requires
            index < 8,
    ;
    flag & (1u8 << index) != 0
}

/// Set a single value in a bitflag.
pub fn set_bitflag(flag: &mut u8, index: u8, value: bool)
    requires
        index < 8,
    ensures
        *final(flag) == spec_set_bitflag(*old(flag), index, value),
{
    let before: u8 = *flag;
    if value {
        assert((before | (1u8 << index)) == spec_set_bitflag(before, index, true))
            by (bit_vector)
            requires
                index < 8,
        ;
        *flag = before | (1u8 << index);
    } else {
        assert((before & !(1u8 << index)) == spec_set_bitflag(before, index, false))
            by (bit_vector)
            requires
                index < 8,
        ;
        *flag = before & !(1u8 << index);
    }
}

/// Setting a bit makes that bit read back as the value set and leaves the
/// reading of every other bit as it was.
pub proof fn lemma_set_then_get(flag: u8, index: u8, value: bool, other: u8)
    requires
        index < 8,
        other < 8,
    ensures
        spec_bitflag(spec_set_bitflag(flag, index, value), index) == value,
        other != index ==> spec_bitflag(spec_set_bitflag(flag, index, value), other)
            == spec_bitflag(flag, other),
{
    assert(spec_bitflag(spec_set_bitflag(flag, index, value), index) == value) by (bit_vector)
        requires
            index < 8,
    ;
    assert(other != index ==> spec_bitflag(spec_set_bitflag(flag, index, value), other)
        == spec_bitflag(flag, other)) by (bit_vector)
        requires
            index < 8,
            other < 8,
    ;
}

/// The two four-bit halves of a byte, high half first.
pub open spec fn spec_half_bytes(byte: u8) -> (u8, u8) {
    ((byte / 16) as u8, (byte % 16) as u8)
}

/// Split a byte into the `(high, low)` half-bytes.
pub fn half_bytes(byte: u8) -> (r: (u8, u8))
    ensures
        r == spec_half_bytes(byte),
        r.0 < 16,
        r.1 < 16,
{
    (byte / 16, byte % 16)
}

/// A 16-bit register value read as an unsigned number (two's complement).
pub open spec fn spec_unsigned(v: i16) -> u16 {
    if v >= 0 {
        v as u16
    } else {
        (v + 0x1_0000) as u16
    }
}

/// A 16-bit word read as a signed number (two's complement).
pub open spec fn spec_signed(w: u16) -> i16 {
    if w < 0x8000 {
        w as i16
    } else {
        (w - 0x1_0000) as i16
    }
}

/// Reinterpret a signed 16-bit value as unsigned.
pub fn unsigned(v: i16) -> (w: u16)
    ensures
        w == spec_unsigned(v),
        spec_signed(w) == v,
{
    if v >= 0 {
        v as u16
    } else {
        (v as i32 + 0x1_0000) as u16
    }
}

/// Reinterpret an unsigned 16-bit word as signed.
pub fn signed(w: u16) -> (v: i16)
    ensures
        v == spec_signed(w),
        spec_unsigned(v) == w,
{
    if w < 0x8000 {
        w as i16
    } else {
        (w as i32 - 0x1_0000) as i16
    }
}

/// The 16-bit word whose little-endian bytes are `low`, `high`.
pub open spec fn spec_word(low: u8, high: u8) -> u16 {
    (low + 256 * high) as u16
}

/// Join two bytes, least significant first, into a 16-bit word.
pub fn word(low: u8, high: u8) -> (w: u16)
    ensures
        w == spec_word(low, high),
{
    low as u16 + 256 * (high as u16)
}

/// Split a 16-bit word into its `(low, high)` bytes.
pub fn word_bytes(w: u16) -> (r: (u8, u8))
    ensures
        r.0 == w % 256,
        r.1 == w / 256,
        spec_word(r.0, r.1) == w,
{
    ((w % 256) as u8, (w / 256) as u8)
}

/// Serialize a value to its two bytes, least significant first.
pub fn serialize(src: &i16) -> (r: [u8; 2])
    ensures
        r@ == seq![(spec_unsigned(*src) % 256) as u8, (spec_unsigned(*src) / 256) as u8],
        spec_signed(spec_word(r@[0], r@[1])) == *src,
{
    let (low, high) = word_bytes(unsigned(*src));
    let r: [u8; 2] = [low, high];
    assert(r@ =~= seq![low, high]);
    r
}

/// Deserialize a value from the first two bytes of a slice, least
/// significant first.
pub fn deserialize(src: &[u8]) -> (r: i16)
    requires
        src@.len() >= 2,
    ensures
        r == spec_signed(spec_word(src@[0], src@[1])),
{
    signed(word(src[0], src[1]))
}

/// The generator polynomial of CRC-32, bit-reversed.
pub const CRC_POLYNOMIAL: u32 = 0xEDB88320;

/// One division step of the bit-reversed CRC: shift the register right and
/// subtract the polynomial when the bit shifted out was set.
pub open spec fn crc_shift(c: u32) -> u32 {
    if c & 1 == 1 {
        (c >> 1) ^ CRC_POLYNOMIAL
    } else {
        c >> 1
    }
}

/// `n` division steps in a row.
pub open spec fn crc_shifts(c: u32, n: nat) -> u32
    decreases n,
{
    if n == 0 {
        c
    } else {
        crc_shift(crc_shifts(c, (n - 1) as nat))
    }
}

/// The register after one more message byte: the byte is added to the low
/// eight bits, then divided out in eight steps.
pub open spec fn crc_byte(c: u32, byte: u8) -> u32 {
    crc_shifts(c ^ (byte as u32), 8)
}

/// The register after a whole message, starting from all ones.
pub open spec fn crc_register(stream: Seq<u8>) -> u32
    decreases stream.len(),
{
    if stream.len() == 0 {
        0xFFFF_FFFF
    } else {
        crc_byte(crc_register(stream.drop_last()), stream.last())
    }
}

/// CRC-32 of a message: the complement of the final register.
pub open spec fn spec_crc32(stream: Seq<u8>) -> u32 {
    !crc_register(stream)
}

/// Comparing the register's low bit with the next message bit and adding the
/// rest of the byte afterwards is the same as adding the whole byte first.
proof fn lemma_crc_bitwise(c: u32, v: u32)
    ensures
        (if (c & 1) != (v & 1) {
            (c >> 1) ^ CRC_POLYNOMIAL
        } else {
            c >> 1
        }) ^ (v >> 1) == crc_shift(c ^ v),
{
    assert((if (c & 1) != (v & 1) {
        (c >> 1) ^ CRC_POLYNOMIAL
    } else {
        c >> 1
    }) ^ (v >> 1) == crc_shift(c ^ v)) by (bit_vector);
}

/// Calculate the CRC32 checksum of a buffer.
pub fn crc32(stream: &[u8]) -> (r: u32)
    ensures
        r == spec_crc32(stream@),
{
    let mut checksum: u32 = 0xFFFF_FFFF;
    let mut n: usize = 0;
    while n < stream.len()
        invariant
            n <= stream@.len(),
            checksum == crc_register(stream@.take(n as int)),
        decreases stream@.len() - n,
    {
        let byte: u8 = stream[n];
        let start: Ghost<u32> = Ghost(checksum);
        let mut i: u32 = 0;
        proof {
            assert((byte as u32) >> 0u32 == byte as u32) by (bit_vector);
        }
        while i < 8
            invariant
                i <= 8,
                checksum ^ ((byte as u32) >> i) == crc_shifts(start@ ^ (byte as u32), i as nat),
            decreases 8 - i,
        {
            proof {
                let v: u32 = (byte as u32) >> i;
                lemma_crc_bitwise(checksum, v);
                assert(((byte as u32) >> i) & 1 == (v & 1));
                assert(v >> 1 == (byte as u32) >> ((i + 1) as u32)) by (bit_vector)
                    requires
                        v == (byte as u32) >> i,
                        i < 8,
                ;
            }
            if checksum & 1 != ((byte as u32) >> i) & 1 {
                checksum = (checksum >> 1) ^ CRC_POLYNOMIAL;
            } else {
                checksum = checksum >> 1;
            }
            i += 1;
        }
        proof {
            assert((byte as u32) >> 8u32 == 0) by (bit_vector);
            assert(checksum ^ 0 == checksum) by (bit_vector);
            let done = stream@.take(n as int + 1);
            assert(done.drop_last() =~= stream@.take(n as int));
            assert(done.last() == byte);
        }
        n += 1;
    }
    proof {
        assert(stream@.take(n as int) =~= stream@);
    }
    !checksum
}

} // verus!
