//! The Bluetooth address of the left half, derived from the identifier that the
//! factory burned into the chip.

use vstd::prelude::*;

verus! {

/// The number that a little-endian byte string denotes.
pub open spec fn little_endian(bytes: Seq<u8>) -> int
    decreases bytes.len(),
{
    if bytes.len() == 0 {
        0
    } else {
        bytes[0] + 256 * little_endian(bytes.drop_first())
    }
}

/// The static random address of the chip whose device identifier has the given
/// two words: the low 46 bits of the identifier, below two bits that are set.
pub open spec fn static_random_address(id_low: u32, id_high: u32) -> int {
    0xc000_0000_0000 + (id_high % 0x4000) * 0x1_0000_0000 + id_low
}

/// The address under which this half advertises and scans, least significant
/// byte first. `id_low` and `id_high` are words 0 and 1 of the chip's device
/// identifier. The two most significant bits are set, as Bluetooth asks of a
/// static random address.
pub fn ble_addr(id_low: u32, id_high: u32) -> (addr: [u8; 6])
    ensures
        little_endian(addr@) == static_random_address(id_low, id_high),
        addr@[5] >= 0xc0,
        addr@[0] == id_low % 256,
        addr@[1] == id_low / 0x100 % 256,
        addr@[2] == id_low / 0x1_0000 % 256,
        addr@[3] == id_low / 0x100_0000,
        addr@[4] == id_high % 256,
        addr@[5] == 0xc0 + id_high / 0x100 % 64,
{
    let high: u64 = id_high as u64;
    let low: u64 = id_low as u64;
    let addr: u64 = high << 32 | low | 0x0000_c000_0000_0000;
    let bytes: [u8; 6] = [
        (addr & 0xff) as u8,
        (addr >> 8 & 0xff) as u8,
        (addr >> 16 & 0xff) as u8,
        (addr >> 24 & 0xff) as u8,
        (addr >> 32 & 0xff) as u8,
        (addr >> 40 & 0xff) as u8,
    ];
    proof {
        assert((addr & 0xff) + 256 * (addr >> 8 & 0xff) + 0x1_0000 * (addr >> 16 & 0xff)
            + 0x100_0000 * (addr >> 24 & 0xff) + 0x1_0000_0000 * (addr >> 32 & 0xff)
            + 0x100_0000_0000 * (addr >> 40 & 0xff) == 0xc000_0000_0000 + (id_high % 0x4000)
            * 0x1_0000_0000 + id_low) by (bit_vector)
            requires
                addr == high << 32 | low | 0x0000_c000_0000_0000,
                high == id_high as u64,
                low == id_low as u64,
        ;
        assert((addr & 0xff) < 256 && (addr >> 8 & 0xff) < 256 && (addr >> 16 & 0xff) < 256 && (addr
            >> 24 & 0xff) < 256 && (addr >> 32 & 0xff) < 256 && (addr >> 40 & 0xff) < 256)
            by (bit_vector);
        lemma_six_bytes(bytes@);
        law_address_bytes(id_low, id_high, bytes);
    }
    bytes
}

/// What six bytes denote, written out.
proof fn lemma_six_bytes(s: Seq<u8>)
    requires
        s.len() == 6,
    ensures
        little_endian(s) == s[0] + 256 * s[1] + 0x1_0000 * s[2] + 0x100_0000 * s[3] + 0x1_0000_0000
            * s[4] + 0x100_0000_0000 * s[5],
{
    reveal_with_fuel(little_endian, 7);
}

/// Byte strings of one length that denote the same number are the same.
proof fn lemma_little_endian_injective(a: Seq<u8>, b: Seq<u8>)
    requires
        a.len() == b.len(),
        little_endian(a) == little_endian(b),
    ensures
        a == b,
    decreases a.len(),
{
    if a.len() > 0 {
        lemma_little_endian_injective(a.drop_first(), b.drop_first());
        assert(a =~= seq![a[0]] + a.drop_first());
        assert(b =~= seq![b[0]] + b.drop_first());
    }
    assert(a =~= b);
}

/// The address holds the low word of the identifier byte by byte, then the low
/// byte of the high word, and on top six more bits of that word under two set
/// bits.
pub proof fn law_address_bytes(id_low: u32, id_high: u32, addr: [u8; 6])
    requires
        little_endian(addr@) == static_random_address(id_low, id_high),
    ensures
        addr@[0] == id_low % 256,
        addr@[1] == id_low / 0x100 % 256,
        addr@[2] == id_low / 0x1_0000 % 256,
        addr@[3] == id_low / 0x100_0000,
        addr@[4] == id_high % 256,
        addr@[5] == 0xc0 + id_high / 0x100 % 64,
{
    let b0 = (id_low % 256) as u8;
    let b1 = (id_low / 0x100 % 256) as u8;
    let b2 = (id_low / 0x1_0000 % 256) as u8;
    let b3 = (id_low / 0x100_0000) as u8;
    let b4 = (id_high % 256) as u8;
    let b5 = (0xc0 + id_high / 0x100 % 64) as u8;
    assert(id_low % 256 + 256 * (id_low / 0x100 % 256) + 0x1_0000 * (id_low / 0x1_0000 % 256)
        + 0x100_0000 * (id_low / 0x100_0000) == id_low) by (bit_vector);
    assert(id_high % 256 + 256 * (id_high / 0x100 % 64) == id_high % 0x4000) by (bit_vector);
    assert(id_low / 0x100_0000 < 256 && id_high / 0x100 % 64 < 64) by (bit_vector);
    let expected = seq![b0, b1, b2, b3, b4, b5];
    lemma_six_bytes(expected);
    lemma_little_endian_injective(addr@, expected);
}

/// Bits 46 and 47 of the address are set, its low 32 bits are the low word of the
/// identifier, and the 14 bits between are those of the high word.
pub proof fn law_address_parts(id_low: u32, id_high: u32)
    ensures
        static_random_address(id_low, id_high) / 0x4000_0000_0000 == 3,
        static_random_address(id_low, id_high) % 0x1_0000_0000 == id_low,
        static_random_address(id_low, id_high) / 0x1_0000_0000 % 0x4000 == id_high % 0x4000,
{
}

/// Two chips get the same address exactly when the low 46 bits of their device
/// identifiers agree: boards that differ there never collide, and the address
/// of one board never changes.
pub proof fn law_address_identifies_chip(
    low_a: u32,
    high_a: u32,
    addr_a: [u8; 6],
    low_b: u32,
    high_b: u32,
    addr_b: [u8; 6],
)
    requires
        little_endian(addr_a@) == static_random_address(low_a, high_a),
        little_endian(addr_b@) == static_random_address(low_b, high_b),
    ensures
        addr_a@ == addr_b@ <==> low_a == low_b && high_a % 0x4000 == high_b % 0x4000,
{
    if low_a == low_b && high_a % 0x4000 == high_b % 0x4000 {
        lemma_little_endian_injective(addr_a@, addr_b@);
    }
}

} // verus!
