//! The dongle's BLE address, derived from the chip's factory device id.

use vstd::prelude::*;

verus! {

/// The two top bits of a BLE static random address, set on the 48-bit value.
pub const STATIC_ADDRESS_FLAGS: u64 = 0x0000_c000_0000_0000;

/// The 64-bit value whose low 48 bits are the address: the device id, high
/// word above low word, with the static random address flags set.
pub open spec fn address_value(id_low: u32, id_high: u32) -> u64 {
    ((id_high as u64) << 32u64 | id_low as u64) | STATIC_ADDRESS_FLAGS
}

/// Byte `i` of a 64-bit value, least significant first.
pub open spec fn le_byte(value: u64, i: u64) -> u8 {
    ((value >> (8 * i)) & 0xff) as u8
}

/// The 6-byte BLE address of the dongle, least significant byte first, from
/// the two 32-bit words of the factory device id: the low 48 bits of the id
/// with the two top bits set, which marks it a static random address.
pub fn ble_addr_from_device_id(id_low: u32, id_high: u32) -> (addr: [u8; 6])
    ensures
        forall|i: int| 0 <= i < 6 ==> #[trigger] addr@[i] == le_byte(address_value(id_low, id_high), i as u64),
        addr@[0] == id_low & 0xff,
        addr@[1] == (id_low >> 8u32) & 0xff,
        addr@[2] == (id_low >> 16u32) & 0xff,
        addr@[3] == id_low >> 24u32,
        addr@[4] == id_high & 0xff,
        addr@[5] == ((id_high >> 8u32) & 0xff) | 0xc0,
        addr@[5] & 0xc0 == 0xc0,
{
    let high: u64 = id_high as u64;
    let value: u64 = (high << 32u64 | id_low as u64) | STATIC_ADDRESS_FLAGS;
    let addr: [u8; 6] = [
        (value & 0xff) as u8,
        ((value >> 8u64) & 0xff) as u8,
        ((value >> 16u64) & 0xff) as u8,
        ((value >> 24u64) & 0xff) as u8,
        ((value >> 32u64) & 0xff) as u8,
        ((value >> 40u64) & 0xff) as u8,
    ];
    proof {
        let lo = id_low;
        let hi = id_high;
        assert(value == address_value(lo, hi));
        assert(le_byte(value, 0) == (value & 0xff) as u8) by (bit_vector);
        assert(le_byte(value, 1) == ((value >> 8u64) & 0xff) as u8) by (bit_vector);
        assert(le_byte(value, 2) == ((value >> 16u64) & 0xff) as u8) by (bit_vector);
        assert(le_byte(value, 3) == ((value >> 24u64) & 0xff) as u8) by (bit_vector);
        assert(le_byte(value, 4) == ((value >> 32u64) & 0xff) as u8) by (bit_vector);
        assert(le_byte(value, 5) == ((value >> 40u64) & 0xff) as u8) by (bit_vector);
        assert((value & 0xff) as u8 == lo & 0xff
            && ((value >> 8u64) & 0xff) as u8 == (lo >> 8u32) & 0xff
            && ((value >> 16u64) & 0xff) as u8 == (lo >> 16u32) & 0xff
            && ((value >> 24u64) & 0xff) as u8 == lo >> 24u32
            && ((value >> 32u64) & 0xff) as u8 == hi & 0xff
            && ((value >> 40u64) & 0xff) as u8 == ((hi >> 8u32) & 0xff) | 0xc0
            && (((value >> 40u64) & 0xff) as u8) & 0xc0 == 0xc0) by (bit_vector)
            requires
                value == ((hi as u64) << 32u64 | lo as u64) | 0x0000_c000_0000_0000u64,
        ;
    }
    addr
}

} // verus!
