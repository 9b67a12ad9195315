//! The keyboard state that the firmware hands to the renderer on each redraw,
//! as plain values.

use vstd::prelude::*;

verus! {

/// Charge state of a battery, as the keyboard firmware reports it.
#[derive(Clone, Copy, Debug, PartialEq, Eq, Structural)]
pub enum ChargeState {
    Charging,
    Discharging,
    Unknown,
}

/// Battery status of the dongle itself or of one keyboard half.
#[derive(Clone, Copy, Debug, PartialEq, Eq, Structural)]
pub enum BatteryStatus {
    Unavailable,
    Available { charge_state: ChargeState, level: Option<u8> },
}

/// What the BLE subsystem is currently doing.
#[derive(Clone, Copy, Debug, PartialEq, Eq, Structural)]
pub enum BleState {
    Advertising,
    Connected,
    Inactive,
}

/// Active BLE profile and what the BLE subsystem is doing.
#[derive(Clone, Copy, Debug, PartialEq, Eq, Structural)]
pub struct BleStatus {
    pub profile: u8,
    pub state: BleState,
}

/// The eight modifier keys, left and right.
#[derive(Clone, Copy, Debug, PartialEq, Eq, Structural)]
pub struct Modifiers {
    pub left_ctrl: bool,
    pub left_shift: bool,
    pub left_alt: bool,
    pub left_gui: bool,
    pub right_ctrl: bool,
    pub right_shift: bool,
    pub right_alt: bool,
    pub right_gui: bool,
}

/// Snapshot of the keyboard state for one redraw.
///
/// `ble_status` is `None` on a build without BLE, `peripherals_connected` is
/// `None` on a build without split support, and `peripheral_batteries` is
/// `None` unless the build has both.
#[derive(Clone, Debug)]
pub struct RenderInput {
    pub layer: u8,
    pub wpm: u16,
    pub caps_lock: bool,
    pub num_lock: bool,
    pub battery: BatteryStatus,
    pub sleeping: bool,
    pub ble_status: Option<BleStatus>,
    pub peripherals_connected: Option<Vec<bool>>,
    pub peripheral_batteries: Option<Vec<BatteryStatus>>,
    pub modifiers: Modifiers,
    pub key_pressed: bool,
    pub key_press_latch: bool,
}

/// The bit of a flag: `weight` when set, 0 otherwise.
pub open spec fn flag_bit(flag: bool, weight: int) -> int {
    if flag { weight } else { 0 }
}

/// The packed byte of a modifier set: bit 0 left Ctrl, bit 1 left Shift,
/// bit 2 left Alt, bit 3 left GUI, bits 4 to 7 the same for the right side.
pub open spec fn modifier_bits(m: Modifiers) -> int {
    flag_bit(m.left_ctrl, 1) + flag_bit(m.left_shift, 2) + flag_bit(m.left_alt, 4)
        + flag_bit(m.left_gui, 8) + flag_bit(m.right_ctrl, 16) + flag_bit(m.right_shift, 32)
        + flag_bit(m.right_alt, 64) + flag_bit(m.right_gui, 128)
}

/// `rmk_types::modifier::ModifierCombination::into_bits`, on the combination
/// built from the eight flags by `ModifierCombination::new_from_vals`.
/// `ModifierCombination` is a `#[bitfield(u8, order = Lsb)]` struct whose
/// fields are, from bit 0 up, left ctrl, shift, alt, gui, then right ctrl,
/// shift, alt, gui, one bit each; the claim is that the byte has exactly
/// those bits.
#[verifier::external_body]
fn modifier_combination_bits(m: Modifiers) -> (bits: u8)
    ensures
        bits == modifier_bits(m),
{
    rmk_types::modifier::ModifierCombination::new_from_vals(
        m.left_ctrl,
        m.left_shift,
        m.left_alt,
        m.left_gui,
        m.right_ctrl,
        m.right_shift,
        m.right_alt,
        m.right_gui,
    ).into_bits()
}

/// The modifier byte that the display's modifiers event carries: the
/// keyboard's own packed representation of the modifier set.
pub fn modifiers_to_bitfield(m: Modifiers) -> (bits: u8)
    ensures
        bits == modifier_bits(m),
{
    modifier_combination_bits(m)
}


/// The modifier byte keeps every modifier key apart: bit 0 is left Ctrl,
/// bit 1 left Shift, bit 2 left Alt, bit 3 left GUI, and bits 4 to 7 the same
/// keys on the right.
pub proof fn lemma_modifier_bits_decode(m: Modifiers)
    ensures
        0 <= modifier_bits(m) < 256,
        ({
            let b = modifier_bits(m) as u8;
            &&& (b & 0x01 != 0) == m.left_ctrl
            &&& (b & 0x02 != 0) == m.left_shift
            &&& (b & 0x04 != 0) == m.left_alt
            &&& (b & 0x08 != 0) == m.left_gui
            &&& (b & 0x10 != 0) == m.right_ctrl
            &&& (b & 0x20 != 0) == m.right_shift
            &&& (b & 0x40 != 0) == m.right_alt
            &&& (b & 0x80 != 0) == m.right_gui
        }),
{
    let (a0, a1, a2, a3, a4, a5, a6, a7) = (
        m.left_ctrl,
        m.left_shift,
        m.left_alt,
        m.left_gui,
        m.right_ctrl,
        m.right_shift,
        m.right_alt,
        m.right_gui,
    );
    let b: u8 = modifier_bits(m) as u8;
    assert(b == (if a0 { 1u8 } else { 0u8 }) | (if a1 { 2u8 } else { 0u8 }) | (if a2 { 4u8 } else { 0u8 })
        | (if a3 { 8u8 } else { 0u8 }) | (if a4 { 16u8 } else { 0u8 }) | (if a5 { 32u8 } else { 0u8 })
        | (if a6 { 64u8 } else { 0u8 }) | (if a7 { 128u8 } else { 0u8 })) by (bit_vector)
        requires
            b == (if a0 { 1int } else { 0int }) + (if a1 { 2int } else { 0int }) + (if a2 { 4int } else { 0int })
                + (if a3 { 8int } else { 0int }) + (if a4 { 16int } else { 0int }) + (if a5 { 32int } else { 0int })
                + (if a6 { 64int } else { 0int }) + (if a7 { 128int } else { 0int }),
    ;
    assert(
        (b & 0x01 != 0) == a0 && (b & 0x02 != 0) == a1 && (b & 0x04 != 0) == a2 && (b & 0x08 != 0) == a3
        && (b & 0x10 != 0) == a4 && (b & 0x20 != 0) == a5 && (b & 0x40 != 0) == a6 && (b & 0x80 != 0) == a7
    ) by (bit_vector)
        requires
            b == (if a0 { 1u8 } else { 0u8 }) | (if a1 { 2u8 } else { 0u8 }) | (if a2 { 4u8 } else { 0u8 })
                | (if a3 { 8u8 } else { 0u8 }) | (if a4 { 16u8 } else { 0u8 }) | (if a5 { 32u8 } else { 0u8 })
                | (if a6 { 64u8 } else { 0u8 }) | (if a7 { 128u8 } else { 0u8 }),
    ;
}

} // verus!
