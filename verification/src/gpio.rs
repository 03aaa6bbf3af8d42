//! The register values that set a GPIO pin up as a push-pull output with
//! pull-up, and that drive it, as the LED code of the firmware does.

use vstd::prelude::*;

verus! {

/// The value of a register with two bits per pin (`MODER`, `PUPDR`) after
/// the field of `pin` is set to `0b01`: for `MODER` general-purpose output,
/// for `PUPDR` pull-up.
pub fn set_pin_field_01(register: u32, pin: u32) -> (r: u32)
    requires
        pin < 16,
    ensures
        r == (register & !(0b11u32 << (2 * pin))) | (0b01u32 << (2 * pin)),
        (r >> (2 * pin)) & 0b11 == 0b01,
        forall|q: u32| q < 16 && q != pin ==> (#[trigger] (r >> (2 * q))) & 0b11 == (register >> (2 * q)) & 0b11,
{
    let offset = 2 * pin;
    let r = (register & !(0b11u32 << offset)) | (0b01u32 << offset);
    assert((r >> offset) & 0b11 == 0b01) by (bit_vector)
        requires
            offset < 32,
            r == (register & !(0b11u32 << offset)) | (0b01u32 << offset),
    ;
    assert forall|q: u32| q < 16 && q != pin implies (#[trigger] (r >> (2 * q))) & 0b11 == (register >> (2 * q)) & 0b11 by {
        let o2: u32 = (2 * q) as u32;
        assert((r >> o2) & 0b11 == (register >> o2) & 0b11) by (bit_vector)
            requires
                offset < 32,
                o2 < 32,
                offset % 2 == 0,
                o2 % 2 == 0,
                o2 != offset,
                r == (register & !(0b11u32 << offset)) | (0b01u32 << offset),
        ;
    }
    r
}

/// The value of `OTYPER` after `pin` is made push-pull: its bit cleared.
pub fn set_push_pull(register: u32, pin: u32) -> (r: u32)
    requires
        pin < 32,
    ensures
        r == register & !(0b1u32 << pin),
        (r >> pin) & 1 == 0,
        forall|q: u32| q < 32 && q != pin ==> (#[trigger] (r >> q)) & 1 == (register >> q) & 1,
{
    let r = register & !(0b1u32 << pin);
    assert((r >> pin) & 1 == 0) by (bit_vector)
        requires
            pin < 32,
            r == register & !(0b1u32 << pin),
    ;
    assert forall|q: u32| q < 32 && q != pin implies (#[trigger] (r >> q)) & 1 == (register >> q) & 1 by {
        assert((r >> q) & 1 == (register >> q) & 1) by (bit_vector)
            requires
                pin < 32,
                q < 32,
                q != pin,
                r == register & !(0b1u32 << pin),
        ;
    }
    r
}

/// The value written to `BSRR` to drive `pin` high.
pub fn bsrr_set(pin: u32) -> (r: u32)
    requires
        pin < 32,
    ensures
        r == 1u32 << pin,
{
    1u32 << pin
}

/// The value written to `BSRR` to drive `pin` low: its reset bit, sixteen
/// above its set bit.
pub fn bsrr_reset(pin: u32) -> (r: u32)
    requires
        pin < 16,
    ensures
        r == 1u32 << (pin + 16),
{
    1u32 << (pin + 16)
}

/// The `BSRR` value of a step of the blinking loop: after the counter is
/// advanced to `count`, the pin is driven high on odd counts and low on
/// even ones.
pub fn blink_step(count: u8, pin: u32) -> (r: u32)
    requires
        pin < 16,
    ensures
        count & 1 == 1 ==> r == 1u32 << pin,
        count & 1 != 1 ==> r == 1u32 << (pin + 16),
{
    if count & 1 == 1 {
        bsrr_set(pin)
    } else {
        bsrr_reset(pin)
    }
}

} // verus!
