//! Alternate-function configuration of the two bus pins.
//!
//! Both pins are placed in alternate-function mode, open-drain (so several
//! devices can share the lines), highest speed, with the weak pull-up
//! enabled (the bus needs pull-ups and no discrete resistors are fitted),
//! and routed to the I2C alternate function.  Every write is
//! read-modify-write: bit-fields of other pins are left exactly as found.

use vstd::prelude::*;

use crate::regs::GpioPort;
use crate::regs::afrh8;
use crate::regs::afrh9;
use crate::regs::moder8;
use crate::regs::moder9;
use crate::regs::ospeedr8;
use crate::regs::ospeedr9;
use crate::regs::ot8;
use crate::regs::ot9;
use crate::regs::pupdr8;
use crate::regs::pupdr9;

verus! {

/// Alternate-function mode encoding of a pin's mode field.
pub const MODE_ALTERNATE: u32 = 0b10;

/// Highest encoding of a pin's output-speed field.
pub const SPEED_HIGH: u32 = 0b11;

/// Pull-up encoding of a pin's pull field.
pub const PULL_UP: u32 = 0b01;

/// Alternate-function index that routes a pin to the I2C controller.
pub const AF_I2C: u32 = 0b0100;

/// Both bus pins carry the full open-drain, high-speed, pulled-up,
/// I2C-routed alternate-function setup.
pub open spec fn i2c_pins_configured(g: GpioPort) -> bool {
    &&& moder8(g.moder) == MODE_ALTERNATE
    &&& moder9(g.moder) == MODE_ALTERNATE
    &&& ot8(g.otyper)
    &&& ot9(g.otyper)
    &&& ospeedr8(g.ospeedr) == SPEED_HIGH
    &&& ospeedr9(g.ospeedr) == SPEED_HIGH
    &&& pupdr8(g.pupdr) == PULL_UP
    &&& pupdr9(g.pupdr) == PULL_UP
    &&& afrh8(g.afrh) == AF_I2C
    &&& afrh9(g.afrh) == AF_I2C
}

/// Every bit-field not belonging to the two bus pins is bit-for-bit what
/// it was: configuration never disturbs fields it does not own.
pub open spec fn other_pins_untouched(pre: GpioPort, post: GpioPort) -> bool {
    &&& post.moder & !0x000F_0000u32 == pre.moder & !0x000F_0000u32
    &&& post.otyper & !0x0000_0300u32 == pre.otyper & !0x0000_0300u32
    &&& post.ospeedr & !0x000F_0000u32 == pre.ospeedr & !0x000F_0000u32
    &&& post.pupdr & !0x000F_0000u32 == pre.pupdr & !0x000F_0000u32
    &&& post.afrh & !0x0000_00FFu32 == pre.afrh & !0x0000_00FFu32
}

/// Put both bus pins into open-drain, high-speed, pulled-up,
/// alternate-function mode routed to the I2C controller.  Pure register
/// mutation; it succeeds on any prior port state and touches no field of
/// any other pin.
pub fn configure(gpio: &mut GpioPort)
    ensures
        i2c_pins_configured(*final(gpio)),
        other_pins_untouched(*old(gpio), *final(gpio)),
{
    let m0 = gpio.moder;
    gpio.moder = (m0 & !0x0003_0000u32) | 0x0002_0000u32;
    let m1 = gpio.moder;
    gpio.moder = (m1 & !0x000C_0000u32) | 0x0008_0000u32;
    proof {
        let m2 = gpio.moder;
        assert((m2 >> 16) & 3 == 2 && (m2 >> 18) & 3 == 2
            && m2 & !0x000F_0000u32 == m0 & !0x000F_0000u32) by (bit_vector)
            requires
                m2 == ((((m0 & !0x0003_0000u32) | 0x0002_0000u32) & !0x000C_0000u32)
                    | 0x0008_0000u32),
        ;
    }

    let t0 = gpio.otyper;
    gpio.otyper = t0 | 0x0000_0100u32;
    let t1 = gpio.otyper;
    gpio.otyper = t1 | 0x0000_0200u32;
    proof {
        let t2 = gpio.otyper;
        assert(t2 & 0x100u32 != 0 && t2 & 0x200u32 != 0
            && t2 & !0x0000_0300u32 == t0 & !0x0000_0300u32) by (bit_vector)
            requires
                t2 == (t0 | 0x0000_0100u32) | 0x0000_0200u32,
        ;
    }

    let s0 = gpio.ospeedr;
    gpio.ospeedr = (s0 & !0x0003_0000u32) | 0x0003_0000u32;
    let s1 = gpio.ospeedr;
    gpio.ospeedr = (s1 & !0x000C_0000u32) | 0x000C_0000u32;
    proof {
        let s2 = gpio.ospeedr;
        assert((s2 >> 16) & 3 == 3 && (s2 >> 18) & 3 == 3
            && s2 & !0x000F_0000u32 == s0 & !0x000F_0000u32) by (bit_vector)
            requires
                s2 == ((((s0 & !0x0003_0000u32) | 0x0003_0000u32) & !0x000C_0000u32)
                    | 0x000C_0000u32),
        ;
    }

    let p0 = gpio.pupdr;
    gpio.pupdr = (p0 & !0x0003_0000u32) | 0x0001_0000u32;
    let p1 = gpio.pupdr;
    gpio.pupdr = (p1 & !0x000C_0000u32) | 0x0004_0000u32;
    proof {
        let p2 = gpio.pupdr;
        assert((p2 >> 16) & 3 == 1 && (p2 >> 18) & 3 == 1
            && p2 & !0x000F_0000u32 == p0 & !0x000F_0000u32) by (bit_vector)
            requires
                p2 == ((((p0 & !0x0003_0000u32) | 0x0001_0000u32) & !0x000C_0000u32)
                    | 0x0004_0000u32),
        ;
    }

    let a0 = gpio.afrh;
    gpio.afrh = (a0 & !0x0000_000Fu32) | 0x0000_0004u32;
    let a1 = gpio.afrh;
    gpio.afrh = (a1 & !0x0000_00F0u32) | 0x0000_0040u32;
    proof {
        let a2 = gpio.afrh;
        assert(a2 & 0xFu32 == 4 && (a2 >> 4) & 0xFu32 == 4
            && a2 & !0x0000_00FFu32 == a0 & !0x0000_00FFu32) by (bit_vector)
            requires
                a2 == ((((a0 & !0x0000_000Fu32) | 0x0000_0004u32) & !0x0000_00F0u32)
                    | 0x0000_0040u32),
        ;
    }
}

} // verus!
