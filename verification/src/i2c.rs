//! I2C master bring-up: timing-register programming derived from the bus
//! clock, and the START-condition and address phases of the protocol.
//!
//! The configuration order is fixed by hardware contracts: software reset
//! first (a known state regardless of what a warm restart left behind),
//! then the input-clock field, then the timing registers — which may only
//! be written while the peripheral-enable bit is clear — and the enable
//! bit last.  The protocol phases synchronize with the hardware purely by
//! polling status flags; every poll here is bounded and a flag that never
//! rises surfaces as a typed error instead of a hang.

use vstd::prelude::*;

use crate::DriverError;
use crate::POLL_LIMIT;
use crate::gpio;
use crate::gpio::i2c_pins_configured;
use crate::gpio::other_pins_untouched;
use crate::regs::GpioPort;
use crate::regs::I2C_CR1_ACK;
use crate::regs::I2C_CR1_PE;
use crate::regs::I2C_CR1_START;
use crate::regs::I2C_SR1_ADDR;
use crate::regs::I2C_SR1_SB;
use crate::regs::I2cEvent;
use crate::regs::I2cPeriph;
use crate::regs::I2cRegs;
use crate::regs::RCC_GPIOBEN;
use crate::regs::RCC_I2C1EN;
use crate::regs::Rcc;
use crate::regs::ack_set;
use crate::regs::addr_set;
use crate::regs::ccr_field;
use crate::regs::duty_set;
use crate::regs::fast_mode_set;
use crate::regs::freq_field;
use crate::regs::gpioben_set;
use crate::regs::i2c1en_set;
use crate::regs::itevten_set;
use crate::regs::pe_set;
use crate::regs::sb_set;
use crate::regs::start_set;
use crate::regs::trise_field;

verus! {

/// Peripheral input clock in whole MHz, as the frequency field wants it.
pub open spec fn freq_mhz_of(pclk_hz: u32) -> u32 {
    pclk_hz / 1_000_000
}

/// Vendor formula for the standard-mode clock-control divider with the
/// plain duty ratio: the bus clock divided by twice the target bus speed.
pub open spec fn ccr_for(pclk_hz: u32, scl_hz: u32) -> int {
    pclk_hz as int / (2 * scl_hz as int)
}

/// Vendor formula for the standard-mode rise-time register: the input
/// clock in MHz plus one.
pub open spec fn trise_for(pclk_hz: u32) -> u32 {
    (freq_mhz_of(pclk_hz) + 1) as u32
}

/// Input clock in whole MHz for the frequency field.
pub fn freq_mhz(pclk_hz: u32) -> (r: u32)
    ensures
        r == freq_mhz_of(pclk_hz),
{
    pclk_hz / 1_000_000
}

/// Clock-control divider for a standard-mode bus at `scl_hz` fed from
/// `pclk_hz`, by the vendor formula `pclk / (2 * scl)`.
pub fn ccr_value(pclk_hz: u32, scl_hz: u32) -> (r: u32)
    requires
        scl_hz >= 1,
    ensures
        r == ccr_for(pclk_hz, scl_hz),
{
    proof {
        vstd::arithmetic::div_mod::lemma_div_denominator(pclk_hz as int, 2, scl_hz as int);
    }
    (pclk_hz / 2) / scl_hz
}

/// Rise-time register value for a standard-mode bus fed from `pclk_hz`,
/// by the vendor formula `mhz + 1`.
pub fn trise_value(pclk_hz: u32) -> (r: u32)
    ensures
        r == trise_for(pclk_hz),
{
    pclk_hz / 1_000_000 + 1
}

/// The controller carries the full standard-mode configuration derived
/// from `pclk_hz` and `scl_hz`: frequency field, divider and rise time by
/// the vendor formulas, event interrupts enabled (inert: no handler
/// exists), peripheral enabled, status and data registers clear.
pub open spec fn i2c_configured(r: I2cRegs, pclk_hz: u32, scl_hz: u32) -> bool {
    &&& pe_set(r.cr1)
    &&& r.cr1 & !I2C_CR1_PE == 0
    &&& freq_field(r.cr2) == freq_mhz_of(pclk_hz)
    &&& itevten_set(r.cr2)
    &&& ccr_field(r.ccr) == ccr_for(pclk_hz, scl_hz)
    &&& !fast_mode_set(r.ccr)
    &&& !duty_set(r.ccr)
    &&& trise_field(r.trise) == trise_for(pclk_hz)
    &&& r.sr1 == 0
    &&& r.dr == 0
}

/// The exact operation order `configure` performs on the controller.
pub open spec fn config_trace(pclk_hz: u32, scl_hz: u32) -> Seq<I2cEvent> {
    seq![
        I2cEvent::Reset,
        I2cEvent::SetFreq(freq_mhz_of(pclk_hz)),
        I2cEvent::SetCcr(ccr_for(pclk_hz, scl_hz) as u32),
        I2cEvent::SetTrise(trise_for(pclk_hz)),
        I2cEvent::Enable,
    ]
}

/// Program the controller for a standard-mode bus at `scl_hz` fed from a
/// stable `pclk_hz` peripheral clock, in the hardware-mandated order:
/// reset, frequency field, event-interrupt enable, standard mode with the
/// plain duty ratio, divider, rise time, and the enable bit last.
pub fn configure(i2c: &mut I2cPeriph, pclk_hz: u32, scl_hz: u32)
    requires
        scl_hz >= 1,
        freq_mhz_of(pclk_hz) <= 62,
        ccr_for(pclk_hz, scl_hz) < 4096,
    ensures
        i2c_configured(final(i2c).regs, pclk_hz, scl_hz),
        final(i2c).bus == old(i2c).bus,
        final(i2c).trace@ == old(i2c).trace@ + config_trace(pclk_hz, scl_hz),
{
    let mhz = freq_mhz(pclk_hz);
    let divider = ccr_value(pclk_hz, scl_hz);
    let rise = mhz + 1;
    i2c.reset();
    i2c.set_freq(mhz);
    i2c.enable_event_interrupt();
    i2c.select_standard_mode();
    proof {
        assert(0u32 & I2C_CR1_PE == 0 && 0u32 & !I2C_CR1_PE == 0) by (bit_vector);
    }
    i2c.set_ccr(divider);
    i2c.set_trise(rise);
    i2c.enable();
    proof {
        assert(i2c.trace@ =~= old(i2c).trace@ + config_trace(pclk_hz, scl_hz));
    }
}

/// The bus environment lets a START condition complete: either the wires
/// respond, or the "start generated" flag is somehow already up.
pub open spec fn bus_responds(i: I2cPeriph) -> bool {
    i.bus.bus_ready || sb_set(i.regs.sr1)
}

/// A slave answers the address phase: either one is present, or the
/// "address matched" flag is somehow already up.
pub open spec fn slave_responds(i: I2cPeriph) -> bool {
    i.bus.slave_present || addr_set(i.regs.sr1)
}

/// Bounded wait for the "start generated" status flag: peek at the flag
/// up to `attempts` times, reporting whether it was seen up.
pub fn wait_start_generated(i2c: &I2cPeriph, attempts: u32) -> (seen: bool)
    ensures
        seen == (attempts > 0 && sb_set(i2c.regs.sr1)),
{
    let mut i: u32 = 0;
    while i < attempts
        invariant
            i <= attempts,
            i > 0 ==> !sb_set(i2c.regs.sr1),
        decreases attempts - i,
    {
        if i2c.start_generated() {
            return true;
        }
        i = i + 1;
    }
    false
}

/// Bounded wait for the "address matched" status flag: peek at the flag
/// up to `attempts` times, reporting whether it was seen up.
pub fn wait_addr_matched(i2c: &I2cPeriph, attempts: u32) -> (seen: bool)
    ensures
        seen == (attempts > 0 && addr_set(i2c.regs.sr1)),
{
    let mut i: u32 = 0;
    while i < attempts
        invariant
            i <= attempts,
            i > 0 ==> !addr_set(i2c.regs.sr1),
        decreases attempts - i,
    {
        if i2c.addr_matched() {
            return true;
        }
        i = i + 1;
    }
    false
}

/// Drive the START-condition phase: enable automatic acknowledgment,
/// assert the START control bit — in that order — then wait, boundedly,
/// for the "start generated" flag.  On a bus that never reports the
/// condition the wait expires into `BusNotReady`.
pub fn i2c_start(i2c: &mut I2cPeriph) -> (r: Result<(), DriverError>)
    ensures
        ack_set(final(i2c).regs.cr1),
        start_set(final(i2c).regs.cr1),
        final(i2c).regs.cr1 & !0x500u32 == old(i2c).regs.cr1 & !0x500u32,
        sb_set(final(i2c).regs.sr1) == bus_responds(*old(i2c)),
        final(i2c).regs.sr1 & !I2C_SR1_SB == old(i2c).regs.sr1 & !I2C_SR1_SB,
        final(i2c).regs == (I2cRegs {
            cr1: final(i2c).regs.cr1,
            sr1: final(i2c).regs.sr1,
            ..old(i2c).regs
        }),
        final(i2c).bus == old(i2c).bus,
        final(i2c).trace@ == old(i2c).trace@ + seq![I2cEvent::AckSet, I2cEvent::Start],
        bus_responds(*old(i2c)) ==> r == Ok::<(), DriverError>(()),
        !bus_responds(*old(i2c)) ==> r == Err::<(), DriverError>(DriverError::BusNotReady),
{
    let ghost c0 = i2c.regs.cr1;
    i2c.set_ack();
    let ghost c1 = i2c.regs.cr1;
    i2c.generate_start();
    let ghost c2 = i2c.regs.cr1;
    proof {
        assert(c2 & I2C_CR1_ACK != 0 && c2 & !0x500u32 == c0 & !0x500u32) by (bit_vector)
            requires
                c1 & I2C_CR1_ACK != 0,
                c1 & !I2C_CR1_ACK == c0 & !I2C_CR1_ACK,
                c2 & I2C_CR1_START != 0,
                c2 & !I2C_CR1_START == c1 & !I2C_CR1_START,
        ;
        assert(i2c.trace@ =~= old(i2c).trace@ + seq![I2cEvent::AckSet, I2cEvent::Start]);
    }
    if wait_start_generated(i2c, POLL_LIMIT) {
        Ok(())
    } else {
        Err(DriverError::BusNotReady)
    }
}

/// Drive the address phase: write the address byte (direction already
/// embedded in its low bit, per bus convention) into the data register,
/// wait boundedly for the "address matched" flag, and on a match perform
/// the documented SR1-then-SR2 read sequence that clears it, discarding
/// the read values.  A slave that never answers surfaces as
/// `AddressNack`, with the address byte written but no clear sequence.
pub fn i2c_address(address: u8, i2c: &mut I2cPeriph) -> (r: Result<(), DriverError>)
    ensures
        final(i2c).regs.dr == address as u32,
        final(i2c).regs.sr1 & !I2C_SR1_ADDR == old(i2c).regs.sr1 & !I2C_SR1_ADDR,
        final(i2c).regs == (I2cRegs {
            dr: final(i2c).regs.dr,
            sr1: final(i2c).regs.sr1,
            ..old(i2c).regs
        }),
        final(i2c).bus == old(i2c).bus,
        slave_responds(*old(i2c)) ==> r == Ok::<(), DriverError>(()),
        slave_responds(*old(i2c)) ==> !addr_set(final(i2c).regs.sr1),
        slave_responds(*old(i2c)) ==> final(i2c).trace@ == old(i2c).trace@
            + seq![I2cEvent::WriteAddr(address), I2cEvent::ReadSr1, I2cEvent::ReadSr2],
        !slave_responds(*old(i2c)) ==> r == Err::<(), DriverError>(DriverError::AddressNack),
        !slave_responds(*old(i2c)) ==> !addr_set(final(i2c).regs.sr1),
        !slave_responds(*old(i2c)) ==> final(i2c).trace@ == old(i2c).trace@
            + seq![I2cEvent::WriteAddr(address)],
{
    let ghost s0 = i2c.regs.sr1;
    i2c.write_dr(address);
    let ghost s1 = i2c.regs.sr1;
    if wait_addr_matched(i2c, POLL_LIMIT) {
        let _sr1 = i2c.read_sr1();
        let _sr2 = i2c.read_sr2();
        proof {
            assert((s1 & !I2C_SR1_ADDR) & !I2C_SR1_ADDR == s0 & !I2C_SR1_ADDR) by (bit_vector)
                requires
                    s1 & !I2C_SR1_ADDR == s0 & !I2C_SR1_ADDR,
            ;
            assert(i2c.trace@ =~= old(i2c).trace@
                + seq![I2cEvent::WriteAddr(address), I2cEvent::ReadSr1, I2cEvent::ReadSr2]);
        }
        Ok(())
    } else {
        proof {
            assert(i2c.trace@ =~= old(i2c).trace@ + seq![I2cEvent::WriteAddr(address)]);
        }
        Err(DriverError::AddressNack)
    }
}

/// Full I2C bring-up as one step: gate the controller and port clocks on,
/// put the two bus pins into their alternate function, and configure the
/// controller for the standard-mode bus.
pub fn i2c_config(rcc: &mut Rcc, gpio: &mut GpioPort, i2c: &mut I2cPeriph, pclk_hz: u32, scl_hz: u32)
    requires
        scl_hz >= 1,
        freq_mhz_of(pclk_hz) <= 62,
        ccr_for(pclk_hz, scl_hz) < 4096,
    ensures
        i2c1en_set(final(rcc).apb1enr),
        gpioben_set(final(rcc).ahb1enr),
        final(rcc).apb1enr & !RCC_I2C1EN == old(rcc).apb1enr & !RCC_I2C1EN,
        final(rcc).ahb1enr & !RCC_GPIOBEN == old(rcc).ahb1enr & !RCC_GPIOBEN,
        final(rcc).apb2enr == old(rcc).apb2enr,
        i2c_pins_configured(*final(gpio)),
        other_pins_untouched(*old(gpio), *final(gpio)),
        i2c_configured(final(i2c).regs, pclk_hz, scl_hz),
        final(i2c).bus == old(i2c).bus,
        final(i2c).trace@ == old(i2c).trace@ + config_trace(pclk_hz, scl_hz),
{
    rcc.enable_i2c1();
    rcc.enable_gpiob();
    gpio::configure(gpio);
    configure(i2c, pclk_hz, scl_hz);
}

} // verus!
