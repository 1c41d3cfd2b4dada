//! Register-level model of the peripheral blocks the bring-up touches.
//!
//! Each block is a struct of plain 32-bit register words, with spec
//! functions naming the individual bit-fields.  The I2C block additionally
//! carries a simulated bus environment (whether the bus and a slave
//! respond) and a trace of the protocol-visible operations performed on
//! it, so that contracts can pin down both the final register state and
//! the exact order of operations.

use vstd::prelude::*;

verus! {

/// Reset and clock control block: per-peripheral clock-enable registers.
#[derive(Clone, Copy, Debug, PartialEq, Eq, Structural)]
pub struct Rcc {
    pub ahb1enr: u32,
    pub apb1enr: u32,
    pub apb2enr: u32,
}

/// GPIOB clock-enable bit in AHB1ENR.
pub const RCC_GPIOBEN: u32 = 0x2;
/// I2C1 clock-enable bit in APB1ENR.
pub const RCC_I2C1EN: u32 = 0x0020_0000;
/// TIM11 clock-enable bit in APB2ENR.
pub const RCC_TIM11EN: u32 = 0x0004_0000;

pub open spec fn gpioben_set(ahb1enr: u32) -> bool {
    ahb1enr & RCC_GPIOBEN != 0
}

pub open spec fn i2c1en_set(apb1enr: u32) -> bool {
    apb1enr & RCC_I2C1EN != 0
}

pub open spec fn tim11en_set(apb2enr: u32) -> bool {
    apb2enr & RCC_TIM11EN != 0
}

impl Rcc {
    /// Model power-on state: no peripheral clock enabled.
    pub fn power_on() -> (r: Rcc)
        ensures
            r == (Rcc { ahb1enr: 0, apb1enr: 0, apb2enr: 0 }),
    {
        Rcc { ahb1enr: 0, apb1enr: 0, apb2enr: 0 }
    }

    /// Gate the GPIOB port clock on, leaving every other enable bit alone.
    pub fn enable_gpiob(&mut self)
        ensures
            gpioben_set(final(self).ahb1enr),
            final(self).ahb1enr & !RCC_GPIOBEN == old(self).ahb1enr & !RCC_GPIOBEN,
            final(self).apb1enr == old(self).apb1enr,
            final(self).apb2enr == old(self).apb2enr,
    {
        let a = self.ahb1enr;
        self.ahb1enr = a | RCC_GPIOBEN;
        proof {
            assert((a | RCC_GPIOBEN) & RCC_GPIOBEN != 0
                && (a | RCC_GPIOBEN) & !RCC_GPIOBEN == a & !RCC_GPIOBEN) by (bit_vector);
        }
    }

    /// Gate the I2C1 peripheral clock on, leaving every other enable bit alone.
    pub fn enable_i2c1(&mut self)
        ensures
            i2c1en_set(final(self).apb1enr),
            final(self).apb1enr & !RCC_I2C1EN == old(self).apb1enr & !RCC_I2C1EN,
            final(self).ahb1enr == old(self).ahb1enr,
            final(self).apb2enr == old(self).apb2enr,
    {
        let a = self.apb1enr;
        self.apb1enr = a | RCC_I2C1EN;
        proof {
            assert((a | RCC_I2C1EN) & RCC_I2C1EN != 0
                && (a | RCC_I2C1EN) & !RCC_I2C1EN == a & !RCC_I2C1EN) by (bit_vector);
        }
    }

    /// Gate the TIM11 timer clock on, leaving every other enable bit alone.
    pub fn enable_tim11(&mut self)
        ensures
            tim11en_set(final(self).apb2enr),
            final(self).apb2enr & !RCC_TIM11EN == old(self).apb2enr & !RCC_TIM11EN,
            final(self).ahb1enr == old(self).ahb1enr,
            final(self).apb1enr == old(self).apb1enr,
    {
        let a = self.apb2enr;
        self.apb2enr = a | RCC_TIM11EN;
        proof {
            assert((a | RCC_TIM11EN) & RCC_TIM11EN != 0
                && (a | RCC_TIM11EN) & !RCC_TIM11EN == a & !RCC_TIM11EN) by (bit_vector);
        }
    }
}

/// One GPIO port: mode, output-type, speed, pull and alternate-function
/// selection registers.  The two bus pins live at positions 8 and 9, so
/// their two-bit fields sit at bit offsets 16 and 18, their one-bit fields
/// at 8 and 9, and their four-bit alternate-function fields in the low
/// byte of the high selector register.
#[derive(Clone, Copy, Debug, PartialEq, Eq, Structural)]
pub struct GpioPort {
    pub moder: u32,
    pub otyper: u32,
    pub ospeedr: u32,
    pub pupdr: u32,
    pub afrh: u32,
}

pub open spec fn moder8(moder: u32) -> u32 {
    (moder >> 16) & 3
}

pub open spec fn moder9(moder: u32) -> u32 {
    (moder >> 18) & 3
}

pub open spec fn ot8(otyper: u32) -> bool {
    otyper & 0x100 != 0
}

pub open spec fn ot9(otyper: u32) -> bool {
    otyper & 0x200 != 0
}

pub open spec fn ospeedr8(ospeedr: u32) -> u32 {
    (ospeedr >> 16) & 3
}

pub open spec fn ospeedr9(ospeedr: u32) -> u32 {
    (ospeedr >> 18) & 3
}

pub open spec fn pupdr8(pupdr: u32) -> u32 {
    (pupdr >> 16) & 3
}

pub open spec fn pupdr9(pupdr: u32) -> u32 {
    (pupdr >> 18) & 3
}

pub open spec fn afrh8(afrh: u32) -> u32 {
    afrh & 0xF
}

pub open spec fn afrh9(afrh: u32) -> u32 {
    (afrh >> 4) & 0xF
}

impl GpioPort {
    /// Model power-on state: every register word zero.
    pub fn power_on() -> (r: GpioPort)
        ensures
            r == (GpioPort { moder: 0, otyper: 0, ospeedr: 0, pupdr: 0, afrh: 0 }),
    {
        GpioPort { moder: 0, otyper: 0, ospeedr: 0, pupdr: 0, afrh: 0 }
    }
}

/// One protocol-visible operation on the I2C controller.  The trace of
/// these is what the bring-up contracts order: reset before timing setup,
/// timing setup before enable, enable before the handshake.
#[derive(Clone, Copy, Debug, PartialEq, Eq, Structural)]
pub enum I2cEvent {
    /// Software reset asserted and released.
    Reset,
    /// Input-clock-frequency field programmed, in MHz.
    SetFreq(u32),
    /// Clock-control divider programmed.
    SetCcr(u32),
    /// Rise-time register programmed.
    SetTrise(u32),
    /// Peripheral-enable bit set.
    Enable,
    /// Acknowledge-enable bit set.
    AckSet,
    /// START-condition control bit asserted.
    Start,
    /// Address byte written to the data register.
    WriteAddr(u8),
    /// Status register 1 read (first half of the address-clear sequence).
    ReadSr1,
    /// Status register 2 read (second half of the address-clear sequence).
    ReadSr2,
}

/// The register words of the I2C controller.
#[derive(Clone, Copy, Debug, PartialEq, Eq, Structural)]
pub struct I2cRegs {
    pub cr1: u32,
    pub cr2: u32,
    pub ccr: u32,
    pub trise: u32,
    pub sr1: u32,
    pub sr2: u32,
    pub dr: u32,
}

/// Simulated bus environment: whether the wires and a slave respond.
/// On real hardware these stand for electrical conditions the controller
/// cannot influence; the model keeps them fixed per run.
#[derive(Clone, Copy, Debug, PartialEq, Eq, Structural)]
pub struct I2cBus {
    /// The bus is electrically sound, so an asserted START condition is
    /// eventually generated and reported in the status register.
    pub bus_ready: bool,
    /// A slave at the addressed location acknowledges its address.
    pub slave_present: bool,
}

/// Peripheral-enable bit in CR1.
pub const I2C_CR1_PE: u32 = 0x1;
/// START-condition control bit in CR1.
pub const I2C_CR1_START: u32 = 0x100;
/// Acknowledge-enable bit in CR1.
pub const I2C_CR1_ACK: u32 = 0x400;
/// Software-reset bit in CR1.
pub const I2C_CR1_SWRST: u32 = 0x8000;
/// Event-interrupt-enable bit in CR2.
pub const I2C_CR2_ITEVTEN: u32 = 0x200;
/// "Start generated" status bit in SR1.
pub const I2C_SR1_SB: u32 = 0x1;
/// "Address matched" status bit in SR1.
pub const I2C_SR1_ADDR: u32 = 0x2;

pub open spec fn pe_set(cr1: u32) -> bool {
    cr1 & I2C_CR1_PE != 0
}

pub open spec fn start_set(cr1: u32) -> bool {
    cr1 & I2C_CR1_START != 0
}

pub open spec fn ack_set(cr1: u32) -> bool {
    cr1 & I2C_CR1_ACK != 0
}

pub open spec fn itevten_set(cr2: u32) -> bool {
    cr2 & I2C_CR2_ITEVTEN != 0
}

/// Input-clock-frequency field: the low six bits of CR2, in MHz.
pub open spec fn freq_field(cr2: u32) -> u32 {
    cr2 & 0x3F
}

/// Clock-control divider: the low twelve bits of CCR.
pub open spec fn ccr_field(ccr: u32) -> u32 {
    ccr & 0xFFF
}

/// Fast/standard mode selection bit of CCR; clear means standard speed.
pub open spec fn fast_mode_set(ccr: u32) -> bool {
    ccr & 0x8000 != 0
}

/// Fast-mode duty-cycle selection bit of CCR; clear means the plain ratio.
pub open spec fn duty_set(ccr: u32) -> bool {
    ccr & 0x4000 != 0
}

/// Rise-time field: the low six bits of TRISE.
pub open spec fn trise_field(trise: u32) -> u32 {
    trise & 0x3F
}

pub open spec fn sb_set(sr1: u32) -> bool {
    sr1 & I2C_SR1_SB != 0
}

pub open spec fn addr_set(sr1: u32) -> bool {
    sr1 & I2C_SR1_ADDR != 0
}

/// The I2C controller: register words, the simulated bus it is wired to,
/// and the trace of protocol-visible operations performed on it.
pub struct I2cPeriph {
    pub regs: I2cRegs,
    pub bus: I2cBus,
    pub trace: Vec<I2cEvent>,
}

impl I2cPeriph {
    /// Model power-on state: every register word zero, no operations yet.
    pub fn power_on(bus_ready: bool, slave_present: bool) -> (r: I2cPeriph)
        ensures
            r.regs == (I2cRegs { cr1: 0, cr2: 0, ccr: 0, trise: 0, sr1: 0, sr2: 0, dr: 0 }),
            r.bus == (I2cBus { bus_ready, slave_present }),
            r.trace@ == Seq::<I2cEvent>::empty(),
    {
        I2cPeriph {
            regs: I2cRegs { cr1: 0, cr2: 0, ccr: 0, trise: 0, sr1: 0, sr2: 0, dr: 0 },
            bus: I2cBus { bus_ready, slave_present },
            trace: Vec::new(),
        }
    }

    /// Assert and release the software-reset bit.  Whatever transaction
    /// state survived a warm restart, the peripheral comes out in the
    /// known all-clear state.
    pub fn reset(&mut self)
        ensures
            final(self).regs == (I2cRegs { cr1: 0, cr2: 0, ccr: 0, trise: 0, sr1: 0, sr2: 0, dr: 0 }),
            final(self).bus == old(self).bus,
            final(self).trace@ == old(self).trace@.push(I2cEvent::Reset),
    {
        self.regs.cr1 = I2C_CR1_SWRST;
        self.regs = I2cRegs { cr1: 0, cr2: 0, ccr: 0, trise: 0, sr1: 0, sr2: 0, dr: 0 };
        self.trace.push(I2cEvent::Reset);
    }

    /// Program the input-clock-frequency field of CR2 with the bus clock
    /// in MHz; every computed timing downstream depends on it.
    pub fn set_freq(&mut self, mhz: u32)
        requires
            mhz < 64,
        ensures
            freq_field(final(self).regs.cr2) == mhz,
            final(self).regs.cr2 & !0x3Fu32 == old(self).regs.cr2 & !0x3Fu32,
            final(self).regs == (I2cRegs { cr2: final(self).regs.cr2, ..old(self).regs }),
            final(self).bus == old(self).bus,
            final(self).trace@ == old(self).trace@.push(I2cEvent::SetFreq(mhz)),
    {
        let c = self.regs.cr2;
        self.regs.cr2 = (c & !0x3Fu32) | mhz;
        self.trace.push(I2cEvent::SetFreq(mhz));
        proof {
            assert(((c & !0x3Fu32) | mhz) & 0x3Fu32 == mhz
                && ((c & !0x3Fu32) | mhz) & !0x3Fu32 == c & !0x3Fu32) by (bit_vector)
                requires
                    mhz < 64,
            ;
        }
    }

    /// Set the event-interrupt-enable bit of CR2.  No handler exists in
    /// this core; the bit is programmed but inert, kept as configured
    /// because the hardware sequence sets it.
    pub fn enable_event_interrupt(&mut self)
        ensures
            itevten_set(final(self).regs.cr2),
            freq_field(final(self).regs.cr2) == freq_field(old(self).regs.cr2),
            final(self).regs.cr2 & !I2C_CR2_ITEVTEN == old(self).regs.cr2 & !I2C_CR2_ITEVTEN,
            final(self).regs == (I2cRegs { cr2: final(self).regs.cr2, ..old(self).regs }),
            final(self).bus == old(self).bus,
            final(self).trace@ == old(self).trace@,
    {
        let c = self.regs.cr2;
        self.regs.cr2 = c | I2C_CR2_ITEVTEN;
        proof {
            assert((c | I2C_CR2_ITEVTEN) & I2C_CR2_ITEVTEN != 0
                && (c | I2C_CR2_ITEVTEN) & 0x3Fu32 == c & 0x3Fu32
                && (c | I2C_CR2_ITEVTEN) & !I2C_CR2_ITEVTEN == c & !I2C_CR2_ITEVTEN) by (bit_vector);
        }
    }

    /// Clear the fast-mode and duty bits of CCR: standard bus speed with
    /// the plain clock ratio.
    pub fn select_standard_mode(&mut self)
        ensures
            !fast_mode_set(final(self).regs.ccr),
            !duty_set(final(self).regs.ccr),
            ccr_field(final(self).regs.ccr) == ccr_field(old(self).regs.ccr),
            final(self).regs.ccr == old(self).regs.ccr & !0xC000u32,
            final(self).regs == (I2cRegs { ccr: final(self).regs.ccr, ..old(self).regs }),
            final(self).bus == old(self).bus,
            final(self).trace@ == old(self).trace@,
    {
        let c = self.regs.ccr;
        self.regs.ccr = c & !0xC000u32;
        proof {
            assert((c & !0xC000u32) & 0x8000u32 == 0
                && (c & !0xC000u32) & 0x4000u32 == 0
                && (c & !0xC000u32) & 0xFFFu32 == c & 0xFFFu32) by (bit_vector);
        }
    }

    /// Program the clock-control divider field of CCR.  The hardware
    /// contract forbids writing it while the peripheral is enabled.
    pub fn set_ccr(&mut self, divider: u32)
        requires
            divider < 4096,
            !pe_set(old(self).regs.cr1),
        ensures
            ccr_field(final(self).regs.ccr) == divider,
            fast_mode_set(final(self).regs.ccr) == fast_mode_set(old(self).regs.ccr),
            duty_set(final(self).regs.ccr) == duty_set(old(self).regs.ccr),
            final(self).regs.ccr & !0xFFFu32 == old(self).regs.ccr & !0xFFFu32,
            final(self).regs == (I2cRegs { ccr: final(self).regs.ccr, ..old(self).regs }),
            final(self).bus == old(self).bus,
            final(self).trace@ == old(self).trace@.push(I2cEvent::SetCcr(divider)),
    {
        let c = self.regs.ccr;
        self.regs.ccr = (c & !0xFFFu32) | divider;
        self.trace.push(I2cEvent::SetCcr(divider));
        proof {
            assert(((c & !0xFFFu32) | divider) & 0xFFFu32 == divider
                && ((c & !0xFFFu32) | divider) & 0x8000u32 == c & 0x8000u32
                && ((c & !0xFFFu32) | divider) & 0x4000u32 == c & 0x4000u32
                && ((c & !0xFFFu32) | divider) & !0xFFFu32 == c & !0xFFFu32) by (bit_vector)
                requires
                    divider < 4096,
            ;
        }
    }

    /// Program the rise-time register.  The hardware contract forbids
    /// writing it while the peripheral is enabled.
    pub fn set_trise(&mut self, rise: u32)
        requires
            rise < 64,
            !pe_set(old(self).regs.cr1),
        ensures
            trise_field(final(self).regs.trise) == rise,
            final(self).regs.trise & !0x3Fu32 == old(self).regs.trise & !0x3Fu32,
            final(self).regs == (I2cRegs { trise: final(self).regs.trise, ..old(self).regs }),
            final(self).bus == old(self).bus,
            final(self).trace@ == old(self).trace@.push(I2cEvent::SetTrise(rise)),
    {
        let t = self.regs.trise;
        self.regs.trise = (t & !0x3Fu32) | rise;
        self.trace.push(I2cEvent::SetTrise(rise));
        proof {
            assert(((t & !0x3Fu32) | rise) & 0x3Fu32 == rise
                && ((t & !0x3Fu32) | rise) & !0x3Fu32 == t & !0x3Fu32) by (bit_vector)
                requires
                    rise < 64,
            ;
        }
    }

    /// Set the peripheral-enable bit.  Must come after the timing
    /// registers are programmed; the contracts of `set_ccr` and
    /// `set_trise` enforce that order.
    pub fn enable(&mut self)
        ensures
            pe_set(final(self).regs.cr1),
            final(self).regs.cr1 & !I2C_CR1_PE == old(self).regs.cr1 & !I2C_CR1_PE,
            final(self).regs == (I2cRegs { cr1: final(self).regs.cr1, ..old(self).regs }),
            final(self).bus == old(self).bus,
            final(self).trace@ == old(self).trace@.push(I2cEvent::Enable),
    {
        let c = self.regs.cr1;
        self.regs.cr1 = c | I2C_CR1_PE;
        self.trace.push(I2cEvent::Enable);
        proof {
            assert((c | I2C_CR1_PE) & I2C_CR1_PE != 0
                && (c | I2C_CR1_PE) & !I2C_CR1_PE == c & !I2C_CR1_PE) by (bit_vector);
        }
    }

    /// Set the acknowledge-enable bit, so the peripheral acknowledges
    /// incoming bytes on its own.
    pub fn set_ack(&mut self)
        ensures
            ack_set(final(self).regs.cr1),
            final(self).regs.cr1 & !I2C_CR1_ACK == old(self).regs.cr1 & !I2C_CR1_ACK,
            final(self).regs == (I2cRegs { cr1: final(self).regs.cr1, ..old(self).regs }),
            final(self).bus == old(self).bus,
            final(self).trace@ == old(self).trace@.push(I2cEvent::AckSet),
    {
        let c = self.regs.cr1;
        self.regs.cr1 = c | I2C_CR1_ACK;
        self.trace.push(I2cEvent::AckSet);
        proof {
            assert((c | I2C_CR1_ACK) & I2C_CR1_ACK != 0
                && (c | I2C_CR1_ACK) & !I2C_CR1_ACK == c & !I2C_CR1_ACK) by (bit_vector);
        }
    }

    /// Assert the START-condition control bit.  On a responding bus the
    /// hardware raises the "start generated" status flag; on a stuck bus
    /// the flag never rises, and only a bounded poll can notice that.
    pub fn generate_start(&mut self)
        ensures
            start_set(final(self).regs.cr1),
            final(self).regs.cr1 & !I2C_CR1_START == old(self).regs.cr1 & !I2C_CR1_START,
            sb_set(final(self).regs.sr1) == (old(self).bus.bus_ready || sb_set(old(self).regs.sr1)),
            final(self).regs.sr1 & !I2C_SR1_SB == old(self).regs.sr1 & !I2C_SR1_SB,
            final(self).regs == (I2cRegs {
                cr1: final(self).regs.cr1,
                sr1: final(self).regs.sr1,
                ..old(self).regs
            }),
            final(self).bus == old(self).bus,
            final(self).trace@ == old(self).trace@.push(I2cEvent::Start),
    {
        let c = self.regs.cr1;
        self.regs.cr1 = c | I2C_CR1_START;
        if self.bus.bus_ready {
            let s = self.regs.sr1;
            self.regs.sr1 = s | I2C_SR1_SB;
            proof {
                assert((s | I2C_SR1_SB) & I2C_SR1_SB != 0
                    && (s | I2C_SR1_SB) & !I2C_SR1_SB == s & !I2C_SR1_SB) by (bit_vector);
            }
        }
        self.trace.push(I2cEvent::Start);
        proof {
            assert((c | I2C_CR1_START) & I2C_CR1_START != 0
                && (c | I2C_CR1_START) & !I2C_CR1_START == c & !I2C_CR1_START) by (bit_vector);
        }
    }

    /// Whether the "start generated" status flag is up (a side-effect-free
    /// status peek, used by the bounded polls).
    pub fn start_generated(&self) -> (b: bool)
        ensures
            b == sb_set(self.regs.sr1),
    {
        self.regs.sr1 & I2C_SR1_SB != 0
    }

    /// Write the address byte into the data register.  A present slave
    /// recognizes its address and the hardware raises the "address
    /// matched" status flag; with no slave the flag never rises.
    pub fn write_dr(&mut self, byte: u8)
        ensures
            final(self).regs.dr == byte as u32,
            addr_set(final(self).regs.sr1) == (old(self).bus.slave_present
                || addr_set(old(self).regs.sr1)),
            final(self).regs.sr1 & !I2C_SR1_ADDR == old(self).regs.sr1 & !I2C_SR1_ADDR,
            final(self).regs == (I2cRegs {
                dr: final(self).regs.dr,
                sr1: final(self).regs.sr1,
                ..old(self).regs
            }),
            final(self).bus == old(self).bus,
            final(self).trace@ == old(self).trace@.push(I2cEvent::WriteAddr(byte)),
    {
        self.regs.dr = byte as u32;
        if self.bus.slave_present {
            let s = self.regs.sr1;
            self.regs.sr1 = s | I2C_SR1_ADDR;
            proof {
                assert((s | I2C_SR1_ADDR) & I2C_SR1_ADDR != 0
                    && (s | I2C_SR1_ADDR) & !I2C_SR1_ADDR == s & !I2C_SR1_ADDR) by (bit_vector);
            }
        }
        self.trace.push(I2cEvent::WriteAddr(byte));
    }

    /// Whether the "address matched" status flag is up (a side-effect-free
    /// status peek, used by the bounded polls).
    pub fn addr_matched(&self) -> (b: bool)
        ensures
            b == addr_set(self.regs.sr1),
    {
        self.regs.sr1 & I2C_SR1_ADDR != 0
    }

    /// Read status register 1: the first half of the side-effecting
    /// read sequence that acknowledges an address match.
    pub fn read_sr1(&mut self) -> (r: u32)
        ensures
            r == old(self).regs.sr1,
            final(self).regs == old(self).regs,
            final(self).bus == old(self).bus,
            final(self).trace@ == old(self).trace@.push(I2cEvent::ReadSr1),
    {
        self.trace.push(I2cEvent::ReadSr1);
        self.regs.sr1
    }

    /// Read status register 2, completing the SR1-then-SR2 sequence the
    /// hardware documents for clearing the "address matched" flag.
    pub fn read_sr2(&mut self) -> (r: u32)
        ensures
            r == old(self).regs.sr2,
            !addr_set(final(self).regs.sr1),
            final(self).regs.sr1 == old(self).regs.sr1 & !I2C_SR1_ADDR,
            final(self).regs == (I2cRegs { sr1: final(self).regs.sr1, ..old(self).regs }),
            final(self).bus == old(self).bus,
            final(self).trace@ == old(self).trace@.push(I2cEvent::ReadSr2),
    {
        let s = self.regs.sr1;
        self.regs.sr1 = s & !I2C_SR1_ADDR;
        self.trace.push(I2cEvent::ReadSr2);
        proof {
            assert((s & !I2C_SR1_ADDR) & I2C_SR1_ADDR == 0) by (bit_vector);
        }
        self.regs.sr2
    }
}

/// The register words of the free-running timer.
#[derive(Clone, Copy, Debug, PartialEq, Eq, Structural)]
pub struct TimerRegs {
    pub psc: u32,
    pub arr: u32,
    pub cr1: u32,
    pub sr: u32,
}

/// Counter-enable bit in the timer's CR1.
pub const TIM_CR1_CEN: u32 = 0x1;
/// Update-event flag in the timer's status register.
pub const TIM_SR_UIF: u32 = 0x1;

pub open spec fn cen_set(cr1: u32) -> bool {
    cr1 & TIM_CR1_CEN != 0
}

pub open spec fn uif_set(sr: u32) -> bool {
    sr & TIM_SR_UIF != 0
}

/// The free-running timer, with its simulated clock input: `ticking`
/// stands for a live counter clock, without which the update-event flag
/// never rises.
#[derive(Clone, Copy, Debug, PartialEq, Eq, Structural)]
pub struct Timer {
    pub regs: TimerRegs,
    pub ticking: bool,
}

impl Timer {
    /// Model power-on state: every register word zero.
    pub fn power_on(ticking: bool) -> (r: Timer)
        ensures
            r == (Timer { regs: TimerRegs { psc: 0, arr: 0, cr1: 0, sr: 0 }, ticking }),
    {
        Timer { regs: TimerRegs { psc: 0, arr: 0, cr1: 0, sr: 0 }, ticking }
    }

    /// Program the prescaler register.
    pub fn set_psc(&mut self, value: u32)
        requires
            value < 0x10000,
        ensures
            final(self).regs == (TimerRegs { psc: value, ..old(self).regs }),
            final(self).ticking == old(self).ticking,
    {
        self.regs.psc = value;
    }

    /// Program the auto-reload register.
    pub fn set_arr(&mut self, value: u32)
        requires
            value < 0x10000,
        ensures
            final(self).regs == (TimerRegs { arr: value, ..old(self).regs }),
            final(self).ticking == old(self).ticking,
    {
        self.regs.arr = value;
    }

    /// Set the counter-enable bit.  With a live clock the counter runs
    /// through a period and the update-event flag rises.
    pub fn enable(&mut self)
        ensures
            cen_set(final(self).regs.cr1),
            final(self).regs.cr1 & !TIM_CR1_CEN == old(self).regs.cr1 & !TIM_CR1_CEN,
            uif_set(final(self).regs.sr) == (old(self).ticking || uif_set(old(self).regs.sr)),
            final(self).regs.sr & !TIM_SR_UIF == old(self).regs.sr & !TIM_SR_UIF,
            final(self).regs == (TimerRegs {
                cr1: final(self).regs.cr1,
                sr: final(self).regs.sr,
                ..old(self).regs
            }),
            final(self).ticking == old(self).ticking,
    {
        let c = self.regs.cr1;
        self.regs.cr1 = c | TIM_CR1_CEN;
        if self.ticking {
            let s = self.regs.sr;
            self.regs.sr = s | TIM_SR_UIF;
            proof {
                assert((s | TIM_SR_UIF) & TIM_SR_UIF != 0
                    && (s | TIM_SR_UIF) & !TIM_SR_UIF == s & !TIM_SR_UIF) by (bit_vector);
            }
        }
        proof {
            assert((c | TIM_CR1_CEN) & TIM_CR1_CEN != 0
                && (c | TIM_CR1_CEN) & !TIM_CR1_CEN == c & !TIM_CR1_CEN) by (bit_vector);
        }
    }

    /// Whether the update-event flag is up (a side-effect-free status
    /// peek, used by the bounded polls).
    pub fn update_flagged(&self) -> (b: bool)
        ensures
            b == uif_set(self.regs.sr),
    {
        self.regs.sr & TIM_SR_UIF != 0
    }
}

} // verus!
