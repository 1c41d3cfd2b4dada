//! Program-level sequencing: one-time acquisition of the peripheral
//! blocks and the fixed bring-up order.
//!
//! The register blocks are owned exclusively by a single control flow for
//! the life of the process.  `Board::take` hands them out exactly once
//! and fails closed on any further attempt.  `run_sequence` then performs
//! the whole bring-up — timer, clock gating, pins, controller, START
//! condition, address phase — stopping at the first bounded wait that
//! expires.  The caller is expected to idle forever afterwards; the
//! terminal idle loop itself is not part of the library.

use vstd::prelude::*;

use crate::DriverError;
use crate::gpio::i2c_pins_configured;
use crate::gpio::other_pins_untouched;
use crate::i2c::ccr_for;
use crate::i2c::config_trace;
use crate::i2c::freq_mhz_of;
use crate::i2c::i2c_address;
use crate::i2c::i2c_config;
use crate::i2c::i2c_start;
use crate::i2c::trise_for;
use crate::regs::GpioPort;
use crate::regs::I2cBus;
use crate::regs::I2cEvent;
use crate::regs::I2cPeriph;
use crate::regs::I2cRegs;
use crate::regs::Rcc;
use crate::regs::Timer;
use crate::regs::TimerRegs;
use crate::regs::ack_set;
use crate::regs::addr_set;
use crate::regs::ccr_field;
use crate::regs::cen_set;
use crate::regs::freq_field;
use crate::regs::gpioben_set;
use crate::regs::i2c1en_set;
use crate::regs::pe_set;
use crate::regs::sb_set;
use crate::regs::start_set;
use crate::regs::tim11en_set;
use crate::regs::trise_field;
use crate::timer::timer_config;
use crate::timer::timer_runs;

verus! {

/// The peripheral register blocks the bring-up owns.
pub struct Peripherals {
    pub rcc: Rcc,
    pub gpiob: GpioPort,
    pub tim11: Timer,
    pub i2c1: I2cPeriph,
}

/// Power-on reset state of every block: all register words zero, no
/// operation traced yet, with the given simulated environment.
pub open spec fn power_on_state(
    p: Peripherals,
    bus_ready: bool,
    slave_present: bool,
    timer_ticking: bool,
) -> bool {
    &&& p.rcc == (Rcc { ahb1enr: 0, apb1enr: 0, apb2enr: 0 })
    &&& p.gpiob == (GpioPort { moder: 0, otyper: 0, ospeedr: 0, pupdr: 0, afrh: 0 })
    &&& p.tim11 == (Timer { regs: TimerRegs { psc: 0, arr: 0, cr1: 0, sr: 0 }, ticking: timer_ticking })
    &&& p.i2c1.regs == (I2cRegs { cr1: 0, cr2: 0, ccr: 0, trise: 0, sr1: 0, sr2: 0, dr: 0 })
    &&& p.i2c1.bus == (I2cBus { bus_ready: bus_ready, slave_present: slave_present })
    &&& p.i2c1.trace@ == Seq::<I2cEvent>::empty()
}

/// The one source of peripheral handles.  The simulated environment is
/// fixed when the board is made; the handles come out exactly once.
pub struct Board {
    pub taken: bool,
    pub bus_ready: bool,
    pub slave_present: bool,
    pub timer_ticking: bool,
}

impl Board {
    /// A board whose peripherals have not been handed out yet, wired to
    /// the given simulated bus and timer-clock conditions.
    pub fn new(bus_ready: bool, slave_present: bool, timer_ticking: bool) -> (b: Board)
        ensures
            b == (Board {
                taken: false,
                bus_ready: bus_ready,
                slave_present: slave_present,
                timer_ticking: timer_ticking,
            }),
    {
        Board { taken: false, bus_ready, slave_present, timer_ticking }
    }

    /// Acquire the peripheral blocks.  The first call returns them in
    /// power-on state; every later call fails closed with `None`, so the
    /// blocks can never be aliased.
    pub fn take(&mut self) -> (r: Option<Peripherals>)
        ensures
            *final(self) == (Board { taken: true, ..*old(self) }),
            old(self).taken ==> r is None,
            !old(self).taken ==> (r matches Some(p) && power_on_state(
                p,
                old(self).bus_ready,
                old(self).slave_present,
                old(self).timer_ticking,
            )),
    {
        if self.taken {
            None
        } else {
            self.taken = true;
            Some(
                Peripherals {
                    rcc: Rcc::power_on(),
                    gpiob: GpioPort::power_on(),
                    tim11: Timer::power_on(self.timer_ticking),
                    i2c1: I2cPeriph::power_on(self.bus_ready, self.slave_present),
                },
            )
        }
    }
}

/// The exact operation order a complete, successful bring-up performs on
/// the I2C controller: configuration, then START, then the address phase
/// with its flag-clearing reads.
pub open spec fn protocol_trace(pclk_hz: u32, scl_hz: u32, address: u8) -> Seq<I2cEvent> {
    config_trace(pclk_hz, scl_hz) + seq![
        I2cEvent::AckSet,
        I2cEvent::Start,
        I2cEvent::WriteAddr(address),
        I2cEvent::ReadSr1,
        I2cEvent::ReadSr2,
    ]
}

/// Run the whole bring-up in its fixed order: timer, clock gating and
/// pins, controller configuration, START condition, address phase.  The
/// first bounded wait that expires stops the sequence with its error;
/// with a live timer clock, a sound bus and a present slave the result
/// is `Ok` and the controller's trace is exactly `protocol_trace`.
pub fn run_sequence(
    p: &mut Peripherals,
    pclk_hz: u32,
    scl_hz: u32,
    timer_clk_mhz: u32,
    address: u8,
) -> (r: Result<(), DriverError>)
    requires
        scl_hz >= 1,
        freq_mhz_of(pclk_hz) <= 62,
        ccr_for(pclk_hz, scl_hz) < 4096,
        1 <= timer_clk_mhz,
        timer_clk_mhz <= 0x10000,
    ensures
        // The timer is programmed and started in every outcome.
        tim11en_set(final(p).rcc.apb2enr),
        final(p).tim11.regs.psc == timer_clk_mhz - 1,
        final(p).tim11.regs.arr == 0xFFFF,
        cen_set(final(p).tim11.regs.cr1),
        final(p).i2c1.bus == old(p).i2c1.bus,
        // A stalled timer stops the sequence before the bus is touched.
        !timer_runs(old(p).tim11) ==> r == Err::<(), DriverError>(DriverError::TimerStalled),
        !timer_runs(old(p).tim11) ==> final(p).i2c1.regs == old(p).i2c1.regs,
        !timer_runs(old(p).tim11) ==> final(p).i2c1.trace@ == old(p).i2c1.trace@,
        !timer_runs(old(p).tim11) ==> final(p).gpiob == old(p).gpiob,
        // Once the timer runs, clocks, pins and controller are configured.
        timer_runs(old(p).tim11) ==> i2c1en_set(final(p).rcc.apb1enr),
        timer_runs(old(p).tim11) ==> gpioben_set(final(p).rcc.ahb1enr),
        timer_runs(old(p).tim11) ==> i2c_pins_configured(final(p).gpiob),
        timer_runs(old(p).tim11) ==> other_pins_untouched(old(p).gpiob, final(p).gpiob),
        timer_runs(old(p).tim11) ==> pe_set(final(p).i2c1.regs.cr1) && ack_set(
            final(p).i2c1.regs.cr1,
        ) && start_set(final(p).i2c1.regs.cr1),
        // The computed timing survives the handshake untouched.
        timer_runs(old(p).tim11) ==> freq_field(final(p).i2c1.regs.cr2) == freq_mhz_of(pclk_hz),
        timer_runs(old(p).tim11) ==> ccr_field(final(p).i2c1.regs.ccr) == ccr_for(pclk_hz, scl_hz),
        timer_runs(old(p).tim11) ==> trise_field(final(p).i2c1.regs.trise) == trise_for(pclk_hz),
        timer_runs(old(p).tim11) ==> sb_set(final(p).i2c1.regs.sr1) == old(p).i2c1.bus.bus_ready,
        // A silent bus stops the sequence after the START attempt.
        timer_runs(old(p).tim11) && !old(p).i2c1.bus.bus_ready ==> r == Err::<(), DriverError>(
            DriverError::BusNotReady,
        ),
        timer_runs(old(p).tim11) && !old(p).i2c1.bus.bus_ready ==> final(p).i2c1.trace@ == old(
            p,
        ).i2c1.trace@ + config_trace(pclk_hz, scl_hz) + seq![I2cEvent::AckSet, I2cEvent::Start],
        // A missing slave stops it after the address byte went out.
        timer_runs(old(p).tim11) && old(p).i2c1.bus.bus_ready ==> final(p).i2c1.regs.dr
            == address as u32,
        timer_runs(old(p).tim11) && old(p).i2c1.bus.bus_ready && !old(p).i2c1.bus.slave_present
            ==> r == Err::<(), DriverError>(DriverError::AddressNack),
        timer_runs(old(p).tim11) && old(p).i2c1.bus.bus_ready && !old(p).i2c1.bus.slave_present
            ==> final(p).i2c1.trace@ == old(p).i2c1.trace@ + config_trace(pclk_hz, scl_hz) + seq![
            I2cEvent::AckSet,
            I2cEvent::Start,
            I2cEvent::WriteAddr(address),
        ],
        // The full handshake: exact trace, address delivered, flag cleared.
        timer_runs(old(p).tim11) && old(p).i2c1.bus.bus_ready && old(p).i2c1.bus.slave_present
            ==> r == Ok::<(), DriverError>(()),
        timer_runs(old(p).tim11) && old(p).i2c1.bus.bus_ready && old(p).i2c1.bus.slave_present
            ==> !addr_set(final(p).i2c1.regs.sr1),
        timer_runs(old(p).tim11) && old(p).i2c1.bus.bus_ready && old(p).i2c1.bus.slave_present
            ==> final(p).i2c1.trace@ == old(p).i2c1.trace@ + protocol_trace(
            pclk_hz,
            scl_hz,
            address,
        ),
{
    match timer_config(&mut p.rcc, &mut p.tim11, timer_clk_mhz) {
        Err(e) => {
            return Err(e);
        },
        Ok(()) => {},
    }
    i2c_config(&mut p.rcc, &mut p.gpiob, &mut p.i2c1, pclk_hz, scl_hz);
    let ghost mid = p.i2c1.trace@;
    let ghost c_cfg = p.i2c1.regs.cr1;
    proof {
        assert(mid =~= old(p).i2c1.trace@ + config_trace(pclk_hz, scl_hz));
        assert(0u32 & 0x1u32 == 0 && 0u32 & 0x2u32 == 0) by (bit_vector);
    }
    let start_res = i2c_start(&mut p.i2c1);
    let ghost c_st = p.i2c1.regs.cr1;
    let ghost s_st = p.i2c1.regs.sr1;
    proof {
        assert(c_st & 0x1u32 != 0 && s_st & 0x2u32 == 0) by (bit_vector)
            requires
                c_st & !0x500u32 == c_cfg & !0x500u32,
                c_cfg & !0x1u32 == 0,
                c_cfg & 0x1u32 != 0,
                s_st & !0x1u32 == 0u32 & !0x1u32,
        ;
    }
    match start_res {
        Err(e) => {
            proof {
                assert(p.i2c1.trace@ =~= old(p).i2c1.trace@ + config_trace(pclk_hz, scl_hz)
                    + seq![I2cEvent::AckSet, I2cEvent::Start]);
            }
            return Err(e);
        },
        Ok(()) => {},
    }
    let r = i2c_address(address, &mut p.i2c1);
    let ghost s_end = p.i2c1.regs.sr1;
    proof {
        assert(s_end & 0x1u32 == s_st & 0x1u32) by (bit_vector)
            requires
                s_end & !0x2u32 == s_st & !0x2u32,
        ;
        if old(p).i2c1.bus.slave_present {
            assert(p.i2c1.trace@ =~= old(p).i2c1.trace@ + protocol_trace(
                pclk_hz,
                scl_hz,
                address,
            ));
        } else {
            assert(p.i2c1.trace@ =~= old(p).i2c1.trace@ + config_trace(pclk_hz, scl_hz) + seq![
                I2cEvent::AckSet,
                I2cEvent::Start,
                I2cEvent::WriteAddr(address),
            ]);
        }
    }
    r
}

} // verus!
