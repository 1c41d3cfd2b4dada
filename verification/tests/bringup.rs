use i2c_bringup::DriverError;
use i2c_bringup::gpio;
use i2c_bringup::i2c;
use i2c_bringup::regs::GpioPort;
use i2c_bringup::regs::I2cEvent;
use i2c_bringup::regs::I2cPeriph;
use i2c_bringup::regs::Rcc;
use i2c_bringup::regs::Timer;
use i2c_bringup::sequencer::Board;
use i2c_bringup::sequencer::run_sequence;
use i2c_bringup::timer::timer_config;

#[test]
fn timing_formulas_documented_clock() {
    // 45 MHz input clock, 100 kHz standard-mode bus.
    assert_eq!(i2c::freq_mhz(45_000_000), 45);
    assert_eq!(i2c::ccr_value(45_000_000, 100_000), 225);
    assert_eq!(i2c::trise_value(45_000_000), 0b101110);
}

#[test]
fn timing_formulas_other_pairs() {
    assert_eq!(i2c::ccr_value(30_000_000, 100_000), 150);
    assert_eq!(i2c::trise_value(30_000_000), 31);
    assert_eq!(i2c::ccr_value(8_000_000, 100_000), 40);
    assert_eq!(i2c::trise_value(8_000_000), 9);
    // Truncating division: 45 MHz over twice 400 kHz is 56.25.
    assert_eq!(i2c::ccr_value(45_000_000, 400_000), 56);
    assert_eq!(i2c::freq_mhz(16_123_456), 16);
}

#[test]
fn configure_programs_exact_registers() {
    let mut i2c1 = I2cPeriph::power_on(true, true);
    i2c::configure(&mut i2c1, 45_000_000, 100_000);
    assert_eq!(i2c1.regs.ccr & 0xFFF, 225);
    assert_eq!(i2c1.regs.ccr & 0xC000, 0); // standard mode, plain duty ratio
    assert_eq!(i2c1.regs.trise & 0x3F, 0b101110);
    assert_eq!(i2c1.regs.cr2 & 0x3F, 45);
    assert_ne!(i2c1.regs.cr2 & 0x200, 0); // event interrupts enabled (inert)
    assert_eq!(i2c1.regs.cr1, 0x1); // peripheral enabled, nothing else
    assert_eq!(i2c1.regs.sr1, 0);
    assert_eq!(
        i2c1.trace,
        vec![
            I2cEvent::Reset,
            I2cEvent::SetFreq(45),
            I2cEvent::SetCcr(225),
            I2cEvent::SetTrise(0x2E),
            I2cEvent::Enable,
        ]
    );
}

#[test]
fn gpio_pin_fields_exact() {
    let mut port = GpioPort::power_on();
    gpio::configure(&mut port);
    assert_eq!((port.moder >> 16) & 3, 0b10);
    assert_eq!((port.moder >> 18) & 3, 0b10);
    assert_eq!((port.otyper >> 8) & 1, 1);
    assert_eq!((port.otyper >> 9) & 1, 1);
    assert_eq!((port.ospeedr >> 16) & 3, 0b11);
    assert_eq!((port.ospeedr >> 18) & 3, 0b11);
    assert_eq!((port.pupdr >> 16) & 3, 0b01);
    assert_eq!((port.pupdr >> 18) & 3, 0b01);
    assert_eq!(port.afrh & 0xF, 0b0100);
    assert_eq!((port.afrh >> 4) & 0xF, 0b0100);
}

#[test]
fn gpio_other_pins_untouched() {
    let mut port = GpioPort {
        moder: 0x5555_5555,
        otyper: 0xFFFF_FCFF,
        ospeedr: 0xAAAA_AAAA,
        pupdr: 0xFFFF_FFFF,
        afrh: 0xFFFF_FF00,
    };
    gpio::configure(&mut port);
    assert_eq!((port.moder >> 16) & 3, 0b10);
    assert_eq!((port.moder >> 18) & 3, 0b10);
    assert_eq!(port.moder & !0x000F_0000, 0x5555_5555 & !0x000F_0000);
    assert_eq!(port.otyper & !0x0000_0300, 0xFFFF_FCFF & !0x0000_0300u32);
    assert_eq!((port.ospeedr >> 16) & 3, 0b11);
    assert_eq!((port.ospeedr >> 18) & 3, 0b11);
    assert_eq!(port.ospeedr & !0x000F_0000, 0xAAAA_AAAA & !0x000F_0000u32);
    assert_eq!((port.pupdr >> 16) & 3, 0b01);
    assert_eq!((port.pupdr >> 18) & 3, 0b01);
    assert_eq!(port.pupdr & !0x000F_0000, 0xFFFF_FFFF & !0x000F_0000u32);
    assert_eq!(port.afrh & 0xFF, 0x44);
    assert_eq!(port.afrh & !0xFF, 0xFFFF_FF00);
}

#[test]
fn start_sets_flag_and_orders_control_bits() {
    let mut i2c1 = I2cPeriph::power_on(true, false);
    assert_eq!(i2c1.regs.sr1 & 0x1, 0); // flag starts low
    let r = i2c::i2c_start(&mut i2c1);
    assert_eq!(r, Ok(()));
    assert_ne!(i2c1.regs.sr1 & 0x1, 0); // flag went high, once
    assert_ne!(i2c1.regs.cr1 & 0x400, 0); // acknowledge enabled
    assert_ne!(i2c1.regs.cr1 & 0x100, 0); // START asserted
    assert_eq!(i2c1.trace, vec![I2cEvent::AckSet, I2cEvent::Start]);
}

#[test]
fn start_times_out_on_stuck_bus() {
    let mut i2c1 = I2cPeriph::power_on(false, false);
    let r = i2c::i2c_start(&mut i2c1);
    assert_eq!(r, Err(DriverError::BusNotReady));
    assert_eq!(i2c1.regs.sr1 & 0x1, 0); // the flag never rose
    assert_eq!(i2c1.trace, vec![I2cEvent::AckSet, I2cEvent::Start]);
}

#[test]
fn address_writes_byte_and_clears_match() {
    let mut i2c1 = I2cPeriph::power_on(true, true);
    assert_eq!(i2c::i2c_start(&mut i2c1), Ok(()));
    let r = i2c::i2c_address(0x4e, &mut i2c1);
    assert_eq!(r, Ok(()));
    assert_eq!(i2c1.regs.dr, 0x4e); // address byte unmodified
    assert_eq!(i2c1.regs.sr1 & 0x2, 0); // match flag cleared by the reads
    assert_eq!(
        i2c1.trace,
        vec![
            I2cEvent::AckSet,
            I2cEvent::Start,
            I2cEvent::WriteAddr(0x4e),
            I2cEvent::ReadSr1,
            I2cEvent::ReadSr2,
        ]
    );
}

#[test]
fn address_times_out_without_slave() {
    let mut i2c1 = I2cPeriph::power_on(true, false);
    assert_eq!(i2c::i2c_start(&mut i2c1), Ok(()));
    let r = i2c::i2c_address(0x4e, &mut i2c1);
    assert_eq!(r, Err(DriverError::AddressNack));
    assert_eq!(i2c1.regs.dr, 0x4e); // the byte still went out
    assert_eq!(
        i2c1.trace,
        vec![I2cEvent::AckSet, I2cEvent::Start, I2cEvent::WriteAddr(0x4e)]
    );
}

#[test]
fn i2c_config_gates_clocks_and_sets_pins() {
    let mut rcc = Rcc::power_on();
    let mut port = GpioPort::power_on();
    let mut i2c1 = I2cPeriph::power_on(true, true);
    i2c::i2c_config(&mut rcc, &mut port, &mut i2c1, 45_000_000, 100_000);
    assert_ne!(rcc.apb1enr & 0x0020_0000, 0); // I2C1 clock gated on
    assert_ne!(rcc.ahb1enr & 0x2, 0); // GPIOB clock gated on
    assert_eq!(rcc.apb2enr, 0);
    assert_eq!((port.moder >> 16) & 3, 0b10);
    assert_eq!(i2c1.regs.ccr & 0xFFF, 225);
    assert_eq!(i2c1.regs.cr1, 0x1);
}

#[test]
fn timer_config_documented_values() {
    let mut rcc = Rcc::power_on();
    let mut tim = Timer::power_on(true);
    let r = timer_config(&mut rcc, &mut tim, 180);
    assert_eq!(r, Ok(()));
    assert_eq!(tim.regs.psc, 0b0000000010110011); // 179: 180 MHz down to 1 MHz
    assert_eq!(tim.regs.psc, 179);
    assert_eq!(tim.regs.arr, 0xFFFF);
    assert_ne!(tim.regs.cr1 & 0x1, 0); // counter enabled
    assert_ne!(tim.regs.sr & 0x1, 0); // one period confirmed
    assert_ne!(rcc.apb2enr & 0x0004_0000, 0); // TIM11 clock gated on
}

#[test]
fn timer_config_reports_stall() {
    let mut rcc = Rcc::power_on();
    let mut tim = Timer::power_on(false);
    let r = timer_config(&mut rcc, &mut tim, 180);
    assert_eq!(r, Err(DriverError::TimerStalled));
    assert_eq!(tim.regs.sr & 0x1, 0);
}

#[test]
fn board_hands_peripherals_out_once() {
    let mut board = Board::new(true, true, true);
    let first = board.take();
    assert!(first.is_some());
    let second = board.take();
    assert!(second.is_none());
}

#[test]
fn full_sequence_exact_trace() {
    let mut board = Board::new(true, true, true);
    let mut p = board.take().unwrap();
    let r = run_sequence(&mut p, 45_000_000, 100_000, 180, 0x4e);
    assert_eq!(r, Ok(()));
    assert_eq!(
        p.i2c1.trace,
        vec![
            I2cEvent::Reset,
            I2cEvent::SetFreq(45),
            I2cEvent::SetCcr(225),
            I2cEvent::SetTrise(0x2E),
            I2cEvent::Enable,
            I2cEvent::AckSet,
            I2cEvent::Start,
            I2cEvent::WriteAddr(0x4e),
            I2cEvent::ReadSr1,
            I2cEvent::ReadSr2,
        ]
    );
    assert_eq!(p.i2c1.regs.dr, 0x4e);
    assert_eq!(p.i2c1.regs.sr1 & 0x2, 0);
    assert_eq!(p.tim11.regs.psc, 179);
}

#[test]
fn sequence_stops_on_stalled_timer() {
    let mut board = Board::new(true, true, false);
    let mut p = board.take().unwrap();
    let r = run_sequence(&mut p, 45_000_000, 100_000, 180, 0x4e);
    assert_eq!(r, Err(DriverError::TimerStalled));
    assert!(p.i2c1.trace.is_empty()); // the bus was never touched
    assert_eq!(p.gpiob.moder, 0);
}

#[test]
fn sequence_stops_on_silent_bus() {
    let mut board = Board::new(false, true, true);
    let mut p = board.take().unwrap();
    let r = run_sequence(&mut p, 45_000_000, 100_000, 180, 0x4e);
    assert_eq!(r, Err(DriverError::BusNotReady));
    assert_eq!(p.i2c1.trace.len(), 7); // configuration plus AckSet and Start
    assert_eq!(p.i2c1.trace[5], I2cEvent::AckSet);
    assert_eq!(p.i2c1.trace[6], I2cEvent::Start);
}

#[test]
fn sequence_stops_on_missing_slave() {
    let mut board = Board::new(true, false, true);
    let mut p = board.take().unwrap();
    let r = run_sequence(&mut p, 45_000_000, 100_000, 180, 0x4e);
    assert_eq!(r, Err(DriverError::AddressNack));
    assert_eq!(p.i2c1.trace.len(), 8);
    assert_eq!(p.i2c1.trace[7], I2cEvent::WriteAddr(0x4e));
}
