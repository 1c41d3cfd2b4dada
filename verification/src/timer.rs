//! Free-running delay timer bring-up.
//!
//! The timer is configured for a one-microsecond tick from its input
//! clock and started, and one full period is confirmed through the
//! update-event flag.  Nothing downstream consumes the tick: the timer is
//! validation-only, kept as a delay primitive reserved for future use.

use vstd::prelude::*;

use crate::DriverError;
use crate::POLL_LIMIT;
use crate::regs::RCC_TIM11EN;
use crate::regs::Rcc;
use crate::regs::TIM_CR1_CEN;
use crate::regs::TIM_SR_UIF;
use crate::regs::Timer;
use crate::regs::cen_set;
use crate::regs::tim11en_set;
use crate::regs::uif_set;

verus! {

/// The timer's clock input is live (or the update flag is somehow already
/// up), so an enabled counter completes a period.
pub open spec fn timer_runs(t: Timer) -> bool {
    t.ticking || uif_set(t.regs.sr)
}

/// Bounded wait for the timer's update-event flag: peek at the flag up to
/// `attempts` times, reporting whether it was seen up.
pub fn wait_update(timer: &Timer, attempts: u32) -> (seen: bool)
    ensures
        seen == (attempts > 0 && uif_set(timer.regs.sr)),
{
    let mut i: u32 = 0;
    while i < attempts
        invariant
            i <= attempts,
            i > 0 ==> !uif_set(timer.regs.sr),
        decreases attempts - i,
    {
        if timer.update_flagged() {
            return true;
        }
        i = i + 1;
    }
    false
}

/// Prescaler value for a one-microsecond tick: the counter input clock in
/// MHz less one, since the hardware divides by the prescaler plus one.
pub fn psc_value(timer_clk_mhz: u32) -> (r: u32)
    requires
        1 <= timer_clk_mhz,
    ensures
        r == timer_clk_mhz - 1,
{
    timer_clk_mhz - 1
}

/// Gate the timer clock on, program a one-microsecond tick (prescaler set
/// to the input clock in MHz less one) with the full auto-reload range,
/// start counting, and confirm one period through the update-event flag.
/// A counter whose flag never rises surfaces as `TimerStalled`.
pub fn timer_config(rcc: &mut Rcc, timer: &mut Timer, timer_clk_mhz: u32) -> (r: Result<
    (),
    DriverError,
>)
    requires
        1 <= timer_clk_mhz,
        timer_clk_mhz <= 0x10000,
    ensures
        tim11en_set(final(rcc).apb2enr),
        final(rcc).apb2enr & !RCC_TIM11EN == old(rcc).apb2enr & !RCC_TIM11EN,
        final(rcc).ahb1enr == old(rcc).ahb1enr,
        final(rcc).apb1enr == old(rcc).apb1enr,
        final(timer).regs.psc == timer_clk_mhz - 1,
        final(timer).regs.arr == 0xFFFF,
        cen_set(final(timer).regs.cr1),
        final(timer).regs.cr1 & !TIM_CR1_CEN == old(timer).regs.cr1 & !TIM_CR1_CEN,
        uif_set(final(timer).regs.sr) == timer_runs(*old(timer)),
        final(timer).regs.sr & !TIM_SR_UIF == old(timer).regs.sr & !TIM_SR_UIF,
        final(timer).ticking == old(timer).ticking,
        timer_runs(*old(timer)) ==> r == Ok::<(), DriverError>(()),
        !timer_runs(*old(timer)) ==> r == Err::<(), DriverError>(DriverError::TimerStalled),
{
    rcc.enable_tim11();
    timer.set_psc(psc_value(timer_clk_mhz));
    timer.set_arr(0xFFFF);
    timer.enable();
    if wait_update(timer, POLL_LIMIT) {
        Ok(())
    } else {
        Err(DriverError::TimerStalled)
    }
}

} // verus!
