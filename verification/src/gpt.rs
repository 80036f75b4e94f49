//! USB general purpose timers.
//!
//! Each USB OTG peripheral has two general purpose timers (GPT) with 1 us resolution
//! and 24-bit counters. In host mode, these are useful for:
//!
//! - Port reset timing (USB spec requires specific reset pulse durations)
//! - Transfer timeouts (detecting unresponsive devices)
//! - Connection debouncing
//!
//! # Usage
//!
//! ```ignore
//! use imxrt_usbh::gpt;
//!
//! // Configure GPT0 for a 50ms one-shot timeout
//! let mut gpt = gpt::Gpt::new(&mut usb, gpt::Instance::Gpt0);
//! gpt.stop();
//! gpt.clear_elapsed();
//! gpt.set_mode(gpt::Mode::OneShot);
//! gpt.set_load(50_000); // 50ms
//! gpt.reset();
//! gpt.run();
//! ```

use crate::ral::usb;
use vstd::prelude::*;

verus! {

/// GPT timer mode.
#[derive(Debug, Clone, Copy, PartialEq, Eq, Structural)]
pub enum Mode {
    /// In one shot mode, the timer will count down to zero, generate an interrupt,
    /// and stop until the counter is reset by software.
    OneShot,
    /// In repeat mode, the timer will count down to zero, generate an interrupt and
    /// automatically reload the counter value to start again.
    Repeat,
}

/// GPT instance identifiers.
#[derive(Debug, Clone, Copy, PartialEq, Eq, Structural)]
pub enum Instance {
    /// The GPT0 timer instance.
    Gpt0,
    /// The GPT1 timer instance.
    Gpt1,
}

impl Instance {
    /// The control register of the timer.
    pub open spec fn ctrl_reg(self) -> usb::Reg {
        match self {
            Instance::Gpt0 => usb::Reg::Gptimer0Ctrl,
            Instance::Gpt1 => usb::Reg::Gptimer1Ctrl,
        }
    }

    /// The load register of the timer.
    pub open spec fn load_reg(self) -> usb::Reg {
        match self {
            Instance::Gpt0 => usb::Reg::Gptimer0Ld,
            Instance::Gpt1 => usb::Reg::Gptimer1Ld,
        }
    }

    /// The timer's flag in the USB status register.
    pub open spec fn status_bit(self) -> u32 {
        match self {
            Instance::Gpt0 => usb::USBSTS_TI0,
            Instance::Gpt1 => usb::USBSTS_TI1,
        }
    }

    /// The timer's flag in the USB interrupt enable register.
    pub open spec fn interrupt_bit(self) -> u32 {
        match self {
            Instance::Gpt0 => usb::USBINTR_TIE0,
            Instance::Gpt1 => usb::USBINTR_TIE1,
        }
    }

    /// The control register of the timer.
    fn ctrl(self) -> (reg: usb::Reg)
        ensures
            reg == self.ctrl_reg(),
    {
        match self {
            Instance::Gpt0 => usb::Reg::Gptimer0Ctrl,
            Instance::Gpt1 => usb::Reg::Gptimer1Ctrl,
        }
    }
}

/// The load value that counts `us` microseconds: one less than the number of
/// microseconds, which is at least 1 and at most 0xFF_FFFF.
pub open spec fn load_value(us: u32) -> u32 {
    if us <= 1 {
        0
    } else if us >= 0xFF_FFFF {
        0xFF_FFFE
    } else {
        (us - 1) as u32
    }
}

/// General purpose timer (GPT).
///
/// USB GPTs have a 1 us resolution. The counter is 24 bits wide. GPTs can generate
/// USB interrupts that are independent of USB protocol interrupts.
pub struct Gpt<'a> {
    /// The USB core registers.
    pub usb: &'a mut usb::Instance,
    /// Which of the two timers this is.
    pub gpt: Instance,
}

impl<'a> Gpt<'a> {
    /// The USB core registers, as the timer's operations have left them.
    pub open spec fn regs(self) -> usb::InstanceView {
        self.usb@
    }

    /// Create a GPT instance over the USB core registers.
    ///
    /// Takes a mutable reference to the USB register block to prevent
    /// aliasing the same GPT instance.
    pub fn new(usb: &'a mut usb::Instance, gpt: Instance) -> (timer: Self)
        ensures
            timer.gpt == gpt,
            *timer.usb == *old(usb),
            *final(timer.usb) == *final(usb),
    {
        Gpt { usb, gpt }
    }

    /// Returns the GPT instance identifier.
    pub fn instance(&self) -> (gpt: Instance)
        ensures
            gpt == self.gpt,
    {
        self.gpt
    }

    /// Run the GPT timer.
    ///
    /// Starts counting down. Use [`stop()`](Gpt::stop) to cancel a running timer.
    pub fn run(&mut self)
        ensures
            final(self).gpt == old(self).gpt,
            final(self).regs() == old(self).regs().set_bits(
                old(self).gpt.ctrl_reg(),
                usb::GPTIMERCTRL_GPTRUN,
            ),
            *final(final(self).usb) == *final(old(self).usb),
    {
        self.usb.set_bits(self.gpt.ctrl(), usb::GPTIMERCTRL_GPTRUN);
    }

    /// Indicates if the timer is running (`true`) or stopped (`false`).
    pub fn is_running(&self) -> (running: bool)
        ensures
            running == (self.regs().reg(self.gpt.ctrl_reg()) & usb::GPTIMERCTRL_GPTRUN != 0),
    {
        self.usb.read(self.gpt.ctrl()) & usb::GPTIMERCTRL_GPTRUN != 0
    }

    /// Stop the timer.
    pub fn stop(&mut self)
        ensures
            final(self).gpt == old(self).gpt,
            final(self).regs() == old(self).regs().clear_bits(
                old(self).gpt.ctrl_reg(),
                usb::GPTIMERCTRL_GPTRUN,
            ),
            *final(final(self).usb) == *final(old(self).usb),
    {
        self.usb.clear_bits(self.gpt.ctrl(), usb::GPTIMERCTRL_GPTRUN);
    }

    /// Reset the timer.
    ///
    /// Loads the counter value. Does not stop a running counter.
    pub fn reset(&mut self)
        ensures
            final(self).gpt == old(self).gpt,
            final(self).regs() == old(self).regs().set_bits(
                old(self).gpt.ctrl_reg(),
                usb::GPTIMERCTRL_GPTRST,
            ),
            *final(final(self).usb) == *final(old(self).usb),
    {
        self.usb.set_bits(self.gpt.ctrl(), usb::GPTIMERCTRL_GPTRST);
    }

    /// Set the timer mode.
    pub fn set_mode(&mut self, mode: Mode)
        ensures
            final(self).gpt == old(self).gpt,
            final(self).regs() == match mode {
                Mode::OneShot => old(self).regs().clear_bits(
                    old(self).gpt.ctrl_reg(),
                    usb::GPTIMERCTRL_GPTMODE,
                ),
                Mode::Repeat => old(self).regs().set_bits(
                    old(self).gpt.ctrl_reg(),
                    usb::GPTIMERCTRL_GPTMODE,
                ),
            },
            *final(final(self).usb) == *final(old(self).usb),
    {
        match mode {
            Mode::OneShot => {
                self.usb.clear_bits(self.gpt.ctrl(), usb::GPTIMERCTRL_GPTMODE);
            },
            Mode::Repeat => {
                self.usb.set_bits(self.gpt.ctrl(), usb::GPTIMERCTRL_GPTMODE);
            },
        }
    }

    /// Returns the timer mode.
    pub fn mode(&self) -> (mode: Mode)
        ensures
            mode == (if self.regs().reg(self.gpt.ctrl_reg()) & usb::GPTIMERCTRL_GPTMODE != 0 {
                Mode::Repeat
            } else {
                Mode::OneShot
            }),
    {
        if self.usb.read(self.gpt.ctrl()) & usb::GPTIMERCTRL_GPTMODE != 0 {
            Mode::Repeat
        } else {
            Mode::OneShot
        }
    }

    /// Set the counter load value.
    ///
    /// `us` is the number of microseconds to count. Saturates at a 24-bit value
    /// (0xFFFFFF, or ~16.78 seconds). A value of `0` results in a 1 us delay.
    ///
    /// The load value is not applied until the next call to [`reset()`](Gpt::reset)
    /// (one shot mode) or until the timer elapses (repeat mode).
    pub fn set_load(&mut self, us: u32)
        ensures
            final(self).gpt == old(self).gpt,
            final(self).regs() == old(self).regs().write(old(self).gpt.load_reg(), load_value(us)),
            *final(final(self).usb) == *final(old(self).usb),
    {
        let clamped: u32 = if us < 1 {
            1
        } else if us > 0xFF_FFFF {
            0xFF_FFFF
        } else {
            us
        };
        let count: u32 = clamped - 1;
        match self.gpt {
            Instance::Gpt0 => {
                self.usb.write(usb::Reg::Gptimer0Ld, count);
            },
            Instance::Gpt1 => {
                self.usb.write(usb::Reg::Gptimer1Ld, count);
            },
        }
    }

    /// Returns the counter load value.
    pub fn load(&self) -> (count: u32)
        ensures
            count == self.regs().reg(self.gpt.load_reg()),
    {
        match self.gpt {
            Instance::Gpt0 => self.usb.read(usb::Reg::Gptimer0Ld),
            Instance::Gpt1 => self.usb.read(usb::Reg::Gptimer1Ld),
        }
    }

    /// Indicates if the timer has elapsed.
    ///
    /// If elapsed, clear the flag with [`clear_elapsed()`](Gpt::clear_elapsed).
    pub fn is_elapsed(&self) -> (elapsed: bool)
        ensures
            elapsed == (self.regs().reg(usb::Reg::Usbsts) & self.gpt.status_bit() != 0),
    {
        let status: u32 = self.usb.read(usb::Reg::Usbsts);
        match self.gpt {
            Instance::Gpt0 => status & usb::USBSTS_TI0 != 0,
            Instance::Gpt1 => status & usb::USBSTS_TI1 != 0,
        }
    }

    /// Clear the elapsed flag.
    pub fn clear_elapsed(&mut self)
        ensures
            final(self).gpt == old(self).gpt,
            final(self).regs() == old(self).regs().write(
                usb::Reg::Usbsts,
                old(self).gpt.status_bit(),
            ),
            *final(final(self).usb) == *final(old(self).usb),
    {
        match self.gpt {
            Instance::Gpt0 => {
                self.usb.write(usb::Reg::Usbsts, usb::USBSTS_TI0);
            },
            Instance::Gpt1 => {
                self.usb.write(usb::Reg::Usbsts, usb::USBSTS_TI1);
            },
        }
    }

    /// Enable or disable interrupt generation when the timer elapses.
    ///
    /// If enabled (`true`), an elapsed GPT will generate an interrupt regardless
    /// of other USB interrupt enable state.
    pub fn set_interrupt_enabled(&mut self, enable: bool)
        ensures
            final(self).gpt == old(self).gpt,
            final(self).regs() == (if enable {
                old(self).regs().set_bits(usb::Reg::Usbintr, old(self).gpt.interrupt_bit())
            } else {
                old(self).regs().clear_bits(usb::Reg::Usbintr, old(self).gpt.interrupt_bit())
            }),
            *final(final(self).usb) == *final(old(self).usb),
    {
        let mask: u32 = match self.gpt {
            Instance::Gpt0 => usb::USBINTR_TIE0,
            Instance::Gpt1 => usb::USBINTR_TIE1,
        };
        if enable {
            self.usb.set_bits(usb::Reg::Usbintr, mask);
        } else {
            self.usb.clear_bits(usb::Reg::Usbintr, mask);
        }
    }

    /// Indicates if interrupt generation is enabled.
    pub fn is_interrupt_enabled(&self) -> (enabled: bool)
        ensures
            enabled == (self.regs().reg(usb::Reg::Usbintr) & self.gpt.interrupt_bit() != 0),
    {
        let enabled: u32 = self.usb.read(usb::Reg::Usbintr);
        match self.gpt {
            Instance::Gpt0 => enabled & usb::USBINTR_TIE0 != 0,
            Instance::Gpt1 => enabled & usb::USBINTR_TIE1 != 0,
        }
    }
}

/// Whether the timer `gpt` runs, according to the registers `usb`.
pub open spec fn running(usb: usb::InstanceView, gpt: Instance) -> bool {
    usb.reg(gpt.ctrl_reg()) & usb::GPTIMERCTRL_GPTRUN != 0
}

/// Whether the timer `gpt` repeats, according to the registers `usb`.
pub open spec fn repeats(usb: usb::InstanceView, gpt: Instance) -> bool {
    usb.reg(gpt.ctrl_reg()) & usb::GPTIMERCTRL_GPTMODE != 0
}

/// Running, stopping and resetting a timer: after `run` it runs, after `stop` it does not, and
/// `reset` changes neither that nor its mode.
pub proof fn lemma_run_stop_reset(usb: usb::InstanceView, gpt: Instance)
    ensures
        running(usb.set_bits(gpt.ctrl_reg(), usb::GPTIMERCTRL_GPTRUN), gpt),
        !running(usb.clear_bits(gpt.ctrl_reg(), usb::GPTIMERCTRL_GPTRUN), gpt),
        running(usb.set_bits(gpt.ctrl_reg(), usb::GPTIMERCTRL_GPTRST), gpt) == running(usb, gpt),
        repeats(usb.set_bits(gpt.ctrl_reg(), usb::GPTIMERCTRL_GPTRST), gpt) == repeats(usb, gpt),
        repeats(usb.set_bits(gpt.ctrl_reg(), usb::GPTIMERCTRL_GPTRUN), gpt) == repeats(usb, gpt),
        repeats(usb.clear_bits(gpt.ctrl_reg(), usb::GPTIMERCTRL_GPTRUN), gpt) == repeats(usb, gpt),
{
    let v = usb.reg(gpt.ctrl_reg());
    assert(((v | usb::GPTIMERCTRL_GPTRUN) & !usb::GPTIMERCTRL_GPTRST) & usb::GPTIMERCTRL_GPTRUN != 0
        && ((v & !usb::GPTIMERCTRL_GPTRUN) & !usb::GPTIMERCTRL_GPTRST) & usb::GPTIMERCTRL_GPTRUN
        == 0 && ((v | usb::GPTIMERCTRL_GPTRST) & !usb::GPTIMERCTRL_GPTRST)
        & usb::GPTIMERCTRL_GPTRUN == v & usb::GPTIMERCTRL_GPTRUN && ((v
        | usb::GPTIMERCTRL_GPTRST) & !usb::GPTIMERCTRL_GPTRST) & usb::GPTIMERCTRL_GPTMODE == v
        & usb::GPTIMERCTRL_GPTMODE && ((v | usb::GPTIMERCTRL_GPTRUN) & !usb::GPTIMERCTRL_GPTRST)
        & usb::GPTIMERCTRL_GPTMODE == v & usb::GPTIMERCTRL_GPTMODE && ((v
        & !usb::GPTIMERCTRL_GPTRUN) & !usb::GPTIMERCTRL_GPTRST) & usb::GPTIMERCTRL_GPTMODE == v
        & usb::GPTIMERCTRL_GPTMODE) by (bit_vector);
}

/// The mode that was set is the mode that is read back, and setting it neither starts nor
/// stops the timer.
pub proof fn lemma_mode_round_trip(usb: usb::InstanceView, gpt: Instance)
    ensures
        repeats(usb.set_bits(gpt.ctrl_reg(), usb::GPTIMERCTRL_GPTMODE), gpt),
        !repeats(usb.clear_bits(gpt.ctrl_reg(), usb::GPTIMERCTRL_GPTMODE), gpt),
        running(usb.set_bits(gpt.ctrl_reg(), usb::GPTIMERCTRL_GPTMODE), gpt) == running(usb, gpt),
        running(usb.clear_bits(gpt.ctrl_reg(), usb::GPTIMERCTRL_GPTMODE), gpt) == running(usb, gpt),
{
    let v = usb.reg(gpt.ctrl_reg());
    assert(((v | usb::GPTIMERCTRL_GPTMODE) & !usb::GPTIMERCTRL_GPTRST) & usb::GPTIMERCTRL_GPTMODE
        != 0 && ((v & !usb::GPTIMERCTRL_GPTMODE) & !usb::GPTIMERCTRL_GPTRST)
        & usb::GPTIMERCTRL_GPTMODE == 0 && ((v | usb::GPTIMERCTRL_GPTMODE)
        & !usb::GPTIMERCTRL_GPTRST) & usb::GPTIMERCTRL_GPTRUN == v & usb::GPTIMERCTRL_GPTRUN && ((v
        & !usb::GPTIMERCTRL_GPTMODE) & !usb::GPTIMERCTRL_GPTRST) & usb::GPTIMERCTRL_GPTRUN == v
        & usb::GPTIMERCTRL_GPTRUN) by (bit_vector);
}

/// The load value is read back as it was set; it counts at least one microsecond, at most
/// 0xFF_FFFF, and in between exactly as many as were asked for.
pub proof fn lemma_load_round_trip(usb: usb::InstanceView, gpt: Instance, us: u32)
    ensures
        usb.write(gpt.load_reg(), load_value(us)).reg(gpt.load_reg()) == load_value(us),
        1 <= load_value(us) + 1 <= 0xFF_FFFF,
        1 <= us <= 0xFF_FFFF ==> load_value(us) + 1 == us,
        us == 0 ==> load_value(us) == 0,
        us > 0xFF_FFFF ==> load_value(us) == 0xFF_FFFE,
{
}

/// The two timers have nothing in common: each has a control register, a load register, a status
/// flag, and an interrupt flag of its own.
pub proof fn lemma_timers()
    ensures
        Instance::Gpt0.ctrl_reg() == usb::Reg::Gptimer0Ctrl,
        Instance::Gpt1.ctrl_reg() == usb::Reg::Gptimer1Ctrl,
        Instance::Gpt0.load_reg() == usb::Reg::Gptimer0Ld,
        Instance::Gpt1.load_reg() == usb::Reg::Gptimer1Ld,
        Instance::Gpt0.status_bit() == 0x100_0000,
        Instance::Gpt1.status_bit() == 0x200_0000,
        Instance::Gpt0.interrupt_bit() == 0x100_0000,
        Instance::Gpt1.interrupt_bit() == 0x200_0000,
{
    usb::lemma_register_bits();
}

/// What the registers say of a timer: it runs if the top bit of its control register is set, and
/// repeats if bit 24 is.
pub proof fn lemma_timer_state(usb: usb::InstanceView, gpt: Instance)
    ensures
        running(usb, gpt) <==> (match gpt {
            Instance::Gpt0 => usb.regs.gptimer0ctrl,
            Instance::Gpt1 => usb.regs.gptimer1ctrl,
        }) & 0x8000_0000 != 0,
        repeats(usb, gpt) <==> (match gpt {
            Instance::Gpt0 => usb.regs.gptimer0ctrl,
            Instance::Gpt1 => usb.regs.gptimer1ctrl,
        }) & 0x100_0000 != 0,
{
    usb::lemma_register_bits();
}

/// Clearing the elapsed flag of a timer clears it, and leaves the flag of the other timer
/// and the rest of the status register as they were.
pub proof fn lemma_clear_elapsed(usb: usb::InstanceView, gpt: Instance)
    ensures
        ({
            let cleared = usb.write(usb::Reg::Usbsts, gpt.status_bit());
            &&& cleared.reg(usb::Reg::Usbsts) & gpt.status_bit() == 0
            &&& cleared.reg(usb::Reg::Usbsts) & !gpt.status_bit() == usb.reg(usb::Reg::Usbsts)
                & !gpt.status_bit()
        }),
{
    let v = usb.reg(usb::Reg::Usbsts);
    assert((v & !(usb::USBSTS_TI0 & usb::USBSTS_W1C_MASK)) & usb::USBSTS_TI0 == 0 && (v & !(
    usb::USBSTS_TI0 & usb::USBSTS_W1C_MASK)) & !usb::USBSTS_TI0 == v & !usb::USBSTS_TI0 && (v & !(
    usb::USBSTS_TI1 & usb::USBSTS_W1C_MASK)) & usb::USBSTS_TI1 == 0 && (v & !(usb::USBSTS_TI1
        & usb::USBSTS_W1C_MASK)) & !usb::USBSTS_TI1 == v & !usb::USBSTS_TI1) by (bit_vector);
}

/// Enabling or disabling the interrupt of a timer is read back, and leaves every other
/// interrupt enable bit as it was.
pub proof fn lemma_interrupt_round_trip(usb: usb::InstanceView, gpt: Instance)
    ensures
        ({
            let on = usb.set_bits(usb::Reg::Usbintr, gpt.interrupt_bit()).reg(usb::Reg::Usbintr);
            let off = usb.clear_bits(usb::Reg::Usbintr, gpt.interrupt_bit()).reg(
                usb::Reg::Usbintr,
            );
            let before = usb.reg(usb::Reg::Usbintr);
            &&& on & gpt.interrupt_bit() != 0
            &&& off & gpt.interrupt_bit() == 0
            &&& on & !gpt.interrupt_bit() == before & !gpt.interrupt_bit()
            &&& off & !gpt.interrupt_bit() == before & !gpt.interrupt_bit()
        }),
{
    let v = usb.reg(usb::Reg::Usbintr);
    let m = gpt.interrupt_bit();
    assert((v | m) & m == m && (v & !m) & m == 0 && (v | m) & !m == v & !m && (v & !m) & !m == v
        & !m) by (bit_vector);
    usb::lemma_register_bits();
}

} // verus!
