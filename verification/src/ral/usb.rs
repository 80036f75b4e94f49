//! USB OTG core registers and field definitions.

use crate::action::Action;
use vstd::prelude::*;

verus! {

// ---------------------------------------------------------------------------
// Field masks
// ---------------------------------------------------------------------------

/// USBCMD: run/stop.
pub const USBCMD_RS: u32 = 1 << 0;

/// USBCMD: controller reset (self-clearing).
pub const USBCMD_RST: u32 = 1 << 1;

/// USBCMD: low bits of the frame list size code for 32 entries.
pub const USBCMD_FS_1_32: u32 = 0b01 << 2;

/// USBCMD: periodic schedule enable.
pub const USBCMD_PSE: u32 = 1 << 4;

/// USBCMD: asynchronous schedule enable.
pub const USBCMD_ASE: u32 = 1 << 5;

/// USBCMD: interrupt on async advance doorbell.
pub const USBCMD_IAA: u32 = 1 << 6;

/// USBCMD: an asynchronous schedule park count of three.
pub const USBCMD_ASP_3: u32 = 0b11 << 8;

/// USBCMD: asynchronous schedule park mode enable.
pub const USBCMD_ASPE: u32 = 1 << 11;

/// USBCMD: high bit of the frame list size code.
pub const USBCMD_FS_2: u32 = 1 << 15;

/// USBCMD: an interrupt threshold of one micro-frame.
pub const USBCMD_ITC_1: u32 = 1 << 16;

/// USBSTS: USB interrupt (transfer completion).
pub const USBSTS_UI: u32 = 1 << 0;

/// USBSTS: USB error interrupt.
pub const USBSTS_UEI: u32 = 1 << 1;

/// USBSTS: port change detect.
pub const USBSTS_PCI: u32 = 1 << 2;

/// USBSTS: interrupt on async advance.
pub const USBSTS_AAI: u32 = 1 << 5;

/// USBSTS: host asynchronous schedule interrupt.
pub const USBSTS_UAI: u32 = 1 << 18;

/// USBSTS: host periodic schedule interrupt.
pub const USBSTS_UPI: u32 = 1 << 19;

/// USBSTS: general purpose timer 0 interrupt.
pub const USBSTS_TI0: u32 = 1 << 24;

/// USBSTS: general purpose timer 1 interrupt.
pub const USBSTS_TI1: u32 = 1 << 25;

/// USBSTS: the bits that a write of one clears.
pub const USBSTS_W1C_MASK: u32 = 0x030C_05FF;

/// USBINTR: USB interrupt enable.
pub const USBINTR_UE: u32 = 1 << 0;

/// USBINTR: USB error interrupt enable.
pub const USBINTR_UEE: u32 = 1 << 1;

/// USBINTR: port change detect interrupt enable.
pub const USBINTR_PCE: u32 = 1 << 2;

/// USBINTR: system error interrupt enable.
pub const USBINTR_SEE: u32 = 1 << 4;

/// USBINTR: async advance interrupt enable.
pub const USBINTR_AAE: u32 = 1 << 5;

/// USBINTR: host asynchronous interrupt enable.
pub const USBINTR_UAIE: u32 = 1 << 18;

/// USBINTR: host periodic interrupt enable.
pub const USBINTR_UPIE: u32 = 1 << 19;

/// USBINTR: general purpose timer 0 interrupt enable.
pub const USBINTR_TIE0: u32 = 1 << 24;

/// USBINTR: general purpose timer 1 interrupt enable.
pub const USBINTR_TIE1: u32 = 1 << 25;

/// PORTSC1: current connect status.
pub const PORTSC1_CCS: u32 = 1 << 0;

/// PORTSC1: connect status change (cleared by a write of one).
pub const PORTSC1_CSC: u32 = 1 << 1;

/// PORTSC1: port enable/disable change (cleared by a write of one).
pub const PORTSC1_PEC: u32 = 1 << 3;

/// PORTSC1: over-current change (cleared by a write of one).
pub const PORTSC1_OCC: u32 = 1 << 5;

/// PORTSC1: force port resume.
pub const PORTSC1_FPR: u32 = 1 << 6;

/// PORTSC1: port reset.
pub const PORTSC1_PR: u32 = 1 << 8;

/// PORTSC1: port power.
pub const PORTSC1_PP: u32 = 1 << 12;

/// PORTSC1: port force full speed connect.
pub const PORTSC1_PFSC: u32 = 1 << 24;

/// PORTSC1: the change bits, which a write of one clears.
pub const PORTSC1_CHANGE_MASK: u32 = PORTSC1_CSC | PORTSC1_PEC | PORTSC1_OCC;

/// USBMODE: host controller mode.
pub const USBMODE_CM_HOST: u32 = 0b11;

/// SBUSCFG: INCR4 burst, then single transfers.
pub const SBUSCFG_AHBBRST_INCR4: u32 = 0b001;

/// GPTIMERxCTRL: timer mode (one: repeat).
pub const GPTIMERCTRL_GPTMODE: u32 = 1 << 24;

/// GPTIMERxCTRL: load the counter (a command: reads back as zero).
pub const GPTIMERCTRL_GPTRST: u32 = 1 << 30;

/// GPTIMERxCTRL: timer run.
pub const GPTIMERCTRL_GPTRUN: u32 = 1 << 31;

// ---------------------------------------------------------------------------
// Registers
// ---------------------------------------------------------------------------

/// The registers of the USB core that the driver uses.
#[derive(Debug, Clone, Copy, PartialEq, Eq, Structural)]
pub enum Reg {
    Gptimer0Ld,
    Gptimer0Ctrl,
    Gptimer1Ld,
    Gptimer1Ctrl,
    Sbuscfg,
    Usbcmd,
    Usbsts,
    Usbintr,
    Frindex,
    Deviceaddr,
    Asynclistaddr,
    Portsc1,
    Usbmode,
}

/// The values of the registers of a USB core.
#[derive(Debug, Clone, Copy, PartialEq, Eq)]
pub struct RegisterBlock {
    pub gptimer0ld: u32,
    pub gptimer0ctrl: u32,
    pub gptimer1ld: u32,
    pub gptimer1ctrl: u32,
    pub sbuscfg: u32,
    pub usbcmd: u32,
    pub usbsts: u32,
    pub usbintr: u32,
    pub frindex: u32,
    pub deviceaddr: u32,
    pub asynclistaddr: u32,
    pub portsc1: u32,
    pub usbmode: u32,
}

/// The value that a register holds after a write of `value` to it, if it held `held`
/// before: status and change bits are cleared by a write of one and kept by a write of
/// zero, the timer's load command is not kept, and any other bit takes the value written.
pub open spec fn value_after_write(reg: Reg, held: u32, value: u32) -> u32 {
    match reg {
        Reg::Usbsts => held & !(value & USBSTS_W1C_MASK),
        Reg::Portsc1 => (value & !PORTSC1_CHANGE_MASK) | (held & PORTSC1_CHANGE_MASK & !value),
        Reg::Gptimer0Ctrl => value & !GPTIMERCTRL_GPTRST,
        Reg::Gptimer1Ctrl => value & !GPTIMERCTRL_GPTRST,
        _ => value,
    }
}

impl RegisterBlock {
    /// The value of a register.
    pub open spec fn value(self, reg: Reg) -> u32 {
        match reg {
            Reg::Gptimer0Ld => self.gptimer0ld,
            Reg::Gptimer0Ctrl => self.gptimer0ctrl,
            Reg::Gptimer1Ld => self.gptimer1ld,
            Reg::Gptimer1Ctrl => self.gptimer1ctrl,
            Reg::Sbuscfg => self.sbuscfg,
            Reg::Usbcmd => self.usbcmd,
            Reg::Usbsts => self.usbsts,
            Reg::Usbintr => self.usbintr,
            Reg::Frindex => self.frindex,
            Reg::Deviceaddr => self.deviceaddr,
            Reg::Asynclistaddr => self.asynclistaddr,
            Reg::Portsc1 => self.portsc1,
            Reg::Usbmode => self.usbmode,
        }
    }

    /// The block with another value in one register.
    pub open spec fn with(self, reg: Reg, value: u32) -> Self {
        match reg {
            Reg::Gptimer0Ld => RegisterBlock { gptimer0ld: value, ..self },
            Reg::Gptimer0Ctrl => RegisterBlock { gptimer0ctrl: value, ..self },
            Reg::Gptimer1Ld => RegisterBlock { gptimer1ld: value, ..self },
            Reg::Gptimer1Ctrl => RegisterBlock { gptimer1ctrl: value, ..self },
            Reg::Sbuscfg => RegisterBlock { sbuscfg: value, ..self },
            Reg::Usbcmd => RegisterBlock { usbcmd: value, ..self },
            Reg::Usbsts => RegisterBlock { usbsts: value, ..self },
            Reg::Usbintr => RegisterBlock { usbintr: value, ..self },
            Reg::Frindex => RegisterBlock { frindex: value, ..self },
            Reg::Deviceaddr => RegisterBlock { deviceaddr: value, ..self },
            Reg::Asynclistaddr => RegisterBlock { asynclistaddr: value, ..self },
            Reg::Portsc1 => RegisterBlock { portsc1: value, ..self },
            Reg::Usbmode => RegisterBlock { usbmode: value, ..self },
        }
    }

    /// A block in which every register holds zero.
    pub fn zeroed() -> (block: Self)
        ensures
            forall|reg: Reg| #[trigger] block.value(reg) == 0,
    {
        RegisterBlock {
            gptimer0ld: 0,
            gptimer0ctrl: 0,
            gptimer1ld: 0,
            gptimer1ctrl: 0,
            sbuscfg: 0,
            usbcmd: 0,
            usbsts: 0,
            usbintr: 0,
            frindex: 0,
            deviceaddr: 0,
            asynclistaddr: 0,
            portsc1: 0,
            usbmode: 0,
        }
    }

    /// Read a register.
    pub fn get(&self, reg: Reg) -> (value: u32)
        ensures
            value == self.value(reg),
    {
        match reg {
            Reg::Gptimer0Ld => self.gptimer0ld,
            Reg::Gptimer0Ctrl => self.gptimer0ctrl,
            Reg::Gptimer1Ld => self.gptimer1ld,
            Reg::Gptimer1Ctrl => self.gptimer1ctrl,
            Reg::Sbuscfg => self.sbuscfg,
            Reg::Usbcmd => self.usbcmd,
            Reg::Usbsts => self.usbsts,
            Reg::Usbintr => self.usbintr,
            Reg::Frindex => self.frindex,
            Reg::Deviceaddr => self.deviceaddr,
            Reg::Asynclistaddr => self.asynclistaddr,
            Reg::Portsc1 => self.portsc1,
            Reg::Usbmode => self.usbmode,
        }
    }

    /// Replace the value of a register.
    pub fn set(&mut self, reg: Reg, value: u32)
        ensures
            *final(self) == old(self).with(reg, value),
    {
        match reg {
            Reg::Gptimer0Ld => {
                self.gptimer0ld = value;
            },
            Reg::Gptimer0Ctrl => {
                self.gptimer0ctrl = value;
            },
            Reg::Gptimer1Ld => {
                self.gptimer1ld = value;
            },
            Reg::Gptimer1Ctrl => {
                self.gptimer1ctrl = value;
            },
            Reg::Sbuscfg => {
                self.sbuscfg = value;
            },
            Reg::Usbcmd => {
                self.usbcmd = value;
            },
            Reg::Usbsts => {
                self.usbsts = value;
            },
            Reg::Usbintr => {
                self.usbintr = value;
            },
            Reg::Frindex => {
                self.frindex = value;
            },
            Reg::Deviceaddr => {
                self.deviceaddr = value;
            },
            Reg::Asynclistaddr => {
                self.asynclistaddr = value;
            },
            Reg::Portsc1 => {
                self.portsc1 = value;
            },
            Reg::Usbmode => {
                self.usbmode = value;
            },
        }
    }
}

// ---------------------------------------------------------------------------
// Instance
// ---------------------------------------------------------------------------

/// A USB register instance: the image of its registers, and the queue of actions
/// that the hardware is still to carry out.
pub struct Instance {
    /// Base address of the register block.
    pub addr: u32,
    /// The register values.
    pub regs: RegisterBlock,
    /// Actions to carry out, oldest first.
    pub queue: Vec<Action>,
}

/// What an [`Instance`] stands for.
#[verifier::ext_equal]
pub struct InstanceView {
    pub addr: u32,
    pub regs: RegisterBlock,
    pub queue: Seq<Action>,
}

impl InstanceView {
    /// The value of a register.
    pub open spec fn reg(self, reg: Reg) -> u32 {
        self.regs.value(reg)
    }

    /// After one more action.
    pub open spec fn push(self, action: Action) -> Self {
        InstanceView { queue: self.queue.push(action), ..self }
    }

    /// After more actions, none of which writes a register of the core.
    pub open spec fn after(self, actions: Seq<Action>) -> Self {
        InstanceView { queue: self.queue + actions, ..self }
    }

    /// After a write to a register.
    pub open spec fn write(self, reg: Reg, value: u32) -> Self {
        InstanceView {
            regs: self.regs.with(reg, value_after_write(reg, self.reg(reg), value)),
            queue: self.queue.push(Action::WriteUsb { reg, value }),
            ..self
        }
    }

    /// After setting the bits in `mask` of a register, by a read and a write.
    pub open spec fn set_bits(self, reg: Reg, mask: u32) -> Self {
        InstanceView {
            regs: self.write(reg, self.reg(reg) | mask).regs,
            queue: self.queue.push(Action::ModifyUsb { reg, clear: 0, set: mask }),
            ..self
        }
    }

    /// After clearing the bits in `mask` of a register, by a read and a write.
    pub open spec fn clear_bits(self, reg: Reg, mask: u32) -> Self {
        InstanceView {
            regs: self.write(reg, self.reg(reg) & !mask).regs,
            queue: self.queue.push(Action::ModifyUsb { reg, clear: mask, set: 0 }),
            ..self
        }
    }
}

impl View for Instance {
    type V = InstanceView;

    open spec fn view(&self) -> InstanceView {
        InstanceView { addr: self.addr, regs: self.regs, queue: self.queue@ }
    }
}

impl Instance {
    /// An instance over the register block at `addr` whose registers hold the values
    /// `regs`, with no action queued.
    pub fn from_ral(addr: u32, regs: RegisterBlock) -> (instance: Self)
        ensures
            instance@ == (InstanceView { addr, regs, queue: Seq::empty() }),
    {
        Instance { addr, regs, queue: Vec::new() }
    }

    /// Read a register.
    pub fn read(&self, reg: Reg) -> (value: u32)
        ensures
            value == self@.reg(reg),
    {
        self.regs.get(reg)
    }

    /// Let the image of a register take the effect of a write.
    fn take_write(&mut self, reg: Reg, value: u32)
        ensures
            final(self)@ == (InstanceView {
                regs: old(self)@.write(reg, value).regs,
                ..old(self)@
            }),
    {
        let held: u32 = self.regs.get(reg);
        let kept: u32 = match reg {
            Reg::Usbsts => held & !(value & USBSTS_W1C_MASK),
            Reg::Portsc1 => (value & !PORTSC1_CHANGE_MASK) | (held & PORTSC1_CHANGE_MASK & !value),
            Reg::Gptimer0Ctrl => value & !GPTIMERCTRL_GPTRST,
            Reg::Gptimer1Ctrl => value & !GPTIMERCTRL_GPTRST,
            _ => value,
        };
        self.regs.set(reg, kept);
    }

    /// Write a register.
    pub fn write(&mut self, reg: Reg, value: u32)
        ensures
            final(self)@ == old(self)@.write(reg, value),
    {
        self.take_write(reg, value);
        self.queue.push(Action::WriteUsb { reg, value });
    }

    /// Set the bits in `mask` of a register (read-modify-write).
    ///
    /// The register is read when the action is carried out, so that no bit that changed since
    /// the image was loaded is written back.
    pub fn set_bits(&mut self, reg: Reg, mask: u32)
        ensures
            final(self)@ == old(self)@.set_bits(reg, mask),
    {
        let value: u32 = self.read(reg);
        self.take_write(reg, value | mask);
        self.queue.push(Action::ModifyUsb { reg, clear: 0, set: mask });
    }

    /// Clear the bits in `mask` of a register (read-modify-write).
    ///
    /// The register is read when the action is carried out, as for
    /// [`set_bits`](Self::set_bits).
    pub fn clear_bits(&mut self, reg: Reg, mask: u32)
        ensures
            final(self)@ == old(self)@.clear_bits(reg, mask),
    {
        let value: u32 = self.read(reg);
        self.take_write(reg, value & !mask);
        self.queue.push(Action::ModifyUsb { reg, clear: mask, set: 0 });
    }

    /// Queue an action that writes no register of the core.
    pub fn push(&mut self, action: Action)
        requires
            !(action is WriteUsb),
            !(action is ModifyUsb),
        ensures
            final(self)@ == old(self)@.push(action),
    {
        self.queue.push(action);
    }
}

/// A write to one register leaves the value of every other register as it was.
pub proof fn lemma_write_frame(usb: InstanceView, written: Reg, value: u32, other: Reg)
    requires
        other != written,
    ensures
        usb.write(written, value).reg(other) == usb.reg(other),
        usb.write(written, value).reg(written) == value_after_write(
            written,
            usb.reg(written),
            value,
        ),
{
}

/// Where the bits and fields of the registers are.
pub proof fn lemma_register_bits()
    ensures
        USBCMD_RS == 0x1,
        USBCMD_RST == 0x2,
        USBCMD_FS_1_32 == 0x4,
        USBCMD_PSE == 0x10,
        USBCMD_ASE == 0x20,
        USBCMD_IAA == 0x40,
        USBCMD_ASP_3 == 0x300,
        USBCMD_ASPE == 0x800,
        USBCMD_FS_2 == 0x8000,
        USBCMD_ITC_1 == 0x1_0000,
        USBSTS_UI == 0x1,
        USBSTS_UEI == 0x2,
        USBSTS_PCI == 0x4,
        USBSTS_AAI == 0x20,
        USBSTS_UAI == 0x4_0000,
        USBSTS_UPI == 0x8_0000,
        USBSTS_TI0 == 0x100_0000,
        USBSTS_TI1 == 0x200_0000,
        USBSTS_W1C_MASK == 0x30C_05FF,
        USBINTR_UE == 0x1,
        USBINTR_UEE == 0x2,
        USBINTR_PCE == 0x4,
        USBINTR_SEE == 0x10,
        USBINTR_AAE == 0x20,
        USBINTR_UAIE == 0x4_0000,
        USBINTR_UPIE == 0x8_0000,
        USBINTR_TIE0 == 0x100_0000,
        USBINTR_TIE1 == 0x200_0000,
        PORTSC1_CCS == 0x1,
        PORTSC1_CSC == 0x2,
        PORTSC1_PEC == 0x8,
        PORTSC1_OCC == 0x20,
        PORTSC1_FPR == 0x40,
        PORTSC1_PR == 0x100,
        PORTSC1_PP == 0x1000,
        PORTSC1_PFSC == 0x100_0000,
        PORTSC1_CHANGE_MASK == 0x2A,
        USBMODE_CM_HOST == 0x3,
        SBUSCFG_AHBBRST_INCR4 == 0x1,
        GPTIMERCTRL_GPTMODE == 0x100_0000,
        GPTIMERCTRL_GPTRST == 0x4000_0000,
        GPTIMERCTRL_GPTRUN == 0x8000_0000,
{
    assert(USBCMD_RS == 0x1
        && USBCMD_RST == 0x2
        && USBCMD_FS_1_32 == 0x4
        && USBCMD_PSE == 0x10
        && USBCMD_ASE == 0x20
        && USBCMD_IAA == 0x40
        && USBCMD_ASP_3 == 0x300
        && USBCMD_ASPE == 0x800
        && USBCMD_FS_2 == 0x8000
        && USBCMD_ITC_1 == 0x1_0000
        && USBSTS_UI == 0x1
        && USBSTS_UEI == 0x2
        && USBSTS_PCI == 0x4
        && USBSTS_AAI == 0x20
        && USBSTS_UAI == 0x4_0000
        && USBSTS_UPI == 0x8_0000
        && USBSTS_TI0 == 0x100_0000
        && USBSTS_TI1 == 0x200_0000
        && USBSTS_W1C_MASK == 0x30C_05FF
        && USBINTR_UE == 0x1
        && USBINTR_UEE == 0x2
        && USBINTR_PCE == 0x4
        && USBINTR_SEE == 0x10
        && USBINTR_AAE == 0x20
        && USBINTR_UAIE == 0x4_0000
        && USBINTR_UPIE == 0x8_0000
        && USBINTR_TIE0 == 0x100_0000
        && USBINTR_TIE1 == 0x200_0000
        && PORTSC1_CCS == 0x1
        && PORTSC1_CSC == 0x2
        && PORTSC1_PEC == 0x8
        && PORTSC1_OCC == 0x20
        && PORTSC1_FPR == 0x40
        && PORTSC1_PR == 0x100
        && PORTSC1_PP == 0x1000
        && PORTSC1_PFSC == 0x100_0000
        && PORTSC1_CHANGE_MASK == 0x2A
        && USBMODE_CM_HOST == 0x3
        && SBUSCFG_AHBBRST_INCR4 == 0x1
        && GPTIMERCTRL_GPTMODE == 0x100_0000
        && GPTIMERCTRL_GPTRST == 0x4000_0000
        && GPTIMERCTRL_GPTRUN == 0x8000_0000) by (bit_vector);
}

/// Each register is a field of its own: a read gives its value, and storing another value in it
/// changes this field only.
pub proof fn lemma_register_fields(block: RegisterBlock, reg: Reg, value: u32)
    ensures
        block.value(Reg::Gptimer0Ld) == block.gptimer0ld,
        block.value(Reg::Gptimer0Ctrl) == block.gptimer0ctrl,
        block.value(Reg::Gptimer1Ld) == block.gptimer1ld,
        block.value(Reg::Gptimer1Ctrl) == block.gptimer1ctrl,
        block.value(Reg::Sbuscfg) == block.sbuscfg,
        block.value(Reg::Usbcmd) == block.usbcmd,
        block.value(Reg::Usbsts) == block.usbsts,
        block.value(Reg::Usbintr) == block.usbintr,
        block.value(Reg::Frindex) == block.frindex,
        block.value(Reg::Deviceaddr) == block.deviceaddr,
        block.value(Reg::Asynclistaddr) == block.asynclistaddr,
        block.value(Reg::Portsc1) == block.portsc1,
        block.value(Reg::Usbmode) == block.usbmode,
        block.with(reg, value).value(reg) == value,
        forall|other: Reg|
            other != reg ==> #[trigger] block.with(reg, value).value(other) == block.value(other),
{
}

/// A write is handed to the hardware as it is, after all that was queued before. In the image,
/// USBSTS loses the status bits that are written as one; PORTSC1 takes the value, but its change
/// bits stay unless they are written as one; the control registers of the timers take the value
/// but for the load command; any other register takes the value. No other register changes.
pub proof fn lemma_write(usb: InstanceView, reg: Reg, value: u32)
    ensures
        ({
            let after = usb.write(reg, value);
            let held = usb.reg(reg);
            &&& after.queue == usb.queue.push(Action::WriteUsb { reg, value })
            &&& after.addr == usb.addr
            &&& after.reg(reg) == (match reg {
                Reg::Usbsts => held & !(value & 0x030C_05FFu32),
                Reg::Portsc1 => (value & !0x2Au32) | (held & 0x2Au32 & !value),
                Reg::Gptimer0Ctrl => value & !0x4000_0000u32,
                Reg::Gptimer1Ctrl => value & !0x4000_0000u32,
                _ => value,
            })
            &&& forall|other: Reg| other != reg ==> #[trigger] after.reg(other) == usb.reg(other)
        }),
{
    lemma_register_bits();
}

/// A change of some bits is handed to the hardware as the bits to clear and to set, so that the
/// hardware reads the register anew. The image changes as by a write of the register's value with
/// these bits cleared or set.
pub proof fn lemma_modify(usb: InstanceView, reg: Reg, mask: u32)
    ensures
        ({
            let set = usb.set_bits(reg, mask);
            let cleared = usb.clear_bits(reg, mask);
            &&& set.queue == usb.queue.push(Action::ModifyUsb { reg, clear: 0, set: mask })
            &&& cleared.queue == usb.queue.push(Action::ModifyUsb { reg, clear: mask, set: 0 })
            &&& set.addr == usb.addr
            &&& cleared.addr == usb.addr
            &&& set.regs == usb.write(reg, usb.reg(reg) | mask).regs
            &&& cleared.regs == usb.write(reg, usb.reg(reg) & !mask).regs
        }),
{
}

/// Actions are carried out in the order in which they are queued, and queuing them leaves the
/// image of the registers alone.
pub proof fn lemma_queue(usb: InstanceView, action: Action, actions: Seq<Action>)
    ensures
        usb.push(action).queue == usb.queue + seq![action],
        usb.push(action).regs == usb.regs,
        usb.push(action).addr == usb.addr,
        usb.after(actions).queue == usb.queue + actions,
        usb.after(actions).regs == usb.regs,
        usb.after(actions).addr == usb.addr,
{
    assert(usb.queue + seq![action] =~= usb.queue.push(action));
}

} // verus!
