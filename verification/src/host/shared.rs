//! What the interrupt handler does.

use crate::host::types::WakerId;
use crate::host::NUM_PIPE_WAKERS;
use crate::ral::usb;
use vstd::prelude::*;

verus! {

/// The status bits that report transfer completion or a transfer error.
pub const TRANSFER_STATUS: u32 = usb::USBSTS_UI | usb::USBSTS_UEI | usb::USBSTS_UAI
    | usb::USBSTS_UPI;

/// The status bits that have an enable bit of the same place in USBINTR, and that the handler
/// masks.
pub const SERVICED_MASK: u32 = 0x000F_003F;

/// The wake-ups that the USB interrupt handler asks for.
///
/// # Design
///
/// The interrupt handler reads hardware interrupt status, asks for the appropriate wakers to be
/// woken, and **masks** the serviced interrupts to prevent IRQ storms. The poll functions
/// re-enable interrupts before they report that there is nothing to do yet.
///
/// This is the "disable-on-handle / re-enable-on-poll" pattern.
#[derive(Debug, Clone, Copy, PartialEq, Eq)]
pub struct UsbShared {
    /// Whether to wake the device detection (port change events).
    pub device_waker: bool,
    /// Which pipes to wake. Index 0 is the control pipe; the others are bulk/interrupt pipes.
    pub pipe_wakers: [bool; 5],
    /// Whether to wake what waits for the async advance doorbell.
    pub async_advance_waker: bool,
}

impl UsbShared {
    /// Whether the waker `id` is to be woken.
    pub open spec fn wakes(self, id: WakerId) -> bool {
        match id {
            WakerId::Device => self.device_waker,
            WakerId::Pipe(i) => i < NUM_PIPE_WAKERS && self.pipe_wakers[i as int],
            WakerId::AsyncAdvance => self.async_advance_waker,
        }
    }

    /// What the interrupt handler asks for in addition, and the registers after it.
    pub open spec fn handled(self, usb: usb::InstanceView) -> (Self, usb::InstanceView) {
        let status = usb.reg(usb::Reg::Usbsts);
        (
            UsbShared {
                device_waker: self.device_waker || status & usb::USBSTS_PCI != 0,
                pipe_wakers: if status & TRANSFER_STATUS != 0 {
                    [true, true, true, true, true]
                } else {
                    self.pipe_wakers
                },
                async_advance_waker: self.async_advance_waker || status & usb::USBSTS_AAI != 0,
            },
            usb.write(usb::Reg::Usbsts, status & !usb::USBSTS_AAI).clear_bits(
                usb::Reg::Usbintr,
                status & SERVICED_MASK,
            ),
        )
    }

    /// Create a new `UsbShared` instance, with no wake-up asked for.
    pub fn new() -> (shared: Self)
        ensures
            forall|id: WakerId| !#[trigger] shared.wakes(id),
    {
        UsbShared {
            device_waker: false,
            pipe_wakers: [false, false, false, false, false],
            async_advance_waker: false,
        }
    }

    /// Called from the `USB_OTG2` interrupt handler.
    ///
    /// Reads USBSTS, asks for the appropriate wakers to be woken, and masks the serviced
    /// interrupts in USBINTR to prevent re-entry until the async task
    /// re-enables them.
    ///
    /// Pending status bits are acknowledged, but NOT AAI: what waits for the async advance
    /// doorbell reads it to detect completion, and would miss it otherwise.
    pub fn on_irq(&mut self, usb: &mut usb::Instance)
        ensures
            (*final(self), final(usb)@) == old(self).handled(old(usb)@),
            ({
                let status = old(usb)@.reg(usb::Reg::Usbsts);
                &&& final(usb)@ == old(usb)@.write(
                    usb::Reg::Usbsts,
                    status & !usb::USBSTS_AAI,
                ).clear_bits(usb::Reg::Usbintr, status & SERVICED_MASK)
                &&& final(self).device_waker == (old(self).device_waker || status
                    & usb::USBSTS_PCI != 0)
                &&& forall|i: int|
                    0 <= i < NUM_PIPE_WAKERS ==> #[trigger] final(self).pipe_wakers[i] == (old(
                        self,
                    ).pipe_wakers[i] || status & TRANSFER_STATUS != 0)
                &&& final(self).async_advance_waker == (old(self).async_advance_waker || status
                    & usb::USBSTS_AAI != 0)
            }),
    {
        // Read which interrupts fired
        let status: u32 = usb.read(usb::Reg::Usbsts);
        usb.write(usb::Reg::Usbsts, status & !usb::USBSTS_AAI);
        // Port Change Interrupt: wake the device detection
        if status & usb::USBSTS_PCI != 0 {
            self.device_waker = true;
        }
        // USB Interrupt, USB Error Interrupt, and the finer-grained completion
        // interrupts: wake all pipes. The poll functions will check their
        // individual QH/qTD status to determine which pipe completed.
        if status & TRANSFER_STATUS != 0 {
            self.pipe_wakers = [true, true, true, true, true];
        }
        // Async Advance Interrupt: doorbell acknowledged, safe to free unlinked QHs.
        if status & usb::USBSTS_AAI != 0 {
            self.async_advance_waker = true;
        }
        // Mask the interrupts we just serviced to prevent re-entry.
        usb.clear_bits(usb::Reg::Usbintr, status & SERVICED_MASK);
    }

    /// Called from the `USB_OTG2` interrupt handler, with the values of the registers of the
    /// USB core at `usb_base`.
    ///
    /// Like [`on_irq`](Self::on_irq), for an interrupt handler that has no register instance.
    /// Returns the instance, with the register writes in its queue.
    pub fn on_usb_irq(&mut self, usb_base: u32, regs: usb::RegisterBlock) -> (usb: usb::Instance)
        ensures
            (*final(self), usb@) == old(self).handled(
                usb::InstanceView { addr: usb_base, regs, queue: Seq::empty() },
            ),
            ({
                let status = regs.value(usb::Reg::Usbsts);
                let before = usb::InstanceView { addr: usb_base, regs, queue: Seq::empty() };
                &&& usb@ == before.write(usb::Reg::Usbsts, status & !usb::USBSTS_AAI).clear_bits(
                    usb::Reg::Usbintr,
                    status & SERVICED_MASK,
                )
                &&& final(self).device_waker == (old(self).device_waker || status
                    & usb::USBSTS_PCI != 0)
                &&& forall|i: int|
                    0 <= i < NUM_PIPE_WAKERS ==> #[trigger] final(self).pipe_wakers[i] == (old(
                        self,
                    ).pipe_wakers[i] || status & TRANSFER_STATUS != 0)
                &&& final(self).async_advance_waker == (old(self).async_advance_waker || status
                    & usb::USBSTS_AAI != 0)
            }),
    {
        let mut usb = usb::Instance::from_ral(usb_base, regs);
        self.on_irq(&mut usb);
        usb
    }

    /// Whether to wake the device detection.
    pub fn device_waker(&self) -> (wake: bool)
        ensures
            wake == self.wakes(WakerId::Device),
    {
        self.device_waker
    }

    /// Whether to wake a pipe.
    pub fn pipe_waker(&self, index: usize) -> (wake: bool)
        requires
            index < NUM_PIPE_WAKERS,
        ensures
            wake == self.wakes(WakerId::Pipe(index)),
    {
        self.pipe_wakers[index]
    }

    /// Whether to wake what waits for the async advance doorbell.
    pub fn async_advance_waker(&self) -> (wake: bool)
        ensures
            wake == self.wakes(WakerId::AsyncAdvance),
    {
        self.async_advance_waker
    }
}

} // verus!
