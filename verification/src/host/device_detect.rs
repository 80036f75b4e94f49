//! Device detection for the root port.

use crate::host::controller::{ControllerView, ImxrtHostController};
use crate::host::types::{DeviceStatus, Poll, UsbSpeed, WakerId};
use crate::ral::{usb, usbphy};
use vstd::prelude::*;

verus! {

/// Device detection for the i.MX RT 1062 USB host controller.
///
/// Monitors the root port for connect/disconnect events by polling PORTSC1.
/// Yields `DeviceStatus::Present(speed)` when a device is connected, and
/// `DeviceStatus::Absent` when disconnected.
///
/// Stores the previous status and only yields an event when a device is connected or
/// disconnected.
#[derive(Debug, Clone, Copy, PartialEq, Eq, Structural)]
pub struct Imxrt1062DeviceDetect {
    /// The status when last polled.
    pub status: DeviceStatus,
}

/// The event for a port that was in the status `before` when last polled, and is in the status
/// `now`.
pub open spec fn event(before: DeviceStatus, now: DeviceStatus) -> Poll<DeviceStatus> {
    if (now is Absent) != (before is Absent) {
        Poll::Ready(now)
    } else {
        Poll::Pending
    }
}

impl Imxrt1062DeviceDetect {
    /// What a poll reports, the device detection after it, and the controller after it.
    pub open spec fn polled(self, hc: ControllerView) -> (Poll<DeviceStatus>, Self, ControllerView) {
        let now = crate::host::controller::port_status(hc.usb.reg(usb::Reg::Portsc1));
        let poll = event(self.status, now);
        let detector = if now == DeviceStatus::Present(UsbSpeed::High480) && now != self.status {
            hc.write_phy(usbphy::Reg::CtrlSet, usbphy::CTRL_ENHOSTDISCONDETECT)
        } else if poll is Ready {
            hc.write_phy(usbphy::Reg::CtrlClr, usbphy::CTRL_ENHOSTDISCONDETECT)
        } else {
            hc
        };
        (
            poll,
            Imxrt1062DeviceDetect { status: now },
            detector.set_bits(usb::Reg::Usbintr, usb::USBINTR_PCE),
        )
    }

    /// Start without a device.
    pub fn new() -> (detect: Self)
        ensures
            detect.status == DeviceStatus::Absent,
    {
        Imxrt1062DeviceDetect { status: DeviceStatus::Absent }
    }

    /// The waker to register before the next poll.
    pub fn waker(&self) -> (waker: WakerId)
        ensures
            waker == WakerId::Device,
    {
        WakerId::Device
    }

    /// Check for a connect or disconnect event.
    ///
    /// Speed-change-only events are suppressed because EHCI
    /// reports FS before port reset (PSPD from line state) then HS after
    /// reset (PSPD from chirp negotiation). Without this filter, a HS
    /// device triggers two events: Present(Full12) then
    /// Present(High480), and the second one causes the host stack to
    /// re-reset the port and re-enumerate, disrupting hub state.
    ///
    /// The PHY's HS disconnect detector is turned on for High Speed devices only. The port
    /// change interrupt is enabled again in any case.
    ///
    /// The waker must be registered, and the register image loaded, before this is called.
    pub fn poll_next(&mut self, hc: &mut ImxrtHostController<'_>) -> (poll: Poll<DeviceStatus>)
        requires
            old(hc).wf(),
        ensures
            final(hc).wf(),
            (poll, *final(self), final(hc)@) == old(self).polled(old(hc)@),
            ({
                let status = crate::host::controller::port_status(
                    old(hc)@.usb.reg(usb::Reg::Portsc1),
                );
                let high_speed = status == DeviceStatus::Present(UsbSpeed::High480);
                &&& final(self).status == status
                &&& poll == event(old(self).status, status)
                &&& final(hc)@ == (if high_speed && status != old(self).status {
                    old(hc)@.write_phy(
                        usbphy::Reg::CtrlSet,
                        usbphy::CTRL_ENHOSTDISCONDETECT,
                    )
                } else if poll is Ready {
                    old(hc)@.write_phy(
                        usbphy::Reg::CtrlClr,
                        usbphy::CTRL_ENHOSTDISCONDETECT,
                    )
                } else {
                    old(hc)@
                }).set_bits(usb::Reg::Usbintr, usb::USBINTR_PCE)
            }),
    {
        let device_status = hc.device_status();
        let was_connected: bool = self.status != DeviceStatus::Absent;
        let is_connected: bool = device_status != DeviceStatus::Absent;
        let high_speed: bool = device_status == DeviceStatus::Present(UsbSpeed::High480);
        if was_connected != is_connected {
            if high_speed {
                self.set_enhostdiscondetect(hc);
            } else {
                // Disconnected, or FS/LS device: ensure disconnect detector is off.
                self.clear_enhostdiscondetect(hc);
            }
            hc.reenable_port_change_interrupt();
            self.status = device_status;
            Poll::Ready(device_status)
        } else {
            // Silently track any speed change (e.g. FS to HS after reset).
            if device_status != self.status {
                if high_speed {
                    self.set_enhostdiscondetect(hc);
                }
                self.status = device_status;
            }
            hc.reenable_port_change_interrupt();
            Poll::Pending
        }
    }

    /// Set ENHOSTDISCONDETECT in the USBPHY CTRL register.
    ///
    /// Must only be called when a High Speed device is connected.
    /// Enables the PHY's HS disconnect detector.
    fn set_enhostdiscondetect(&self, hc: &mut ImxrtHostController<'_>)
        requires
            old(hc).wf(),
        ensures
            final(hc).wf(),
            final(hc)@ == old(hc)@.write_phy(
                usbphy::Reg::CtrlSet,
                usbphy::CTRL_ENHOSTDISCONDETECT,
            ),
    {
        hc.write_phy(usbphy::Reg::CtrlSet, usbphy::CTRL_ENHOSTDISCONDETECT);
    }

    /// Clear ENHOSTDISCONDETECT in the USBPHY CTRL register.
    ///
    /// Called on device disconnect to prevent false disconnect detection
    /// when no device is connected.
    fn clear_enhostdiscondetect(&self, hc: &mut ImxrtHostController<'_>)
        requires
            old(hc).wf(),
        ensures
            final(hc).wf(),
            final(hc)@ == old(hc)@.write_phy(
                usbphy::Reg::CtrlClr,
                usbphy::CTRL_ENHOSTDISCONDETECT,
            ),
    {
        hc.write_phy(usbphy::Reg::CtrlClr, usbphy::CTRL_ENHOSTDISCONDETECT);
    }
}

impl<'p> ImxrtHostController<'p> {
    /// Start device detection.
    pub fn device_detect(&self) -> (detect: Imxrt1062DeviceDetect)
        ensures
            detect.status == DeviceStatus::Absent,
    {
        Imxrt1062DeviceDetect::new()
    }
}

} // verus!
