//! Register images of the USB core and the USB PHY.
//!
//! An image holds, for each register that the driver uses, the value that was last
//! loaded from the register. Writes go through the image: they are queued for the
//! hardware and change the image as they will change the register.
//!
//! The USB core register block includes both device-mode and host-mode field
//! definitions at the same offsets. Key host-mode mappings:
//!
//! | EHCI Name | Register | Purpose |
//! |-----------|----------|---------|
//! | `PERIODICLISTBASE` | `DEVICEADDR` | Periodic frame list base address |
//! | `ASYNCLISTADDR` | `ASYNCLISTADDR` | Async schedule list pointer |
//! | `PORTSC` | `PORTSC1` | Port status and control |

/// USB OTG core registers and field definitions.
pub mod usb;

/// USB PHY registers and field definitions.
pub mod usbphy;
