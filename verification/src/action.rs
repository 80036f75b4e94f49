//! The steps that the hardware layer carries out on behalf of the driver.

use crate::ehci::{QueueHead, TransferDescriptor};
use crate::ral::{usb, usbphy};
use vstd::prelude::*;

verus! {

/// One effect of the driver on the hardware.
///
/// The driver queues its actions in the order in which they must take effect; the
/// hardware layer carries them out in that order.
#[derive(Debug, Clone, Copy, PartialEq, Eq)]
pub enum Action {
    /// Write a register of the USB core.
    WriteUsb { reg: usb::Reg, value: u32 },
    /// Read a register of the USB core, clear and then set the given bits, and write it back.
    ModifyUsb { reg: usb::Reg, clear: u32, set: u32 },
    /// Write a register of the USB PHY.
    WritePhy { phy: usbphy::Reg, value: u32 },
    /// Store one word of DMA memory.
    StoreWord { addr: u32, value: u32 },
    /// Store one byte of DMA memory.
    StoreByte { addr: u32, byte: u8 },
    /// Store all words of the queue head with the given pool index.
    StoreQh { index: usize, qh: QueueHead },
    /// Store all words of the transfer descriptor with the given pool index.
    StoreQtd { index: usize, qtd: TransferDescriptor },
    /// Clean and invalidate the data cache over a range of addresses.
    CleanInvalidate { addr: u32, size: u32 },
    /// Invalidate the data cache over a range of addresses, writing nothing back.
    Invalidate { addr: u32, size: u32 },
    /// Wait for a number of processor cycles.
    Delay { cycles: u32 },
}

} // verus!
