//! Requests, results, and events of the host stack.

use vstd::prelude::*;

verus! {

/// Errors reported from a USB operation.
#[derive(Debug, Clone, Copy, PartialEq, Eq, Structural)]
pub enum UsbError {
    /// The device has stalled the endpoint.
    Stall,
    /// The USB transaction has timed out.
    Timeout,
    /// The input FIFO overflowed.
    Overflow,
    /// The USB hardware experienced a bit-stuffing error.
    BitStuffError,
    /// The USB hardware experienced a CRC error.
    CrcError,
    /// The USB hardware received a DATA1 packet when expecting DATA0, or vice versa.
    DataSeqError,
    /// A buffer was too small for the intended data.
    BufferTooSmall,
    /// A USB transaction was attempted when all hardware resources were in use.
    AllPipesInUse,
    /// The device has reacted in a way contrary to the expected protocol.
    ProtocolError,
    /// The limit of attached USB devices has been reached.
    TooManyDevices,
    /// There is no endpoint with the given number.
    NoSuchEndpoint,
}

/// Connection speed for a USB device.
#[derive(Debug, Clone, Copy, PartialEq, Eq, Structural)]
pub enum UsbSpeed {
    /// USB 1.1 Low Speed (1.5Mbits/s).
    Low1_5,
    /// USB 1.1 Full Speed (12Mbits/s).
    Full12,
    /// USB 2.0 High Speed (480Mbits/s).
    High480,
}

/// Events generated by hotplug/hot-unplug detection.
#[derive(Debug, Clone, Copy, PartialEq, Eq, Structural)]
pub enum DeviceStatus {
    /// A device is connected (and negotiated a certain speed).
    Present(UsbSpeed),
    /// No device is connected.
    Absent,
}

/// Special treatment for a particular transfer.
#[derive(Debug, Clone, Copy, PartialEq, Eq, Structural)]
pub enum TransferExtras {
    /// Normal transfer.
    Normal,
    /// Low-speed transfer through a hub (USB 2.0 section 8.6.5).
    WithPreamble,
}

/// Is this a fixed-size transfer or variable-size transfer?
#[derive(Debug, Clone, Copy, PartialEq, Eq, Structural)]
pub enum TransferType {
    /// Both ends know (via other means) how long the transfer should be.
    FixedSize,
    /// Open-ended transfer (the size given is a maximum).
    VariableSize,
}

/// A buffer in DMA-accessible memory.
#[derive(Debug, Clone, Copy, PartialEq, Eq, Structural)]
pub struct Buffer {
    /// Physical address of the first byte.
    pub addr: u32,
    /// Number of bytes.
    pub len: usize,
}

impl Buffer {
    /// Whether the buffer can be used for a transfer: the five pages that a qTD describes, and
    /// the cache lines of the buffer, lie within the 32-bit address space.
    pub open spec fn wf(self) -> bool {
        &&& self.addr <= crate::host::statics::MAX_BUFFER_ADDR
        &&& self.addr + self.len <= 0xFFFF_FFE0
    }

    /// Whether the buffer can be used for a transfer.
    pub fn is_wf(&self) -> (ok: bool)
        ensures
            ok == self.wf(),
    {
        self.addr <= crate::host::statics::MAX_BUFFER_ADDR && self.len <= 0xFFFF_FFE0usize && self.addr
            as usize <= 0xFFFF_FFE0usize - self.len
    }
}

/// The data phase of a USB control-endpoint transaction.
#[derive(Debug, Clone, Copy, PartialEq, Eq, Structural)]
pub enum DataPhase {
    /// IN transaction (device-to-host).
    In(Buffer),
    /// OUT transaction (host-to-device).
    Out(Buffer),
    /// No data phase in control transaction.
    NoData,
}

/// The SETUP packet of a control transaction, see USB 2.0 section 9.3.
#[allow(non_snake_case)]
#[derive(Debug, Clone, Copy, PartialEq, Eq, Structural)]
pub struct SetupPacket {
    /// The type and specific target of the request.
    pub bmRequestType: u8,
    /// The particular request.
    pub bRequest: u8,
    /// A parameter to the request.
    pub wValue: u16,
    /// A second parameter to the request.
    pub wIndex: u16,
    /// The length of the subsequent IN or OUT data phase.
    pub wLength: u16,
}

/// A packet as received on an interrupt IN endpoint.
#[derive(Debug, Clone, Copy, PartialEq, Eq)]
pub struct InterruptPacket {
    /// USB address (1-127) of device from which packet was received.
    pub address: u8,
    /// Endpoint number on which packet was received.
    pub endpoint: u8,
    /// Packet size (i.e., length of valid prefix of [`InterruptPacket::data`]).
    pub size: u8,
    /// Packet contents.
    pub data: [u8; 64],
}

/// Whether an asynchronous operation has finished.
#[derive(Debug, PartialEq, Eq)]
pub enum Poll<T> {
    /// The operation has finished with this result.
    Ready(T),
    /// The operation is still in progress.
    Pending,
}

/// What to do with an operation that was taken one step further.
#[derive(Debug, PartialEq, Eq)]
pub enum Step<T, R> {
    /// Wait for the waker before the next step.
    Wait(T),
    /// Take the next step at once.
    Again(T),
    /// The operation has finished with this result.
    Done(R),
}

/// One of the wakers of the driver.
#[derive(Debug, Clone, Copy, PartialEq, Eq, Structural)]
pub enum WakerId {
    /// Device detection.
    Device,
    /// A pipe: 0 is the control pipe, the others are bulk/interrupt pipes.
    Pipe(usize),
    /// The async advance doorbell.
    AsyncAdvance,
}

} // verus!
