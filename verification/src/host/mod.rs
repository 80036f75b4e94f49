//! USB host controller driver for i.MX RT EHCI.
//!
//! - [`UsbShared`] holds the wake-ups that the interrupt handler asks for.
//! - [`UsbStatics`] holds the images of the DMA structures and the qTD allocation.
//! - [`UsbPools`] holds the pools that pipes are allocated from.
//! - [`ImxrtHostController`] makes the decisions of the driver.
//!
//! The implementation is split across several submodules:
//!
//! - `types`: requests, results, and events of the host stack
//! - `shared`: what the interrupt handler does (`UsbShared`)
//! - `statics`: DMA structures and qTD allocation (`UsbStatics`, `RecvBuf`)
//! - `pools`: pools that pipes are allocated from (`UsbPools`)
//! - `links`: how queue heads are linked into the schedules
//! - `controller`: struct definition, construction, and initialization
//! - `schedule`: qTD allocation and EHCI schedule management
//! - `futures`: transfer and doorbell completion
//! - `transfer`: control transfers
//! - `bulk`: bulk transfers
//! - `interrupt_pipe`: interrupt IN pipes
//! - `device_detect`: root port device detection
//! - `inspect`: reading the schedules back from the links
//! - `diagnostics`: description of the periodic schedule
//! - `laws`: what holds of the driver as a whole
//! - `effects`: what each operation does to the images and to the queue of actions
//! - `started`: what a transfer that was started looks like to the controller
//! - `outcomes`: how transfers end
//! - `reactions`: how the driver reacts to the hardware
//!
//! # How it is used
//!
//! The controller works on images of the registers and of the DMA structures. The hardware
//! layer loads the images, calls one operation, and then carries out the actions in the
//! queue of the register instance, in their order.

use vstd::prelude::*;

pub mod bulk;
pub mod controller;
pub mod device_detect;
pub mod diagnostics;
pub mod effects;
pub mod futures;
pub mod inspect;
pub mod interrupt_pipe;
pub mod laws;
pub mod links;
pub mod outcomes;
pub mod pools;
pub mod reactions;
pub mod schedule;
pub mod shared;
pub mod started;
pub mod statics;
pub mod transfer;
pub mod types;

pub use bulk::BulkTransfer;
pub use controller::{Imxrt1062HostController, ImxrtHostController};
pub use device_detect::Imxrt1062DeviceDetect;
pub use interrupt_pipe::{Imxrt1062InterruptPipe, ImxrtInterruptPipe, Pipe};
pub use pools::UsbPools;
pub use schedule::QtdSlot;
pub use shared::UsbShared;
pub use statics::{DmaLayout, RecvBuf, UsbStatics};
pub use transfer::ControlTransfer;
pub use types::{
    Buffer, DataPhase, DeviceStatus, InterruptPacket, Poll, SetupPacket, Step, TransferExtras,
    TransferType, UsbError, UsbSpeed, WakerId,
};

verus! {

/// Number of QH slots available for endpoint pipes.
///
/// 1 is reserved for control (EP0), the rest for bulk/interrupt endpoints.
/// With 4 QHs: 1 control + 3 concurrent bulk/interrupt pipes.
pub const NUM_QH: usize = 4;

/// Number of qTD slots available for transfers.
///
/// Each control transfer uses 2-3 qTDs (setup + data + status).
/// Each bulk/interrupt transfer uses 1-N qTDs.
/// 16 qTDs supports 1 control + 3 concurrent bulk, with room for chaining.
pub const NUM_QTD: usize = 16;

/// Number of QHs in the pool: the sentinel of the async schedule, and [`NUM_QH`] more.
pub const QH_POOL_LEN: usize = 5;

/// Number of control pipes: only one EP0 transfer at a time.
pub const NUM_CONTROL_PIPES: u8 = 1;

/// Number of bulk/interrupt pipes: one for each QH beside that of the control pipe.
pub const NUM_BULK_PIPES: u8 = 3;

/// Number of receive buffers: one for each bulk/interrupt pipe.
pub const NUM_RECV_BUFS: usize = 3;

/// Number of pipe wakers: one for the control pipe, and [`NUM_QH`] more.
pub const NUM_PIPE_WAKERS: usize = 5;

} // verus!
