//! A USB **host** driver core for i.MX RT processors.
//!
//! The crate holds the decisions of a host controller driver for the
//! EHCI-compatible USB OTG peripheral of the i.MX RT 1060 family: how queue
//! heads and transfer descriptors are laid out and linked into the schedules,
//! what is written to which register and in which order, when a transfer is
//! complete and what it yields.
//!
//! Nothing in here touches hardware. Registers and DMA structures are kept as
//! plain values (the *image*), and every effect on the hardware is queued as an
//! [`Action`](crate::action::Action) for the layer that owns the peripheral.

/// The steps that the hardware layer carries out on behalf of the driver.
pub mod action;

/// Cache maintenance by address.
pub mod cache;

/// EHCI data structures: queue heads, transfer descriptors, and frame lists.
pub mod ehci;

/// General purpose timers (GPT) of the USB core.
pub mod gpt;

/// USB host controller driver and supporting types.
pub mod host;

/// Register images of the USB core and the USB PHY.
pub mod ral;

/// Cells of DMA-visible memory.
pub mod vcell;
