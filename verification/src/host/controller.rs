//! `ImxrtHostController` struct definition, construction, and initialization.

use crate::action::Action;
use crate::ehci::{FrameList, QueueHead, TransferDescriptor, LINK_TERMINATE};
use crate::host::pools::UsbPools;
use crate::host::statics::{StaticsView, UsbStatics};
use crate::host::types::{DeviceStatus, UsbSpeed};
use crate::ral::{usb, usbphy};
use vstd::prelude::*;

verus! {

/// USB host controller for i.MX RT 1062.
///
/// This is the main driver type. It holds the images of the USB registers and of the DMA
/// structures, and a reference to the pools that pipes are allocated from.
///
/// # Speed and Hub Support
///
/// With `hub_support`, the controller sets the NXP-specific `PFSC` (Port Force Full Speed
/// Connect) bit, forcing **all** devices, including those connected directly, to Full Speed
/// (12 Mbps). This is necessary because `cotton-usb-host` does not support
/// EHCI split transactions required for High Speed hubs.
///
/// With `hub_support` (`PFSC=1`):
/// - All devices (including hubs) connect at Full Speed
/// - Full Speed hubs act as simple repeaters (no Transaction Translator)
/// - Low Speed devices behind FS hubs use `WithPreamble` (PRE PID)
/// - Maximum throughput is 12 Mbps
///
/// Without `hub_support`:
/// - High Speed (480 Mbps) devices can negotiate at full speed
/// - Hubs should **not** be used (HS hubs require unsupported split
///   transactions; FS hubs would not connect at FS without PFSC)
pub struct ImxrtHostController<'p> {
    /// USB OTG core registers (owned).
    pub usb: usb::Instance,
    /// USB PHY registers (owned).
    pub usbphy: usbphy::Instance,
    /// Resource pools and DMA structures (owned).
    pub statics: UsbStatics,
    /// Pipe pools (borrowed, since the pipes that they hand out borrow them).
    pub pools: &'p UsbPools,
    /// Whether the root port is held at Full Speed, so that hubs can be used.
    pub hub_support: bool,
}

/// The host controller of the i.MX RT 1062.
pub type Imxrt1062HostController<'p> = ImxrtHostController<'p>;

/// The interrupts that report transfer completion: UE, UEE, UAIE, UPIE.
pub const TRANSFER_INTERRUPTS: u32 = usb::USBINTR_UE | usb::USBINTR_UEE | usb::USBINTR_UAIE
    | usb::USBINTR_UPIE;

/// The interrupts that the driver services: those of transfers, port changes, system errors,
/// and the async advance doorbell.
pub const HOST_INTERRUPTS: u32 = TRANSFER_INTERRUPTS | usb::USBINTR_PCE | usb::USBINTR_SEE
    | usb::USBINTR_AAE;

/// The configuration that the controller runs with.
///
/// ```text
///   RS   = 1 (run)
///   FS   = 32-entry frame list (FS_2=1, FS_1=0b01)
///   PSE  = 1 (enable periodic schedule)
///   ASP  = 0b11 (async schedule park count = 3: max service transactions)
///   ASPE = 1 (enable async schedule park mode)
///   ITC  = 1 micro-frame (125us interrupt coalescing)
/// ```
///
/// ASE (async schedule enable) is NOT set here: running the async schedule with only a
/// sentinel QH wastes bus bandwidth.
pub const USBCMD_RUN: u32 = usb::USBCMD_RS | usb::USBCMD_FS_1_32 | usb::USBCMD_PSE
    | usb::USBCMD_ASP_3 | usb::USBCMD_ASPE | usb::USBCMD_FS_2 | usb::USBCMD_ITC_1;

/// How far the initialization has come: what the next step is to do.
#[derive(Debug, Clone, Copy, PartialEq, Eq, Structural)]
pub enum InitStage {
    /// Power up the PHY, and reset the controller.
    Reset,
    /// Once the reset has completed, set host mode and set up the schedules.
    HostMode,
    /// Clear pending status, and start the controller.
    Run,
    /// Power the port, and enable interrupts.
    Port,
    /// The controller is initialised.
    Done,
}

/// What an [`ImxrtHostController`] stands for.
#[verifier::ext_equal]
pub struct ControllerView {
    pub usb: usb::InstanceView,
    pub usbphy: usbphy::Instance,
    pub statics: StaticsView,
    pub pools: UsbPools,
    pub hub_support: bool,
}

impl<'p> View for ImxrtHostController<'p> {
    type V = ControllerView;

    open spec fn view(&self) -> ControllerView {
        ControllerView {
            usb: self.usb@,
            usbphy: self.usbphy,
            statics: self.statics@,
            pools: *self.pools,
            hub_support: self.hub_support,
        }
    }
}

impl ControllerView {
    /// Whether the pools and the layout are as the driver requires.
    pub open spec fn wf(self) -> bool {
        &&& self.statics.wf()
        &&& self.pools.wf()
    }

    /// After one more action.
    pub open spec fn push(self, action: Action) -> Self {
        ControllerView { usb: self.usb.push(action), ..self }
    }

    /// After more actions, none of which writes a register of the core.
    pub open spec fn after(self, actions: Seq<Action>) -> Self {
        ControllerView { usb: self.usb.after(actions), ..self }
    }

    /// After a write to a register of the core.
    pub open spec fn write(self, reg: usb::Reg, value: u32) -> Self {
        ControllerView { usb: self.usb.write(reg, value), ..self }
    }

    /// After setting the bits in `mask` of a register of the core.
    pub open spec fn set_bits(self, reg: usb::Reg, mask: u32) -> Self {
        ControllerView { usb: self.usb.set_bits(reg, mask), ..self }
    }

    /// After a write to a register of the PHY.
    pub open spec fn write_phy(self, phy: usbphy::Reg, value: u32) -> Self {
        self.push(Action::WritePhy { phy, value })
    }

    /// With other DMA structures.
    pub open spec fn with_statics(self, statics: StaticsView) -> Self {
        ControllerView { statics, ..self }
    }

    /// After storing a queue head.
    pub open spec fn store_qh(self, i: int, qh: QueueHead) -> Self {
        self.with_statics(self.statics.with_qh(i, qh)).push(
            Action::StoreQh { index: i as usize, qh },
        )
    }

    /// After storing a transfer descriptor.
    pub open spec fn store_qtd(self, i: int, qtd: TransferDescriptor) -> Self {
        self.with_statics(self.statics.with_qtd(i, qtd)).push(
            Action::StoreQtd { index: i as usize, qtd },
        )
    }

    /// The step of the initialization that follows `stage`, and the controller after `stage`.
    pub open spec fn initialised(self, stage: InitStage) -> (InitStage, Self) {
        match stage {
            InitStage::Reset => (
                InitStage::HostMode,
                self.write_phy(usbphy::Reg::CtrlSet, usbphy::CTRL_SFTRST).write_phy(
                    usbphy::Reg::CtrlClr,
                    usbphy::CTRL_SFTRST | usbphy::CTRL_CLKGATE,
                ).write_phy(
                    usbphy::Reg::CtrlSet,
                    usbphy::CTRL_ENUTMILEVEL2 | usbphy::CTRL_ENUTMILEVEL3,
                ).write_phy(usbphy::Reg::Pwd, 0).set_bits(usb::Reg::Usbcmd, usb::USBCMD_RST),
            ),
            InitStage::HostMode => if self.usb.reg(usb::Reg::Usbcmd) & usb::USBCMD_RST != 0 {
                (InitStage::HostMode, self)
            } else {
                let sentinel = self.statics.layout.qh_address(0);
                (
                    InitStage::Run,
                    self.write(usb::Reg::Usbmode, usb::USBMODE_CM_HOST).write(
                        usb::Reg::Sbuscfg,
                        usb::SBUSCFG_AHBBRST_INCR4,
                    ).store_qh(0, self.statics.qh[0].as_sentinel(sentinel)).write(
                        usb::Reg::Asynclistaddr,
                        sentinel,
                    ).write(usb::Reg::Deviceaddr, self.statics.layout.frame_list).write(
                        usb::Reg::Frindex,
                        0,
                    ).write(usb::Reg::Usbintr, 0),
                )
            },
            InitStage::Run => (
                InitStage::Port,
                self.write(usb::Reg::Usbsts, self.usb.reg(usb::Reg::Usbsts)).write(
                    usb::Reg::Usbcmd,
                    USBCMD_RUN,
                ),
            ),
            InitStage::Port => {
                let safe = self.usb.reg(usb::Reg::Portsc1)
                    & !ImxrtHostController::PORTSC1_W1C_MASK;
                let speed = if self.hub_support {
                    usb::PORTSC1_PFSC
                } else {
                    0
                };
                (
                    InitStage::Done,
                    self.write(usb::Reg::Portsc1, safe | usb::PORTSC1_PP | speed).write(
                        usb::Reg::Usbintr,
                        HOST_INTERRUPTS,
                    ),
                )
            },
            InitStage::Done => (InitStage::Done, self),
        }
    }

    /// After beginning or ending USB reset signaling on the root port.
    pub open spec fn root_port_reset(self, rst: bool) -> Self {
        let safe = self.usb.reg(usb::Reg::Portsc1) & !ImxrtHostController::PORTSC1_W1C_MASK;
        self.write(
            usb::Reg::Portsc1,
            if rst {
                safe | usb::PORTSC1_PR
            } else {
                safe & !usb::PORTSC1_PR
            },
        )
    }

    /// After cache maintenance of a queue head.
    pub open spec fn clean_qh(self, i: int) -> Self {
        self.push(
            Action::CleanInvalidate {
                addr: self.statics.layout.qh_address(i),
                size: QueueHead::SIZE,
            },
        )
    }

    /// After cache maintenance of a transfer descriptor.
    pub open spec fn clean_qtd(self, i: int) -> Self {
        self.push(
            Action::CleanInvalidate {
                addr: self.statics.layout.qtd_address(i),
                size: TransferDescriptor::SIZE,
            },
        )
    }

    /// After cache maintenance of a data buffer: nothing at all for no bytes.
    pub open spec fn clean_buffer(self, addr: u32, len: usize) -> Self {
        if len > 0 {
            self.push(Action::CleanInvalidate { addr, size: len as u32 })
        } else {
            self
        }
    }
}

impl<'p> ImxrtHostController<'p> {
    /// Whether the pools and the layout are as the driver requires.
    pub open spec fn wf(self) -> bool {
        self@.wf()
    }

    /// Create a new host controller from register instances and static resources.
    ///
    /// This does **not** initialise the hardware: see `init`.
    pub fn new(
        usb: usb::Instance,
        usbphy: usbphy::Instance,
        statics: UsbStatics,
        pools: &'p UsbPools,
        hub_support: bool,
    ) -> (hc: Self)
        ensures
            hc@ == (ControllerView {
                usb: usb@,
                usbphy,
                statics: statics@,
                pools: *pools,
                hub_support,
            }),
    {
        ImxrtHostController { usb, usbphy, statics, pools, hub_support }
    }

    /// Get a reference to the USB registers.
    pub fn usb(&self) -> (usb: &usb::Instance)
        ensures
            *usb == self.usb,
    {
        &self.usb
    }

    /// Get a mutable reference to the USB registers (for the general purpose timers).
    pub fn usb_mut(&mut self) -> (usb: &mut usb::Instance)
        ensures
            *usb == old(self).usb,
            *final(self) == (ImxrtHostController { usb: *final(usb), ..*old(self) }),
    {
        &mut self.usb
    }

    /// Get a reference to the static resources.
    pub fn statics(&self) -> (statics: &UsbStatics)
        ensures
            *statics == self.statics,
    {
        &self.statics
    }

    // -----------------------------------------------------------------------
    // Initialization
    // -----------------------------------------------------------------------

    /// Initialise the USB host controller hardware, one step at a time.
    ///
    /// The first step is [`InitStage::Reset`]; each call returns the step to take next, until
    /// [`InitStage::Done`]. The register image must be loaded anew before each step.
    ///
    /// # Prerequisites
    ///
    /// The caller (BSP / board crate) **must** have already:
    /// 1. Enabled the USB2 PLL (`CCM_ANALOG_PLL_USB2`) and waited for lock.
    /// 2. Un-gated the USB OTG2 clock (`CCM_CCGR6_USBOH3`).
    /// 3. Configured the VBUS power GPIO (Teensy 4.1: `GPIO_EMC_40`).
    ///
    /// # Sequence
    ///
    /// 1. Reset & power-on USB PHY
    /// 2. Reset USB controller
    /// 3. Set host mode (must be immediately after reset: NXP errata)
    /// 4. Configure system bus interface (SBUSCFG)
    /// 5. Initialise async schedule (sentinel QH -> ASYNCLISTADDR)
    /// 6. Initialise periodic schedule (frame list -> PERIODICLISTBASE)
    /// 7. Disable all interrupts, clear pending status
    /// 8. Configure USBCMD (ITC, frame list size, async park, periodic schedule) and run
    /// 9. Enable port power
    /// 10. Enable interrupts
    ///
    /// The high-speed disconnect detector of the PHY is left off: it is managed by device
    /// detection, which turns it on only for High Speed devices.
    ///
    /// # Register Alias: `DEVICEADDR` / `PERIODICLISTBASE`
    ///
    /// The `DEVICEADDR` and `PERIODICLISTBASE` registers share the same offset. In host mode,
    /// this register holds the periodic frame list base address (bits 31:12).
    pub fn init(&mut self, stage: InitStage) -> (next: InitStage)
        requires
            old(self).wf(),
        ensures
            final(self).wf(),
            (next, final(self)@) == old(self)@.initialised(stage),
            match stage {
                InitStage::Reset => {
                    &&& next == InitStage::HostMode
                    &&& final(self)@ == old(self)@.write_phy(
                        usbphy::Reg::CtrlSet,
                        usbphy::CTRL_SFTRST,
                    ).write_phy(
                        usbphy::Reg::CtrlClr,
                        usbphy::CTRL_SFTRST | usbphy::CTRL_CLKGATE,
                    ).write_phy(
                        usbphy::Reg::CtrlSet,
                        usbphy::CTRL_ENUTMILEVEL2 | usbphy::CTRL_ENUTMILEVEL3,
                    ).write_phy(usbphy::Reg::Pwd, 0).set_bits(usb::Reg::Usbcmd, usb::USBCMD_RST)
                },
                InitStage::HostMode => if old(self)@.usb.reg(usb::Reg::Usbcmd) & usb::USBCMD_RST
                    != 0 {
                    // The controller is still in reset
                    &&& next == InitStage::HostMode
                    &&& final(self)@ == old(self)@
                } else {
                    let statics = old(self)@.statics;
                    let sentinel = statics.layout.qh_address(0);
                    &&& next == InitStage::Run
                    &&& final(self)@ == old(self)@.write(
                        usb::Reg::Usbmode,
                        usb::USBMODE_CM_HOST,
                    ).write(usb::Reg::Sbuscfg, usb::SBUSCFG_AHBBRST_INCR4).store_qh(
                        0,
                        statics.qh[0].as_sentinel(sentinel),
                    ).write(usb::Reg::Asynclistaddr, sentinel).write(
                        usb::Reg::Deviceaddr,
                        statics.layout.frame_list,
                    ).write(usb::Reg::Frindex, 0).write(usb::Reg::Usbintr, 0)
                    &&& statics.frames == FrameList::all(LINK_TERMINATE) ==> {
                        &&& final(self)@.statics.schedules_wf()
                        &&& final(self)@.statics.async_ring() == Seq::<int>::empty()
                        &&& final(self)@.statics.periodic_chain() == Seq::<int>::empty()
                    }
                },
                InitStage::Run => {
                    &&& next == InitStage::Port
                    &&& final(self)@ == old(self)@.write(
                        usb::Reg::Usbsts,
                        old(self)@.usb.reg(usb::Reg::Usbsts),
                    ).write(usb::Reg::Usbcmd, USBCMD_RUN)
                },
                InitStage::Port => {
                    let safe = old(self)@.usb.reg(usb::Reg::Portsc1) & !Self::PORTSC1_W1C_MASK;
                    let speed = if old(self)@.hub_support {
                        usb::PORTSC1_PFSC
                    } else {
                        0
                    };
                    &&& next == InitStage::Done
                    &&& final(self)@ == old(self)@.write(
                        usb::Reg::Portsc1,
                        safe | usb::PORTSC1_PP | speed,
                    ).write(usb::Reg::Usbintr, HOST_INTERRUPTS)
                },
                InitStage::Done => {
                    &&& next == InitStage::Done
                    &&& final(self)@ == old(self)@
                },
            },
    {
        match stage {
            InitStage::Reset => {
                // Assert soft-reset (clears PWD, TX, RX, CTRL to defaults).
                self.write_phy(usbphy::Reg::CtrlSet, usbphy::CTRL_SFTRST);
                // De-assert soft-reset and un-gate UTMI clocks.
                self.write_phy(usbphy::Reg::CtrlClr, usbphy::CTRL_SFTRST | usbphy::CTRL_CLKGATE);
                // Enable UTMI+ Level 2 and Level 3 (required for low-speed device support
                // through a high-speed hub).
                self.write_phy(
                    usbphy::Reg::CtrlSet,
                    usbphy::CTRL_ENUTMILEVEL2 | usbphy::CTRL_ENUTMILEVEL3,
                );
                // Power up the PHY: writing 0 clears all power-down bits in PWD.
                self.write_phy(usbphy::Reg::Pwd, 0);
                // Assert controller reset. RST is self-clearing.
                self.usb.set_bits(usb::Reg::Usbcmd, usb::USBCMD_RST);
                InitStage::HostMode
            },
            InitStage::HostMode => {
                if self.usb.read(usb::Reg::Usbcmd) & usb::USBCMD_RST != 0 {
                    return InitStage::HostMode;
                }
                // Per NXP errata, USBMODE must be written immediately after the controller
                // reset completes, before any other USBCMD writes.
                self.usb.write(usb::Reg::Usbmode, usb::USBMODE_CM_HOST);
                self.usb.write(usb::Reg::Sbuscfg, usb::SBUSCFG_AHBBRST_INCR4);
                // Set up the sentinel QH (index 0) as a self-referencing circular list.
                let sentinel: u32 = self.statics.qh_ptr(0);
                self.statics.qh_pool[0].init_sentinel(sentinel);
                self.usb.push(Action::StoreQh { index: 0, qh: self.statics.qh_pool[0] });
                self.usb.write(usb::Reg::Asynclistaddr, sentinel);
                // The frame list is already terminated.
                self.usb.write(usb::Reg::Deviceaddr, self.statics.layout.frame_list);
                // Reset the frame index to 0.
                self.usb.write(usb::Reg::Frindex, 0);
                // Ensure no spurious interrupts fire during init.
                self.usb.write(usb::Reg::Usbintr, 0);
                proof {
                    let s = old(self)@.statics;
                    assert(self@.statics =~= s.with_qh(
                        0,
                        s.qh[0].as_sentinel(s.layout.qh_address(0)),
                    ));
                    if s.frames == FrameList::all(LINK_TERMINATE) {
                        crate::host::links::lemma_initial_schedules(self@.statics);
                    }
                }
                InitStage::Run
            },
            InitStage::Run => {
                // Clear all pending status bits by reading and writing back (W1C).
                let status: u32 = self.usb.read(usb::Reg::Usbsts);
                self.usb.write(usb::Reg::Usbsts, status);
                self.usb.write(usb::Reg::Usbcmd, USBCMD_RUN);
                InitStage::Port
            },
            InitStage::Port => {
                // PP (Port Power) must be set for the root port to supply power.
                //
                // PFSC (Port Force Full Speed Connect) is an NXP extension. When set, it
                // prevents HS chirp negotiation, forcing all devices (including hubs) to
                // connect at Full Speed.
                let portsc: u32 = self.portsc1_read_safe();
                let speed: u32 = if self.hub_support {
                    usb::PORTSC1_PFSC
                } else {
                    0
                };
                self.usb.write(usb::Reg::Portsc1, portsc | usb::PORTSC1_PP | speed);
                self.usb.write(usb::Reg::Usbintr, HOST_INTERRUPTS);
                InitStage::Done
            },
            InitStage::Done => InitStage::Done,
        }
    }

    /// Write a register of the PHY.
    pub(crate) fn write_phy(&mut self, phy: usbphy::Reg, value: u32)
        requires
            old(self).wf(),
        ensures
            final(self).wf(),
            final(self)@ == old(self)@.write_phy(phy, value),
    {
        self.usb.push(Action::WritePhy { phy, value });
    }

    // -----------------------------------------------------------------------
    // Port speed detection
    // -----------------------------------------------------------------------

    /// The currently detected port speed from PORTSC1.
    ///
    /// The port speed is available in PORTSC1\[PSPD\] (bits 27:26) after
    /// the port is enabled following a reset. Before reset, speed can be
    /// inferred from the line state.
    pub fn port_speed(&self) -> (pspd: u32)
        ensures
            pspd == port_speed_code(self@.usb.reg(usb::Reg::Portsc1)),
            pspd < 4,
    {
        let portsc: u32 = self.usb.read(usb::Reg::Portsc1);
        proof {
            assert((portsc >> 26) & 0x3 == portsc / 0x400_0000 % 4) by (bit_vector);
        }
        (portsc >> 26) & 0x3
    }

    /// The status of the root port.
    pub fn device_status(&self) -> (status: DeviceStatus)
        ensures
            status == port_status(self@.usb.reg(usb::Reg::Portsc1)),
    {
        if self.usb.read(usb::Reg::Portsc1) & usb::PORTSC1_CCS != 0 {
            let speed = match self.port_speed() {
                0 => UsbSpeed::Full12,
                1 => UsbSpeed::Low1_5,
                2 => UsbSpeed::High480,
                _ => UsbSpeed::Full12,
            };
            DeviceStatus::Present(speed)
        } else {
            DeviceStatus::Absent
        }
    }

    // -----------------------------------------------------------------------
    // Re-enabling interrupts
    // -----------------------------------------------------------------------

    /// Re-enable the port change interrupt (PCE) in USBINTR.
    ///
    /// Called from poll functions after checking device status, following
    /// the disable-on-handle / re-enable-on-poll pattern.
    pub fn reenable_port_change_interrupt(&mut self)
        ensures
            final(self)@ == old(self)@.set_bits(usb::Reg::Usbintr, usb::USBINTR_PCE),
    {
        self.usb.set_bits(usb::Reg::Usbintr, usb::USBINTR_PCE);
    }

    /// Re-enable transfer completion interrupts in USBINTR.
    ///
    /// Re-enables: UE, UEE, UAIE, UPIE.
    pub fn reenable_transfer_interrupts(&mut self)
        ensures
            final(self)@ == old(self)@.set_bits(usb::Reg::Usbintr, TRANSFER_INTERRUPTS),
    {
        self.usb.set_bits(usb::Reg::Usbintr, TRANSFER_INTERRUPTS);
    }

    /// Re-enable the async advance interrupt (AAE) in USBINTR.
    pub fn reenable_async_advance_interrupt(&mut self)
        ensures
            final(self)@ == old(self)@.set_bits(usb::Reg::Usbintr, usb::USBINTR_AAE),
    {
        self.usb.set_bits(usb::Reg::Usbintr, usb::USBINTR_AAE);
    }

    // -----------------------------------------------------------------------
    // PORTSC1 W1C-safe writes
    // -----------------------------------------------------------------------

    /// PORTSC1 write-1-to-clear bit mask.
    ///
    /// When doing a read-modify-write on PORTSC1, these bits must be masked
    /// off to avoid accidentally clearing them:
    /// - CSC: Connect Status Change
    /// - PEC: Port Enable/Disable Change
    /// - OCC: Over-current Change
    /// - FPR: Force Port Resume (read as 0 when not suspended)
    pub const PORTSC1_W1C_MASK: u32 = usb::PORTSC1_CSC | usb::PORTSC1_PEC | usb::PORTSC1_OCC
        | usb::PORTSC1_FPR;

    /// Read PORTSC1 with W1C bits cleared to prevent accidental clear.
    pub fn portsc1_read_safe(&self) -> (value: u32)
        ensures
            value == self@.usb.reg(usb::Reg::Portsc1) & !Self::PORTSC1_W1C_MASK,
    {
        self.usb.read(usb::Reg::Portsc1) & !Self::PORTSC1_W1C_MASK
    }

    /// Begin or end USB reset signaling on the root port (PORTSC1.PR).
    pub fn reset_root_port(&mut self, rst: bool)
        ensures
            final(self)@ == old(self)@.root_port_reset(rst),
            ({
                let safe = old(self)@.usb.reg(usb::Reg::Portsc1) & !Self::PORTSC1_W1C_MASK;
                final(self)@ == old(self)@.write(
                    usb::Reg::Portsc1,
                    if rst {
                        safe | usb::PORTSC1_PR
                    } else {
                        safe & !usb::PORTSC1_PR
                    },
                )
            }),
    {
        let portsc: u32 = self.portsc1_read_safe();
        if rst {
            self.usb.write(usb::Reg::Portsc1, portsc | usb::PORTSC1_PR);
        } else {
            // On EHCI, the controller may auto-clear PR and set PE (port enabled).
            self.usb.write(usb::Reg::Portsc1, portsc & !usb::PORTSC1_PR);
        }
    }
}

/// The port speed code in a PORTSC1 value: its bits 27:26.
pub open spec fn port_speed_code(portsc1: u32) -> u32 {
    portsc1 / 0x400_0000 % 4
}

/// The device status that a PORTSC1 value shows.
pub open spec fn port_status(portsc1: u32) -> DeviceStatus {
    if portsc1 & usb::PORTSC1_CCS != 0 {
        DeviceStatus::Present(
            if port_speed_code(portsc1) == 1 {
                UsbSpeed::Low1_5
            } else if port_speed_code(portsc1) == 2 {
                UsbSpeed::High480
            } else {
                UsbSpeed::Full12
            },
        )
    } else {
        DeviceStatus::Absent
    }
}

/// A write to PORTSC1 that starts from its value with the write-1-to-clear bits masked off, and
/// sets or clears other bits only, leaves all change bits of the register as they were.
pub proof fn lemma_portsc1_write_keeps_changes(held: u32, set: u32, clear: u32)
    requires
        set & ImxrtHostController::PORTSC1_W1C_MASK == 0,
    ensures
        ({
            let written = ((held & !ImxrtHostController::PORTSC1_W1C_MASK) | set) & !clear;
            usb::value_after_write(usb::Reg::Portsc1, held, written) & usb::PORTSC1_CHANGE_MASK
                == held & usb::PORTSC1_CHANGE_MASK
        }),
{
    usb::lemma_register_bits();
    crate::host::reactions::lemma_driver_bits();
    let written = ((held & !0x6Au32) | set) & !clear;
    assert(((written & !0x2Au32) | (held & 0x2Au32 & !written)) & 0x2Au32 == held & 0x2Au32)
        by (bit_vector)
        requires
            written == ((held & !0x6Au32) | set) & !clear,
            set & 0x6Au32 == 0,
    ;
}

} // verus!
