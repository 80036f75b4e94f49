//! How the driver reacts to the hardware: steps of the initialization, interrupts, changes of the
//! root port, the progress of transfers.

use crate::action::Action;
use crate::ehci::{QueueHead, TransferDescriptor};
use crate::host::bulk::BulkTransfer;
use crate::host::controller::{
    ControllerView, ImxrtHostController, InitStage, HOST_INTERRUPTS, TRANSFER_INTERRUPTS,
    USBCMD_RUN,
};
use crate::host::device_detect::Imxrt1062DeviceDetect;
use crate::host::futures::{AsyncAdvanceWait, TransferComplete};
use crate::host::interrupt_pipe::ImxrtInterruptPipe;
use crate::host::shared::{UsbShared, SERVICED_MASK, TRANSFER_STATUS};
use crate::host::statics::{DmaLayout, StaticsView};
use crate::host::transfer::{ControlTransfer, Stage};
use crate::host::types::{
    DeviceStatus, Poll, Step, TransferExtras, UsbError, UsbSpeed, WakerId,
};
use crate::ral::{usb, usbphy};
use crate::vcell::VCell;
use vstd::prelude::*;

verus! {

/// The register values that the driver uses.
pub proof fn lemma_driver_bits()
    ensures
        TRANSFER_INTERRUPTS == 0xC_0003,
        HOST_INTERRUPTS == 0xC_0037,
        USBCMD_RUN == 0x1_8B15,
        ImxrtHostController::PORTSC1_W1C_MASK == 0x6A,
        TRANSFER_STATUS == 0xC_0003,
        SERVICED_MASK == 0xF_003F,
{
    assert(TRANSFER_INTERRUPTS == 0xC_0003 && HOST_INTERRUPTS == 0xC_0037 && USBCMD_RUN == 0x1_8B15
        && (usb::PORTSC1_CSC | usb::PORTSC1_PEC | usb::PORTSC1_OCC | usb::PORTSC1_FPR) == 0x6A
        && TRANSFER_STATUS == 0xC_0003) by (bit_vector);
}

// ---------------------------------------------------------------------------
// Speed
// ---------------------------------------------------------------------------

/// The speed code of the port is in bits 27:26 of PORTSC1: 1 is Low Speed, 2 is High Speed, 0 is
/// Full Speed. Code 3 stands for Full Speed in control and bulk transfers and in what is reported
/// of the port, and for High Speed in interrupt pipes. Behind a Full Speed hub, endpoints of Low
/// Speed devices are Low Speed whatever the port has.
pub proof fn lemma_speeds(hc: ControllerView, portsc1: u32, code: u32)
    ensures
        crate::host::controller::port_speed_code(portsc1) == (portsc1 >> 26) & 3,
        crate::host::controller::port_speed_code(portsc1) == portsc1 as int / 0x400_0000 % 4,
        hc.pspd() == hc.usb.regs.portsc1 as int / 0x400_0000 % 4,
        crate::host::transfer::endpoint_speed(TransferExtras::WithPreamble, code) == 1,
        crate::host::transfer::endpoint_speed(TransferExtras::Normal, 0) == 0,
        crate::host::transfer::endpoint_speed(TransferExtras::Normal, 1) == 1,
        crate::host::transfer::endpoint_speed(TransferExtras::Normal, 2) == 2,
        crate::host::transfer::endpoint_speed(TransferExtras::Normal, 3) == 0,
        crate::host::interrupt_pipe::interrupt_speed(TransferExtras::WithPreamble, code) == 1,
        crate::host::interrupt_pipe::interrupt_speed(TransferExtras::Normal, 0) == 0,
        crate::host::interrupt_pipe::interrupt_speed(TransferExtras::Normal, 1) == 1,
        crate::host::interrupt_pipe::interrupt_speed(TransferExtras::Normal, 2) == 2,
        crate::host::interrupt_pipe::interrupt_speed(TransferExtras::Normal, 3) == 2,
{
    assert((portsc1 >> 26) & 3 == portsc1 / 0x400_0000 % 4) by (bit_vector);
}

// ---------------------------------------------------------------------------
// Initialization
// ---------------------------------------------------------------------------

/// The first step of the initialization puts the PHY into reset and out of it, ungates its
/// clocks, enables UTMI+ levels 2 and 3, powers it up, and resets the controller.
pub proof fn lemma_init_reset(hc: ControllerView)
    ensures
        ({
            let (next, after) = hc.initialised(InitStage::Reset);
            &&& next == InitStage::HostMode
            &&& after == (ControllerView {
                usb: usb::InstanceView {
                    regs: usb::RegisterBlock {
                        usbcmd: hc.usb.regs.usbcmd | 2,
                        ..hc.usb.regs
                    },
                    queue: hc.usb.queue + seq![
                        Action::WritePhy { phy: usbphy::Reg::CtrlSet, value: 0x8000_0000 },
                        Action::WritePhy { phy: usbphy::Reg::CtrlClr, value: 0xC000_0000 },
                        Action::WritePhy { phy: usbphy::Reg::CtrlSet, value: 0xC000 },
                        Action::WritePhy { phy: usbphy::Reg::Pwd, value: 0 },
                        Action::ModifyUsb { reg: usb::Reg::Usbcmd, clear: 0, set: 2 },
                    ],
                    ..hc.usb
                },
                ..hc
            })
        }),
{
    usb::lemma_register_bits();
    usbphy::lemma_ctrl_bits();
    assert(0x8000_0000u32 | 0x4000_0000u32 == 0xC000_0000 && 0x4000u32 | 0x8000u32 == 0xC000)
        by (bit_vector);
    let (next, after) = hc.initialised(InitStage::Reset);
    assert(after.usb.queue =~= hc.usb.queue + seq![
        Action::WritePhy { phy: usbphy::Reg::CtrlSet, value: 0x8000_0000 },
        Action::WritePhy { phy: usbphy::Reg::CtrlClr, value: 0xC000_0000 },
        Action::WritePhy { phy: usbphy::Reg::CtrlSet, value: 0xC000 },
        Action::WritePhy { phy: usbphy::Reg::Pwd, value: 0 },
        Action::ModifyUsb { reg: usb::Reg::Usbcmd, clear: 0, set: 2 },
    ]);
}

/// The second step waits, without doing anything, while the controller is in reset. It then sets
/// host mode before anything else, sets the bus burst, makes the first queue head the sentinel,
/// which leads to itself, tells the controller where the two schedules are, starts with frame 0,
/// and disables all interrupts.
pub proof fn lemma_init_host_mode(hc: ControllerView)
    requires
        hc.wf(),
    ensures
        ({
            let (next, after) = hc.initialised(InitStage::HostMode);
            let layout = hc.statics.layout;
            let sentinel = after.statics.qh[0];
            &&& hc.usb.regs.usbcmd & 2 != 0 ==> next == InitStage::HostMode && after == hc
            &&& hc.usb.regs.usbcmd & 2 == 0 ==> {
                &&& next == InitStage::Run
                &&& after == (ControllerView {
                    statics: StaticsView {
                        qh: hc.statics.qh.update(0, sentinel),
                        ..hc.statics
                    },
                    usb: usb::InstanceView {
                        regs: usb::RegisterBlock {
                            usbmode: 3,
                            sbuscfg: 1,
                            asynclistaddr: layout.qh_base,
                            deviceaddr: layout.frame_list,
                            frindex: 0,
                            usbintr: 0,
                            ..hc.usb.regs
                        },
                        queue: hc.usb.queue + seq![
                            Action::WriteUsb { reg: usb::Reg::Usbmode, value: 3 },
                            Action::WriteUsb { reg: usb::Reg::Sbuscfg, value: 1 },
                            Action::StoreQh { index: 0, qh: sentinel },
                            Action::WriteUsb {
                                reg: usb::Reg::Asynclistaddr,
                                value: layout.qh_base,
                            },
                            Action::WriteUsb {
                                reg: usb::Reg::Deviceaddr,
                                value: layout.frame_list,
                            },
                            Action::WriteUsb { reg: usb::Reg::Frindex, value: 0 },
                            Action::WriteUsb { reg: usb::Reg::Usbintr, value: 0 },
                        ],
                        ..hc.usb
                    },
                    ..hc
                })
                &&& sentinel.horizontal_link@ == layout.qh_base + 2
                &&& sentinel.characteristics@ == 0xF000_A000
                &&& sentinel.capabilities@ == 0x4000_0000
                &&& sentinel.overlay_token@ == 0x40
                &&& sentinel.overlay_next@ == 1
                &&& sentinel.overlay_alt_next@ == 1
            }
        }),
{
    usb::lemma_register_bits();
    crate::ehci::qh::lemma_sentinel(hc.statics.qh[0], hc.statics.layout.qh_base);
    let (next, after) = hc.initialised(InitStage::HostMode);
    let layout = hc.statics.layout;
    if hc.usb.regs.usbcmd & 2 == 0 {
        assert(after.usb.queue =~= hc.usb.queue + seq![
            Action::WriteUsb { reg: usb::Reg::Usbmode, value: 3 },
            Action::WriteUsb { reg: usb::Reg::Sbuscfg, value: 1 },
            Action::StoreQh { index: 0, qh: after.statics.qh[0] },
            Action::WriteUsb { reg: usb::Reg::Asynclistaddr, value: layout.qh_base },
            Action::WriteUsb { reg: usb::Reg::Deviceaddr, value: layout.frame_list },
            Action::WriteUsb { reg: usb::Reg::Frindex, value: 0 },
            Action::WriteUsb { reg: usb::Reg::Usbintr, value: 0 },
        ]);
    }
}

/// The third step acknowledges all status that is pending, and starts the controller. The last one
/// powers the port, without acknowledging any of its changes, and forces Full Speed with hub
/// support; it then enables the interrupts that the driver services. After that there is nothing
/// left to do.
pub proof fn lemma_init_run(hc: ControllerView)
    ensures
        ({
            let (next, after) = hc.initialised(InitStage::Run);
            let status = hc.usb.regs.usbsts;
            &&& next == InitStage::Port
            &&& after == (ControllerView {
                usb: usb::InstanceView {
                    regs: usb::RegisterBlock {
                        usbsts: status & !(status & 0x030C_05FFu32),
                        usbcmd: 0x1_8B15,
                        ..hc.usb.regs
                    },
                    queue: hc.usb.queue + seq![
                        Action::WriteUsb { reg: usb::Reg::Usbsts, value: status },
                        Action::WriteUsb { reg: usb::Reg::Usbcmd, value: 0x1_8B15 },
                    ],
                    ..hc.usb
                },
                ..hc
            })
        }),
        ({
            let (next, after) = hc.initialised(InitStage::Port);
            let value = (hc.usb.regs.portsc1 & !0x6Au32) | 0x1000 | (if hc.hub_support {
                0x100_0000u32
            } else {
                0
            });
            &&& next == InitStage::Done
            &&& after.usb.queue == hc.usb.queue + seq![
                Action::WriteUsb { reg: usb::Reg::Portsc1, value },
                Action::WriteUsb { reg: usb::Reg::Usbintr, value: 0xC_0037 },
            ]
            &&& after.usb.regs == (usb::RegisterBlock {
                portsc1: after.usb.regs.portsc1,
                usbintr: 0xC_0037,
                ..hc.usb.regs
            })
            &&& after.usb.addr == hc.usb.addr
            &&& after == (ControllerView { usb: after.usb, ..hc })
        }),
        hc.initialised(InitStage::Done) == (InitStage::Done, hc),
{
    usb::lemma_register_bits();
    lemma_driver_bits();
    let (_, run) = hc.initialised(InitStage::Run);
    assert(run.usb.queue =~= hc.usb.queue + seq![
        Action::WriteUsb { reg: usb::Reg::Usbsts, value: hc.usb.regs.usbsts },
        Action::WriteUsb { reg: usb::Reg::Usbcmd, value: 0x1_8B15 },
    ]);
    let value = (hc.usb.regs.portsc1 & !0x6Au32) | 0x1000 | (if hc.hub_support {
        0x100_0000u32
    } else {
        0
    });
    let (_, port) = hc.initialised(InitStage::Port);
    assert(port.usb.queue =~= hc.usb.queue + seq![
        Action::WriteUsb { reg: usb::Reg::Portsc1, value },
        Action::WriteUsb { reg: usb::Reg::Usbintr, value: 0xC_0037 },
    ]);
}

// ---------------------------------------------------------------------------
// The root port
// ---------------------------------------------------------------------------

/// Beginning USB reset signaling sets bit 8 of PORTSC1, and ending it clears that bit. No change
/// bit is written as one, so no change of the port is lost, and all other bits are written back as
/// they were read.
pub proof fn lemma_root_port_reset(hc: ControllerView, rst: bool)
    ensures
        ({
            let after = hc.root_port_reset(rst);
            let held = hc.usb.regs.portsc1;
            let n = hc.usb.queue.len() as int;
            &&& after.usb.queue.len() == n + 1
            &&& after.usb.queue.take(n) == hc.usb.queue
            &&& after.usb.queue[n] matches Action::WriteUsb { reg, value }
            &&& reg == usb::Reg::Portsc1
            &&& (value & 0x100 != 0) == rst
            &&& value & 0x6A == 0
            &&& value & !0x16Au32 == held & !0x16Au32
            &&& after.usb.regs.portsc1 & 0x2A == held & 0x2A
            &&& after.usb.regs.portsc1 & !0x2Au32 == value
            &&& after.usb.regs == (usb::RegisterBlock {
                portsc1: after.usb.regs.portsc1,
                ..hc.usb.regs
            })
            &&& after.usb.addr == hc.usb.addr
            &&& after == (ControllerView { usb: after.usb, ..hc })
        }),
{
    usb::lemma_register_bits();
    lemma_driver_bits();
    let held = hc.usb.regs.portsc1;
    let safe = held & !0x6Au32;
    let value = if rst {
        safe | 0x100
    } else {
        safe & !0x100u32
    };
    assert((value & 0x100 != 0) == rst && value & 0x6A == 0 && value & !0x16Au32 == held & !0x16Au32
        && ((value & !0x2Au32) | (held & 0x2Au32 & !value)) & 0x2A == held & 0x2A && ((value
        & !0x2Au32) | (held & 0x2Au32 & !value)) & !0x2Au32 == value) by (bit_vector)
        requires
            safe == held & !0x6Au32,
            rst ==> value == safe | 0x100,
            !rst ==> value == safe & !0x100u32,
    ;
    let after = hc.root_port_reset(rst);
    assert(after.usb.queue.take(hc.usb.queue.len() as int) =~= hc.usb.queue);
}

/// What a PORTSC1 value says of the port: there is a device exactly if bit 0 is set, and its speed
/// is Low for code 1, High for code 2, and Full for the other codes.
pub proof fn lemma_port_status(portsc1: u32)
    ensures
        ({
            let status = crate::host::controller::port_status(portsc1);
            let code = portsc1 as int / 0x400_0000 % 4;
            &&& status == DeviceStatus::Absent <==> portsc1 & 1 == 0
            &&& status == DeviceStatus::Present(UsbSpeed::Low1_5) <==> portsc1 & 1 != 0 && code == 1
            &&& status == DeviceStatus::Present(UsbSpeed::High480) <==> portsc1 & 1 != 0 && code
                == 2
            &&& status == DeviceStatus::Present(UsbSpeed::Full12) <==> portsc1 & 1 != 0 && (code
                == 0 || code == 3)
        }),
{
    usb::lemma_register_bits();
}

/// What a poll of the device detection does, in terms of the status before and that of the port.
///
/// - There is an event exactly if a device was connected or disconnected, whatever the speeds; the
///   event is the status of the port, which is also what the next poll compares with.
/// - The disconnect detector of the PHY is turned on when the status becomes that of a High Speed
///   device, and turned off at any other event.
/// - The port change interrupt is enabled again in any case, and nothing else changes.
pub proof fn lemma_device_poll(detect: Imxrt1062DeviceDetect, hc: ControllerView)
    ensures
        ({
            let (poll, detected, after) = detect.polled(hc);
            let before = detect.status;
            let now = detected.status;
            &&& now == crate::host::controller::port_status(hc.usb.regs.portsc1)
            &&& poll is Ready <==> (before is Absent) != (now is Absent)
            &&& poll is Ready ==> poll == Poll::Ready(now)
            &&& after.usb.queue == hc.usb.queue + (if now == DeviceStatus::Present(
                UsbSpeed::High480,
            ) && before != now {
                seq![Action::WritePhy { phy: usbphy::Reg::CtrlSet, value: 2 }]
            } else if (before is Absent) != (now is Absent) {
                seq![Action::WritePhy { phy: usbphy::Reg::CtrlClr, value: 2 }]
            } else {
                Seq::empty()
            }) + seq![Action::ModifyUsb { reg: usb::Reg::Usbintr, clear: 0, set: 4 }]
            &&& after.usb.regs == (usb::RegisterBlock {
                usbintr: hc.usb.regs.usbintr | 4,
                ..hc.usb.regs
            })
            &&& after.usb.addr == hc.usb.addr
            &&& after == (ControllerView { usb: after.usb, ..hc })
        }),
{
    usb::lemma_register_bits();
    usbphy::lemma_ctrl_bits();
    let queue = hc.usb.queue;
    let enable = Action::ModifyUsb { reg: usb::Reg::Usbintr, clear: 0, set: 4 };
    let on = Action::WritePhy { phy: usbphy::Reg::CtrlSet, value: 2 };
    let off = Action::WritePhy { phy: usbphy::Reg::CtrlClr, value: 2 };
    assert(queue.push(on).push(enable) =~= queue + seq![on] + seq![enable]);
    assert(queue.push(off).push(enable) =~= queue + seq![off] + seq![enable]);
    assert(queue.push(enable) =~= queue + Seq::<Action>::empty() + seq![enable]);
}

// ---------------------------------------------------------------------------
// Interrupts
// ---------------------------------------------------------------------------

/// What the interrupt handler does with the status that it finds in USBSTS.
///
/// - A port change (bit 2) wakes the device detection; a completion or an error of a transfer (bits
///   0, 1, 18, 19) wakes all five pipes; the doorbell (bit 5) wakes who waits for it. What was asked
///   for before stays.
/// - All status that was found is acknowledged but for that of the doorbell, and then the
///   interrupts of what was found are disabled. Nothing else changes.
pub proof fn lemma_irq_handled(shared: UsbShared, usb: usb::InstanceView)
    ensures
        ({
            let (woken, after) = shared.handled(usb);
            let status = usb.regs.usbsts;
            &&& woken.device_waker <==> shared.device_waker || status & 4 != 0
            &&& forall|i: int|
                0 <= i < 5 ==> (#[trigger] woken.pipe_wakers[i] <==> shared.pipe_wakers[i] || status
                    & 0xC_0003 != 0)
            &&& woken.async_advance_waker <==> shared.async_advance_waker || status & 0x20 != 0
            &&& after.queue == usb.queue + seq![
                Action::WriteUsb { reg: usb::Reg::Usbsts, value: status & !0x20u32 },
                Action::ModifyUsb { reg: usb::Reg::Usbintr, clear: status & 0xF_003F, set: 0 },
            ]
            &&& after.regs == (usb::RegisterBlock {
                usbsts: status & !((status & !0x20u32) & 0x030C_05FFu32),
                usbintr: usb.regs.usbintr & !(status & 0xF_003F),
                ..usb.regs
            })
            &&& after.addr == usb.addr
        }),
{
    usb::lemma_register_bits();
    lemma_driver_bits();
    let (woken, after) = shared.handled(usb);
    assert(after.queue =~= usb.queue + seq![
        Action::WriteUsb { reg: usb::Reg::Usbsts, value: usb.regs.usbsts & !0x20u32 },
        Action::ModifyUsb {
            reg: usb::Reg::Usbintr,
            clear: usb.regs.usbsts & 0xF_003F,
            set: 0,
        },
    ]);
}

/// Who is to be woken: the device detection, one of the five pipes, or who waits for the doorbell.
pub proof fn lemma_wakes(shared: UsbShared, i: usize)
    ensures
        shared.wakes(WakerId::Device) == shared.device_waker,
        shared.wakes(WakerId::AsyncAdvance) == shared.async_advance_waker,
        i < 5 ==> shared.wakes(WakerId::Pipe(i)) == shared.pipe_wakers[i as int],
        i >= 5 ==> !shared.wakes(WakerId::Pipe(i)),
{
}

/// The doorbell was acknowledged exactly if bit 5 of USBSTS is set; this bit alone is then
/// cleared. Otherwise its interrupt is enabled again.
pub proof fn lemma_doorbell_polled(hc: ControllerView)
    ensures
        ({
            let (poll, after) = AsyncAdvanceWait::polled(hc);
            let status = hc.usb.regs.usbsts;
            &&& poll is Ready <==> status & 0x20 != 0
            &&& status & 0x20 != 0 ==> after == (ControllerView {
                usb: usb::InstanceView {
                    regs: usb::RegisterBlock {
                        usbsts: status & !(0x20u32 & 0x030C_05FFu32),
                        ..hc.usb.regs
                    },
                    queue: hc.usb.queue.push(
                        Action::WriteUsb { reg: usb::Reg::Usbsts, value: 0x20 },
                    ),
                    ..hc.usb
                },
                ..hc
            })
            &&& status & 0x20 == 0 ==> after == (ControllerView {
                usb: usb::InstanceView {
                    regs: usb::RegisterBlock {
                        usbintr: hc.usb.regs.usbintr | 0x20,
                        ..hc.usb.regs
                    },
                    queue: hc.usb.queue.push(
                        Action::ModifyUsb { reg: usb::Reg::Usbintr, clear: 0, set: 0x20 },
                    ),
                    ..hc.usb
                },
                ..hc
            })
        }),
{
    usb::lemma_register_bits();
}

/// Enabling the interrupts of transfers again: bits 0, 1, 18, and 19 of USBINTR.
pub proof fn lemma_transfer_interrupts(hc: ControllerView)
    ensures
        hc.set_bits(usb::Reg::Usbintr, TRANSFER_INTERRUPTS) == (ControllerView {
            usb: usb::InstanceView {
                regs: usb::RegisterBlock {
                    usbintr: hc.usb.regs.usbintr | 0xC_0003,
                    ..hc.usb.regs
                },
                queue: hc.usb.queue.push(
                    Action::ModifyUsb { reg: usb::Reg::Usbintr, clear: 0, set: 0xC_0003 },
                ),
                ..hc.usb
            },
            ..hc
        }),
{
    lemma_driver_bits();
}

// ---------------------------------------------------------------------------
// Transfers and pipes
// ---------------------------------------------------------------------------

/// How a control transfer goes on: while it is pending it waits, with the interrupts of transfers
/// enabled; once it is complete it keeps the result, and its queue head is unlinked and the doorbell
/// rung; once the doorbell is acknowledged, it is stopped; and then it is done with its result, and
/// gives back what it used. Its slots, its data, and its result stay the same throughout.
pub proof fn lemma_control_steps(t: ControlTransfer, hc: ControllerView)
    ensures
        ({
            let (step, after) = t.stepped(hc);
            match t.stage {
                Stage::Running => match t.completion().outcome(hc.statics) {
                    Poll::Pending => {
                        &&& step == Step::<ControlTransfer, Result<usize, UsbError>>::Wait(t)
                        &&& after == hc.set_bits(usb::Reg::Usbintr, 0xC_0003)
                    },
                    Poll::Ready(r) => {
                        &&& step == Step::<ControlTransfer, Result<usize, UsbError>>::Again(
                            ControlTransfer { stage: Stage::Stopping(r), ..t },
                        )
                        &&& after == hc.stop_async(1)
                    },
                },
                Stage::Stopping(r) => {
                    &&& hc.usb.regs.usbsts & 0x20 != 0 ==> step == Step::<
                        ControlTransfer,
                        Result<usize, UsbError>,
                    >::Again(ControlTransfer { stage: Stage::Stopped(r), ..t })
                    &&& hc.usb.regs.usbsts & 0x20 == 0 ==> step == Step::<
                        ControlTransfer,
                        Result<usize, UsbError>,
                    >::Wait(t)
                    &&& after == AsyncAdvanceWait::polled(hc).1
                },
                Stage::Stopped(_) => {
                    &&& step == Step::<ControlTransfer, Result<usize, UsbError>>::Done(
                        t.result(hc.statics),
                    )
                    &&& after == t.released(hc)
                },
            }
        }),
{
    usb::lemma_register_bits();
    lemma_driver_bits();
}

/// How a bulk transfer goes on: as a control transfer does, but the number of bytes is determined
/// when it completes, and the data toggle for the next transfer is the top bit of the overlay token
/// that the controller leaves.
pub proof fn lemma_bulk_steps(t: BulkTransfer<'_>, hc: ControllerView)
    ensures
        ({
            let (step, after) = t.stepped(hc);
            match t.stage {
                Stage::Running => match t.completion().outcome(hc.statics) {
                    Poll::Pending => {
                        &&& step == Step::<
                            BulkTransfer<'_>,
                            (Result<usize, UsbError>, bool),
                        >::Wait(t)
                        &&& after == hc.set_bits(usb::Reg::Usbintr, 0xC_0003)
                    },
                    Poll::Ready(Ok(_)) => {
                        &&& step == Step::<
                            BulkTransfer<'_>,
                            (Result<usize, UsbError>, bool),
                        >::Again(
                            BulkTransfer { stage: Stage::Stopping(Ok(t.bytes(hc.statics))), ..t },
                        )
                        &&& after == t.collected(hc).stop_async(t.pipe.which + 1)
                    },
                    Poll::Ready(Err(e)) => {
                        &&& step == Step::<
                            BulkTransfer<'_>,
                            (Result<usize, UsbError>, bool),
                        >::Again(BulkTransfer { stage: Stage::Stopping(Err(e)), ..t })
                        &&& after == hc.stop_async(t.pipe.which + 1)
                    },
                },
                Stage::Stopping(r) => {
                    &&& hc.usb.regs.usbsts & 0x20 != 0 ==> step == Step::<
                        BulkTransfer<'_>,
                        (Result<usize, UsbError>, bool),
                    >::Again(BulkTransfer { stage: Stage::Stopped(r), ..t })
                    &&& hc.usb.regs.usbsts & 0x20 == 0 ==> step == Step::<
                        BulkTransfer<'_>,
                        (Result<usize, UsbError>, bool),
                    >::Wait(t)
                    &&& after == AsyncAdvanceWait::polled(hc).1
                },
                Stage::Stopped(r) => {
                    let toggle = hc.statics.qh[t.pipe.which + 1].overlay_token@ >= 0x8000_0000;
                    &&& step == Step::<BulkTransfer<'_>, (Result<usize, UsbError>, bool)>::Done(
                        (r, toggle),
                    )
                    &&& after == t.released(hc)
                },
            }
        }),
{
    usb::lemma_register_bits();
    lemma_driver_bits();
    crate::ehci::qh::lemma_toggle_value(
        hc.statics.qh[t.pipe.which + 1].overlay_token@,
        false,
    );
}

/// What a poll of a transfer does: nothing if the transfer is complete; and otherwise it enables
/// the interrupts of transfers again.
pub proof fn lemma_completion_polled(t: TransferComplete, hc: ControllerView)
    ensures
        t.polled(hc).0 == t.outcome(hc.statics),
        t.outcome(hc.statics) is Ready ==> t.polled(hc).1 == hc,
        t.outcome(hc.statics) is Pending ==> t.polled(hc).1 == hc.set_bits(
            usb::Reg::Usbintr,
            0xC_0003,
        ),
{
    lemma_driver_bits();
}

/// What polling an interrupt pipe yields, by the token of its qTD: nothing yet while that is active
/// (bit 7); the end of the stream if it is halted (bit 6); and otherwise what was received.
pub proof fn lemma_interrupt_yields(p: ImxrtInterruptPipe<'_>, s: StaticsView)
    ensures
        ({
            let token = s.qtd[p.qtd_slot.index as int].token@;
            &&& p.yields(s) is Pending <==> token & 0x80 != 0
            &&& token & 0x80 == 0 && token & 0x40 != 0 ==> p.yields(s) == Poll::Ready(
                None::<Seq<u8>>,
            )
            &&& token & 0x80 == 0 && token & 0x40 == 0 ==> p.yields(s) == Poll::Ready(
                Some(p.received(s)),
            )
        }),
{
    crate::ehci::qtd::lemma_token_bits();
}

/// What polling an interrupt pipe does, by the token of its qTD: while that is active (bit 7), the
/// interrupts of transfers are enabled; if it is halted (bit 6), that of port changes is, and the
/// qTD is not re-armed; and otherwise the qTD is re-armed, and then the interrupts of transfers are
/// enabled.
pub proof fn lemma_interrupt_polled(p: ImxrtInterruptPipe<'_>, hc: ControllerView)
    ensures
        ({
            let token = hc.statics.qtd[p.qtd_slot.index as int].token@;
            &&& token & 0x80 != 0 ==> p.polled(hc) == hc.set_bits(usb::Reg::Usbintr, 0xC_0003)
            &&& token & 0x80 == 0 && token & 0x40 != 0 ==> p.polled(hc) == hc.set_bits(
                usb::Reg::Usbintr,
                4,
            )
            &&& token & 0x80 == 0 && token & 0x40 == 0 ==> p.polled(hc) == p.rearmed(hc).set_bits(
                usb::Reg::Usbintr,
                0xC_0003,
            )
        }),
{
    usb::lemma_register_bits();
    crate::ehci::qtd::lemma_token_bits();
    lemma_driver_bits();
}

/// What giving up an interrupt pipe does, in this order: its queue head is unlinked if it is in the
/// periodic schedule; a delay of 1 200 000 cycles lets the controller cross a frame boundary; the
/// queue head is marked as unused; and the qTD slot is free again, its descriptor blank.
pub proof fn lemma_interrupt_released(p: ImxrtInterruptPipe<'_>, hc: ControllerView)
    requires
        hc.wf(),
        hc.statics.schedules_wf(),
        p.holds(hc.statics),
    ensures
        ({
            let after = p.released(hc);
            let q = p.qh_index as int;
            let d = p.qtd_slot.index as int;
            let blank = TransferDescriptor::blank();
            let unlinked = if hc.statics.periodic_chain().contains(q) {
                hc.unlink_periodic(q)
            } else {
                hc
            };
            &&& after.usb.queue == unlinked.usb.queue + seq![
                Action::Delay { cycles: 1_200_000 },
                Action::StoreByte {
                    addr: (hc.statics.layout.qh_base + 64 * q + 56) as u32,
                    byte: 0,
                },
                Action::StoreQtd { index: p.qtd_slot.index, qtd: blank },
            ]
            &&& after.statics == (StaticsView {
                qh: unlinked.statics.qh.update(
                    q,
                    QueueHead { sw_flags: VCell(0), ..unlinked.statics.qh[q] },
                ),
                qtd: hc.statics.qtd.update(d, blank),
                allocated: hc.statics.allocated.update(d, false),
                ..unlinked.statics
            })
            &&& after.usb.regs == hc.usb.regs
            &&& after.usb.addr == hc.usb.addr
            &&& after == (ControllerView { usb: after.usb, statics: after.statics, ..hc })
        }),
{
    let q = p.qh_index as int;
    let after = p.released(hc);
    let unlinked = if hc.statics.periodic_chain().contains(q) {
        hc.unlink_periodic(q)
    } else {
        hc
    };
    assert(after.usb.queue =~= unlinked.usb.queue + seq![
        Action::Delay { cycles: 1_200_000 },
        Action::StoreByte {
            addr: (hc.statics.layout.qh_base + 64 * q + 56) as u32,
            byte: 0,
        },
        Action::StoreQtd { index: p.qtd_slot.index, qtd: TransferDescriptor::blank() },
    ]);
}

// ---------------------------------------------------------------------------
// Describing the periodic schedule
// ---------------------------------------------------------------------------

/// Which queue head lies at an address: the one of the pool that starts there, if any.
pub proof fn lemma_qh_at(layout: DmaLayout, addr: u32, i: int)
    ensures
        crate::host::diagnostics::qh_at(layout, addr) == Some(i) <==> 0 <= i < 5 && addr
            == layout.qh_base + 64 * i,
{
}

/// What is reached from a link on: nothing if it is odd (terminated); and otherwise the queue head
/// that it leads to, and then what is reached from there on, up to the given number.
pub proof fn lemma_walk(s: StaticsView, link: u32, n: nat, i: int)
    requires
        n > 0,
    ensures
        crate::host::diagnostics::walked(s, link, 0) == Seq::<int>::empty(),
        crate::host::diagnostics::walkable(s, link, 0),
        link % 2 == 1 ==> crate::host::diagnostics::walked(s, link, n) == Seq::<int>::empty()
            && crate::host::diagnostics::walkable(s, link, n),
        link % 2 == 0 && 0 <= i < 5 && 32 * (link as int / 32) == s.layout.qh_base + 64 * i ==> {
            let next = s.qh[i].horizontal_link@;
            &&& crate::host::diagnostics::walked(s, link, n) == seq![i]
                + crate::host::diagnostics::walked(s, next, (n - 1) as nat)
            &&& crate::host::diagnostics::walkable(s, link, n)
                == crate::host::diagnostics::walkable(s, next, (n - 1) as nat)
        },
        link % 2 == 0 && (forall|j: int|
            0 <= j < 5 ==> 32 * (link as int / 32) != #[trigger] (s.layout.qh_base + 64 * j))
            ==> !crate::host::diagnostics::walkable(s, link, n),
{
    crate::ehci::lemma_link_sum(0, 0, link);
    let addr = crate::ehci::link_address(link);
    lemma_qh_at(s.layout, addr, i);
    match crate::host::diagnostics::qh_at(s.layout, addr) {
        Some(j) => {
            lemma_qh_at(s.layout, addr, j);
            assert(32 * (link as int / 32) == s.layout.qh_base + 64 * j);
        },
        None => {},
    }
}

/// How a chain is described: nothing for an empty chain; `QH` and the digit for a single queue
/// head; and for each further one an arrow and its name behind what describes those before it.
pub proof fn lemma_chain_text(chain: Seq<int>, q: int)
    ensures
        crate::host::diagnostics::chain_text(Seq::<int>::empty()) == Seq::<char>::empty(),
        crate::host::diagnostics::chain_text(seq![q]) == crate::host::diagnostics::qh_name(q),
        chain.len() > 0 ==> crate::host::diagnostics::chain_text(chain.push(q))
            == crate::host::diagnostics::chain_text(chain) + seq!['-', '>']
            + crate::host::diagnostics::qh_name(q),
        crate::host::diagnostics::qh_name(0) == seq!['Q', 'H', '0'],
        crate::host::diagnostics::qh_name(1) == seq!['Q', 'H', '1'],
        crate::host::diagnostics::qh_name(2) == seq!['Q', 'H', '2'],
        crate::host::diagnostics::qh_name(3) == seq!['Q', 'H', '3'],
        crate::host::diagnostics::qh_name(4) == seq!['Q', 'H', '4'],
{
    assert(chain.push(q).drop_last() =~= chain);
}

/// Describing a chain writes back its queue heads from the cache, in their order, and changes
/// nothing.
pub proof fn lemma_chain_cleaned(hc: ControllerView, chain: Seq<int>)
    requires
        hc.wf(),
        forall|k: int| 0 <= k < chain.len() ==> 0 <= #[trigger] chain[k] < 5,
    ensures
        crate::host::diagnostics::chain_cleaned(hc, chain) == (ControllerView {
            usb: usb::InstanceView {
                queue: hc.usb.queue + Seq::new(
                    chain.len(),
                    |k: int|
                        Action::CleanInvalidate {
                            addr: (hc.statics.layout.qh_base + 64 * chain[k]) as u32,
                            size: 64,
                        },
                ),
                ..hc.usb
            },
            ..hc
        }),
    decreases chain.len(),
{
    let clean = |k: int|
        Action::CleanInvalidate {
            addr: (hc.statics.layout.qh_base + 64 * chain[k]) as u32,
            size: 64,
        };
    let all = Seq::new(chain.len(), clean);
    if chain.len() == 0 {
        assert(hc.usb.queue + all =~= hc.usb.queue);
    } else {
        let rest = chain.drop_last();
        lemma_chain_cleaned(hc, rest);
        let before = Seq::new(
            rest.len(),
            |k: int|
                Action::CleanInvalidate {
                    addr: (hc.statics.layout.qh_base + 64 * rest[k]) as u32,
                    size: 64,
                },
        );
        assert((hc.usb.queue + before).push(clean(chain.len() - 1)) =~= hc.usb.queue + all);
    }
}

/// Reading the schedules back yields pool indices, one number for each.
pub proof fn lemma_indices(nodes: Seq<usize>)
    ensures
        crate::host::inspect::indices(nodes).len() == nodes.len(),
        forall|k: int|
            0 <= k < nodes.len() ==> #[trigger] crate::host::inspect::indices(nodes)[k] == nodes[k],
{
}

} // verus!
