//! What holds of the driver as a whole.
//!
//! Each of these laws relates several operations of the driver, or speaks of all states that it
//! can be in.

use crate::ehci::{
    qh_characteristics, qtd_token_bytes_remaining, FrameList, QueueHead, TransferDescriptor,
    LINK_TERMINATE, QTD_TOKEN_ACTIVE, QTD_TOKEN_HALTED, QTD_TOKEN_IOC,
};
use crate::host::bulk::BulkTransfer;
use crate::host::controller::{
    ControllerView, ImxrtHostController, HOST_INTERRUPTS, TRANSFER_INTERRUPTS, USBCMD_RUN,
};
use crate::host::futures::TransferComplete;
use crate::host::interrupt_pipe::ImxrtInterruptPipe;
use crate::host::shared::SERVICED_MASK;
use crate::host::statics::{DmaLayout, RecvBuf, StaticsView};
use crate::host::transfer::{ControlTransfer, CONTROL_QH};
use crate::host::types::{
    Buffer, DataPhase, DeviceStatus, Poll, SetupPacket, TransferType, UsbError, UsbSpeed,
};
use crate::host::{NUM_QH, NUM_QTD, NUM_RECV_BUFS, QH_POOL_LEN};
use crate::ral::usb;
use vstd::prelude::*;

verus! {

// ---------------------------------------------------------------------------
// Schedules
// ---------------------------------------------------------------------------

/// A transfer keeps running while other queue heads are linked to and unlinked from the
/// schedules.
pub proof fn lemma_running_kept(s: StaticsView, p: int, q: int)
    requires
        s.running(p),
        1 <= q <= NUM_QH,
        p != q,
    ensures
        !s.scheduled(q) ==> s.link_async(q).running(p) && s.link_periodic(q).running(p),
        s.async_ring().contains(q) ==> s.unlink_async(q).running(p),
        s.periodic_chain().contains(q) ==> s.unlink_periodic(q).running(p),
{
    let ring = s.async_ring();
    let k = ring.index_of(p);
    assert(ring[k] == p);
    if !s.scheduled(q) {
        crate::host::links::lemma_link_async(s, q);
        crate::host::links::lemma_link_periodic(s, q);
        assert((seq![q] + ring)[k + 1] == p);
    }
    if ring.contains(q) {
        crate::host::links::lemma_unlink_async(s, q);
        let m = ring.index_of(q);
        assert(ring[m] == q);
        let shorter = ring.remove(m);
        if k < m {
            assert(shorter[k] == p);
        } else {
            assert(shorter[k - 1] == p);
        }
    }
    if s.periodic_chain().contains(q) {
        crate::host::links::lemma_unlink_periodic(s, q);
    }
}

// ---------------------------------------------------------------------------
// qTD slots
// ---------------------------------------------------------------------------

/// Whether the descriptors of all free slots are blank.
pub open spec fn free_qtds_blank(s: StaticsView) -> bool {
    forall|i: int|
        0 <= i < NUM_QTD && !s.allocated[i] ==> #[trigger] s.qtd[i] == TransferDescriptor::blank()
}

/// No stale descriptor is left in a free slot: allocating a slot, storing a descriptor into an
/// allocated slot, and freeing a slot all keep the free slots blank, and a slot that was just
/// allocated is blank.
pub proof fn lemma_free_qtds_blank(
    hc: ControllerView,
    i: int,
    qtd: TransferDescriptor,
)
    requires
        hc.wf(),
        free_qtds_blank(hc.statics),
        0 <= i < NUM_QTD,
    ensures
        free_qtds_blank(hc.free_qtd(i).statics),
        hc.statics.allocated[i] ==> free_qtds_blank(hc.store_qtd(i, qtd).statics),
        ({
            let first = crate::host::statics::first_free(hc.statics.allocated);
            first < NUM_QTD ==> {
                &&& free_qtds_blank(hc.alloc_qtd().statics)
                &&& hc.alloc_qtd().statics.qtd[first] == TransferDescriptor::blank()
            }
        }),
{
    crate::host::statics::lemma_take_free(hc.statics.allocated);
}

/// A slot is never handed out twice: allocation takes a slot that was free, and leaves all
/// others as they were.
pub proof fn lemma_alloc_exclusive(hc: ControllerView, i: int)
    requires
        hc.wf(),
        0 <= i < NUM_QTD,
        hc.statics.allocated[i],
        crate::host::statics::free_count(hc.statics.allocated) > 0,
    ensures
        crate::host::statics::first_free(hc.statics.allocated) != i,
        hc.alloc_qtd().statics.allocated[i],
{
    crate::host::statics::lemma_take_free(hc.statics.allocated);
}

/// A control transfer that is done has given back all its slots, and no others.
pub proof fn lemma_control_slots_returned(t: ControlTransfer, hc: ControllerView)
    requires
        hc.wf(),
        t.holds(hc.statics),
    ensures
        crate::host::statics::free_count(t.released(hc).statics.allocated)
            == crate::host::statics::free_count(hc.statics.allocated)
            + crate::host::transfer::control_qtds(t.data_phase),
        forall|i: int|
            0 <= i < NUM_QTD && i != t.setup_slot.index && i != t.status_slot.index && !(
            t.data_slot matches Some(d) && d.index == i)
                ==> #[trigger] t.released(hc).statics.allocated[i] == hc.statics.allocated[i],
        free_qtds_blank(hc.statics) ==> free_qtds_blank(t.released(hc).statics),
{
    let a = hc.statics.allocated;
    let b = a.update(t.status_slot.index as int, false);
    crate::host::statics::lemma_free_count_update(a, t.status_slot.index as int);
    match t.data_slot {
        Some(d) => {
            let c = b.update(d.index as int, false);
            crate::host::statics::lemma_free_count_update(b, d.index as int);
            crate::host::statics::lemma_free_count_update(c, t.setup_slot.index as int);
        },
        None => {
            crate::host::statics::lemma_free_count_update(b, t.setup_slot.index as int);
        },
    }
}

/// A bulk transfer that is done has given back all its slots, and no others.
pub proof fn lemma_bulk_slots_returned(t: BulkTransfer<'_>, hc: ControllerView)
    requires
        hc.wf(),
        t.holds(hc.statics),
    ensures
        crate::host::statics::free_count(t.released(hc).statics.allocated)
            == crate::host::statics::free_count(hc.statics.allocated) + (if t.zlp_slot is Some {
            2nat
        } else {
            1nat
        }),
        forall|i: int|
            0 <= i < NUM_QTD && i != t.data_slot.index && !(t.zlp_slot matches Some(z) && z.index
                == i) ==> #[trigger] t.released(hc).statics.allocated[i] == hc.statics.allocated[i],
        free_qtds_blank(hc.statics) ==> free_qtds_blank(t.released(hc).statics),
{
    let a = hc.statics.allocated;
    match t.zlp_slot {
        Some(z) => {
            let b = a.update(z.index as int, false);
            crate::host::statics::lemma_free_count_update(a, z.index as int);
            crate::host::statics::lemma_free_count_update(b, t.data_slot.index as int);
        },
        None => {
            crate::host::statics::lemma_free_count_update(a, t.data_slot.index as int);
        },
    }
}

// ---------------------------------------------------------------------------
// Completion
// ---------------------------------------------------------------------------

/// A transfer is never waited for in vain: it is pending only while its status qTD is active
/// and neither the QH overlay nor the data qTD is halted.
pub proof fn lemma_pending(t: TransferComplete, s: StaticsView)
    ensures
        t.outcome(s) is Pending <==> {
            &&& s.qtd[t.status_qtd_index as int].token@ & QTD_TOKEN_ACTIVE != 0
            &&& s.qh[t.qh_index as int].overlay_token@ & QTD_TOKEN_HALTED == 0
            &&& t.data_qtd_index matches Some(d) ==> s.qtd[d as int].token@ & QTD_TOKEN_HALTED == 0
        },
{
}

/// The qTDs of a control transfer that was started are chained in the order setup, data, status;
/// the queue head leads to the first, and nothing follows the last. All are active, and only the
/// last interrupts on completion. The transfer is pending.
pub proof fn lemma_control_started(
    hc: ControllerView,
    setup: SetupPacket,
    setup_addr: u32,
    data_phase: DataPhase,
    s: int,
    d: Option<int>,
    t: int,
)
    requires
        hc.wf(),
        0 <= s < NUM_QTD,
        0 <= t < NUM_QTD,
        s != t,
        d is Some <==> !(data_phase is NoData),
        d matches Some(d) ==> 0 <= d < NUM_QTD && d != s && d != t,
    ensures
        ({
            let started = crate::host::transfer::control_running(
                hc,
                setup,
                setup_addr,
                data_phase,
                s,
                d,
                t,
            ).statics;
            let layout = hc.statics.layout;
            let completion = TransferComplete {
                status_qtd_index: t as usize,
                data_qtd_index: match d {
                    Some(d) => Some(d as usize),
                    None => None,
                },
                qh_index: CONTROL_QH,
                waker_index: 0,
            };
            &&& started.qh[CONTROL_QH as int].overlay_next@ == layout.qtd_address(s)
            &&& started.qh[CONTROL_QH as int].overlay_token@ == 0
            &&& started.qtd[s].next@ == layout.qtd_address(
                match d {
                    Some(d) => d,
                    None => t,
                },
            )
            &&& started.qtd[s].token@ & QTD_TOKEN_ACTIVE != 0
            &&& started.qtd[s].token@ & QTD_TOKEN_IOC == 0
            &&& d matches Some(d) ==> {
                &&& started.qtd[d].next@ == layout.qtd_address(t)
                &&& started.qtd[d].token@ & QTD_TOKEN_ACTIVE != 0
                &&& started.qtd[d].token@ & QTD_TOKEN_IOC == 0
            }
            &&& started.qtd[t].next@ == LINK_TERMINATE
            &&& started.qtd[t].token@ & QTD_TOKEN_ACTIVE != 0
            &&& started.qtd[t].token@ & QTD_TOKEN_IOC != 0
            &&& completion.outcome(started) is Pending
        }),
{
    let len = crate::host::transfer::control_data_len(setup, data_phase) as u32;
    crate::ehci::qtd::lemma_qtd_token_active(crate::ehci::PID_SETUP, 8, false, false);
    crate::ehci::qtd::lemma_qtd_token_active(crate::ehci::PID_IN, len, true, false);
    crate::ehci::qtd::lemma_qtd_token_active(crate::ehci::PID_OUT, len, true, false);
    crate::ehci::qtd::lemma_qtd_token_active(crate::ehci::PID_IN, 0, true, true);
    crate::ehci::qtd::lemma_qtd_token_active(crate::ehci::PID_OUT, 0, true, true);
    assert(0u32 & QTD_TOKEN_HALTED == 0) by (bit_vector);
}

/// The qTDs of a bulk transfer that was started are chained in the order data, zero-length packet;
/// the queue head leads to the first with the data toggle asked for, and nothing follows the
/// last. The transfer is pending. If the controller left the queue head as it is, the next
/// transfer would start with the same toggle.
pub proof fn lemma_bulk_started(
    hc: ControllerView,
    q: int,
    is_in: bool,
    data: Buffer,
    toggle: bool,
    d: int,
    z: Option<int>,
    waker: usize,
)
    requires
        hc.wf(),
        2 <= q <= NUM_QH,
        0 <= d < NUM_QTD,
        z matches Some(z) ==> 0 <= z < NUM_QTD && z != d,
    ensures
        ({
            let started = crate::host::bulk::bulk_running(hc, q, is_in, data, toggle, d, z).statics;
            let layout = hc.statics.layout;
            let last = match z {
                Some(z) => z,
                None => d,
            };
            let completion = TransferComplete {
                status_qtd_index: last as usize,
                data_qtd_index: match z {
                    Some(_) => Some(d as usize),
                    None => None,
                },
                qh_index: q as usize,
                waker_index: waker,
            };
            &&& started.qh[q].overlay_next@ == layout.qtd_address(d)
            &&& (started.qh[q].overlay_token@ & (1u32 << 31) != 0) == toggle
            &&& started.qtd[d].token@ & QTD_TOKEN_ACTIVE != 0
            &&& started.qtd[d].next@ == (match z {
                Some(z) => layout.qtd_address(z),
                None => LINK_TERMINATE,
            })
            &&& started.qtd[last].next@ == LINK_TERMINATE
            &&& started.qtd[last].token@ & QTD_TOKEN_IOC != 0
            &&& completion.outcome(started) is Pending
        }),
{
    let len = data.len as u32;
    crate::ehci::qtd::lemma_qtd_token_active(crate::host::bulk::bulk_pid(is_in), len, false, true);
    crate::ehci::qtd::lemma_qtd_token_active(crate::host::bulk::bulk_pid(is_in), len, false, false);
    crate::ehci::qtd::lemma_qtd_token_active(crate::host::bulk::bulk_pid(is_in), 0, false, true);
    crate::ehci::qh::lemma_toggle(0, toggle);
    assert((0u32 | (1u32 << 31)) & QTD_TOKEN_HALTED == 0 && (0u32 & !(1u32 << 31))
        & QTD_TOKEN_HALTED == 0) by (bit_vector);
}

/// A transfer that succeeded shows no error, neither in its status qTD nor in its data qTD.
pub proof fn lemma_success_without_error(t: TransferComplete, s: StaticsView)
    requires
        t.outcome(s) == Poll::Ready(Ok::<(), UsbError>(())),
    ensures
        s.qtd[t.status_qtd_index as int].token@ & QTD_TOKEN_ACTIVE == 0,
        s.qtd[t.status_qtd_index as int].token@ & crate::ehci::QTD_TOKEN_ERROR_MASK == 0,
        t.data_qtd_index matches Some(d) ==> s.qtd[d as int].token@
            & crate::ehci::QTD_TOKEN_ERROR_MASK == 0,
{
}

/// A control IN transfer asks for as many bytes as it can without asking for more than the device
/// will send (`wLength`, unless that is 0) or the buffer holds; an OUT transfer sends the whole
/// buffer. With a data phase there are three qTDs, without one there are two.
pub proof fn lemma_control_data_len(setup: SetupPacket, data_phase: DataPhase)
    ensures
        data_phase matches DataPhase::In(buf) ==> {
            let len = crate::host::transfer::control_data_len(setup, data_phase);
            &&& len <= buf.len
            &&& setup.wLength > 0 ==> len <= setup.wLength
            &&& setup.wLength == 0 ==> len == buf.len
            &&& len == buf.len || len == setup.wLength
        },
        data_phase matches DataPhase::Out(buf) ==> crate::host::transfer::control_data_len(
            setup,
            data_phase,
        ) == buf.len,
        data_phase is NoData ==> crate::host::transfer::control_data_len(setup, data_phase) == 0,
        data_phase is NoData ==> crate::host::transfer::control_qtds(data_phase) == 2,
        !(data_phase is NoData) ==> crate::host::transfer::control_qtds(data_phase) == 3,
{
}

/// A VariableSize OUT transfer of some data always ends in a packet that is not full: the last
/// packet of the data, or else a zero-length packet.
pub proof fn lemma_zlp(len: usize, packet_size: u16)
    requires
        len > 0,
        packet_size > 0,
    ensures
        ({
            let last = len as int % packet_size as int;
            ||| crate::host::bulk::needs_zlp(false, TransferType::VariableSize, len, packet_size)
            ||| 0 < last < packet_size
        }),
        !crate::host::bulk::needs_zlp(false, TransferType::FixedSize, len, packet_size),
        forall|t: TransferType| !crate::host::bulk::needs_zlp(true, t, len, packet_size),
{
}

/// High Speed bulk endpoints have packets of at least 512 bytes; for other speeds, the packet
/// size is as asked for.
pub proof fn lemma_bulk_packet_size(speed: u32, packet_size: u16)
    ensures
        speed == crate::ehci::SPEED_HIGH ==> crate::host::bulk::bulk_packet_size(speed, packet_size)
            >= 512,
        speed != crate::ehci::SPEED_HIGH || packet_size >= 512
            ==> crate::host::bulk::bulk_packet_size(speed, packet_size) == packet_size,
{
}

// ---------------------------------------------------------------------------
// Interrupt pipes
// ---------------------------------------------------------------------------

/// A packet fits its buffer, and is not larger than the endpoint allows.
pub proof fn lemma_packet_size(p: ImxrtInterruptPipe<'_>, token: u32)
    ensures
        0 <= p.packet_size(token) <= 64,
        p.packet_size(token) <= p.max_packet_size,
        p.max_packet_size <= 64 && qtd_token_bytes_remaining(token) <= p.max_packet_size
            ==> p.packet_size(token) + qtd_token_bytes_remaining(token) == p.max_packet_size,
{
}

/// A pipe that was re-armed polls for the next packet: its qTD is active again and describes its
/// receive buffer, and its queue head leads to the qTD. The data toggle and the schedules are
/// left as they were.
pub proof fn lemma_rearmed(p: ImxrtInterruptPipe<'_>, hc: ControllerView)
    requires
        hc.wf(),
        p.holds(hc.statics),
    ensures
        ({
            let s = p.rearmed(hc).statics;
            let d = p.qtd_slot.index as int;
            let q = p.qh_index as int;
            &&& s.qtd[d].token@ & QTD_TOKEN_ACTIVE != 0
            &&& s.qtd[d].buffer[0]@ == hc.statics.recv[p.recv_buf_idx as int].addr
            &&& s.qh[q].overlay_next@ == hc.statics.layout.qtd_address(d)
            &&& s.qh[q].overlay_token == hc.statics.qh[q].overlay_token
            &&& s.links() == hc.statics.links()
            &&& s.allocated == hc.statics.allocated
        }),
{
    crate::ehci::qtd::lemma_qtd_token_active(
        crate::ehci::PID_IN,
        p.max_packet_size as u32,
        false,
        true,
    );
    assert(p.rearmed(hc).statics.links() =~= hc.statics.links());
}

/// The queue head of an interrupt pipe has a NAK reload of 0, and otherwise the characteristics
/// that it is asked for.
pub proof fn lemma_interrupt_characteristics(
    address: u8,
    endpoint: u8,
    speed: u32,
    max_packet_size: u16,
)
    ensures
        ({
            let word = qh_characteristics(address, endpoint, speed, max_packet_size, false, false);
            let periodic = word & !(0xFu32 << 28);
            &&& periodic >> 28 == 0
            &&& periodic & 0xFFF_FFFF == word & 0xFFF_FFFF
            &&& periodic == word as int % 0x1000_0000
        }),
{
    let word = qh_characteristics(address, endpoint, speed, max_packet_size, false, false);
    assert((word & !(0xFu32 << 28)) >> 28 == 0 && (word & !(0xFu32 << 28)) & 0xFFF_FFFF == word
        & 0xFFF_FFFF && (word & !(0xFu32 << 28)) == word % 0x1000_0000) by (bit_vector);
}

// ---------------------------------------------------------------------------
// Interrupts
// ---------------------------------------------------------------------------

/// What the interrupt handler leaves in the registers: the acknowledgement of the async advance
/// doorbell is still there for whoever waits for it, no other status is pending, and no interrupt
/// that was serviced is enabled.
pub proof fn lemma_irq(usb: usb::InstanceView)
    ensures
        ({
            let status = usb.reg(usb::Reg::Usbsts);
            let after = usb.write(usb::Reg::Usbsts, status & !usb::USBSTS_AAI).clear_bits(
                usb::Reg::Usbintr,
                status & SERVICED_MASK,
            );
            &&& after.reg(usb::Reg::Usbsts) & usb::USBSTS_AAI == status & usb::USBSTS_AAI
            &&& after.reg(usb::Reg::Usbsts) & usb::USBSTS_W1C_MASK & !usb::USBSTS_AAI == 0
            &&& after.reg(usb::Reg::Usbintr) & status & SERVICED_MASK == 0
            &&& after.reg(usb::Reg::Usbintr) & !(status & SERVICED_MASK) == usb.reg(
                usb::Reg::Usbintr,
            ) & !(status & SERVICED_MASK)
        }),
{
    let status = usb.reg(usb::Reg::Usbsts);
    let intr = usb.reg(usb::Reg::Usbintr);
    usb::lemma_register_bits();
    assert((status & !(status & !0x20u32 & 0x030C_05FFu32)) & 0x20 == status & 0x20 && (status & !(
    status & !0x20u32 & 0x030C_05FFu32)) & 0x030C_05FF & !0x20u32 == 0) by (bit_vector);
    assert((intr & !(status & 0x000F_003Fu32)) & status & 0x000F_003F == 0 && (intr & !(status
        & 0x000F_003Fu32)) & !(status & 0x000F_003Fu32) == intr & !(status & 0x000F_003Fu32))
        by (bit_vector);
}

/// What the interrupt handler masked, the poll functions enable again, and disable nothing.
pub proof fn lemma_reenable(usb: usb::InstanceView, mask: u32)
    ensures
        usb.set_bits(usb::Reg::Usbintr, mask).reg(usb::Reg::Usbintr) & mask == mask,
        usb.set_bits(usb::Reg::Usbintr, mask).reg(usb::Reg::Usbintr) & usb.reg(usb::Reg::Usbintr)
            == usb.reg(usb::Reg::Usbintr),
{
    let intr = usb.reg(usb::Reg::Usbintr);
    assert((intr | mask) & mask == mask && (intr | mask) & intr == intr) by (bit_vector);
}

/// The doorbell is acknowledged once: clearing the acknowledgement leaves none, and leaves the
/// other status bits alone.
pub proof fn lemma_acknowledge_doorbell(usb: usb::InstanceView)
    ensures
        usb.write(usb::Reg::Usbsts, usb::USBSTS_AAI).reg(usb::Reg::Usbsts) & usb::USBSTS_AAI == 0,
        usb.write(usb::Reg::Usbsts, usb::USBSTS_AAI).reg(usb::Reg::Usbsts) & !usb::USBSTS_AAI
            == usb.reg(usb::Reg::Usbsts) & !usb::USBSTS_AAI,
{
    let status = usb.reg(usb::Reg::Usbsts);
    usb::lemma_register_bits();
    assert((status & !(0x20u32 & 0x030C_05FFu32)) & 0x20 == 0 && (status & !(0x20u32
        & 0x030C_05FFu32)) & !0x20u32 == status & !0x20u32) by (bit_vector);
}

// ---------------------------------------------------------------------------
// The root port
// ---------------------------------------------------------------------------

/// Initialization powers the port. With hub support it forces devices to Full Speed, and without
/// it leaves that as it was; no change of the port is lost either way.
pub proof fn lemma_port_init(usb: usb::InstanceView, hub_support: bool)
    ensures
        ({
            let held = usb.reg(usb::Reg::Portsc1);
            let speed = if hub_support {
                usb::PORTSC1_PFSC
            } else {
                0
            };
            let after = usb.write(
                usb::Reg::Portsc1,
                held & !ImxrtHostController::PORTSC1_W1C_MASK | usb::PORTSC1_PP | speed,
            ).reg(usb::Reg::Portsc1);
            &&& after & usb::PORTSC1_PP != 0
            &&& hub_support ==> after & usb::PORTSC1_PFSC != 0
            &&& !hub_support ==> after & usb::PORTSC1_PFSC == held & usb::PORTSC1_PFSC
            &&& after & usb::PORTSC1_CHANGE_MASK == held & usb::PORTSC1_CHANGE_MASK
        }),
{
    let held = usb.reg(usb::Reg::Portsc1);
    let speed = if hub_support {
        usb::PORTSC1_PFSC
    } else {
        0
    };
    usb::lemma_register_bits();
    crate::host::reactions::lemma_driver_bits();
    let written = held & !0x6Au32 | 0x1000u32 | speed;
    let after = (written & !0x2Au32) | (held & 0x2Au32 & !written);
    assert(after & 0x1000 != 0 && (speed == 0x100_0000 ==> after & 0x100_0000 != 0) && (speed == 0
        ==> after & 0x100_0000 == held & 0x100_0000) && after & 0x2A == held & 0x2A)
        by (bit_vector)
        requires
            written == held & !0x6Au32 | 0x1000u32 | speed,
            after == (written & !0x2Au32) | (held & 0x2Au32 & !written),
            speed == 0 || speed == 0x100_0000,
    ;
}

/// Device detection reports every connect and every disconnect, in turn, and nothing else: there
/// is an event exactly if the status differs from the one before in whether there is a device, at
/// whatever speed, and what is reported is the status of the port. A port that stays as it is, or
/// changes its speed only, gives no event.
pub proof fn lemma_device_events(before: DeviceStatus, now: DeviceStatus)
    ensures
        crate::host::device_detect::event(before, now) matches Poll::Ready(e) ==> e == now && (
        e is Absent) != (before is Absent),
        (now is Absent) != (before is Absent) ==> crate::host::device_detect::event(before, now)
            == Poll::Ready(now),
        crate::host::device_detect::event(now, now) is Pending,
        forall|a: UsbSpeed, b: UsbSpeed|
            #[trigger] crate::host::device_detect::event(
                DeviceStatus::Present(a),
                DeviceStatus::Present(b),
            ) is Pending,
{
}

/// The controller runs with the periodic schedule enabled, the async schedule not yet, a frame
/// list of 32 entries (code 0b101), and out of reset; no timer interrupt is enabled.
pub proof fn lemma_configuration()
    ensures
        USBCMD_RUN & usb::USBCMD_RS != 0,
        USBCMD_RUN & usb::USBCMD_PSE != 0,
        USBCMD_RUN & usb::USBCMD_ASE == 0,
        USBCMD_RUN & usb::USBCMD_RST == 0,
        (USBCMD_RUN >> 15) & 1 == 1 && (USBCMD_RUN >> 2) & 3 == 1,
        HOST_INTERRUPTS & TRANSFER_INTERRUPTS == TRANSFER_INTERRUPTS,
        HOST_INTERRUPTS & (usb::USBINTR_TIE0 | usb::USBINTR_TIE1) == 0,
{
    assert(USBCMD_RUN & usb::USBCMD_RS != 0 && USBCMD_RUN & usb::USBCMD_PSE != 0 && USBCMD_RUN
        & usb::USBCMD_ASE == 0 && USBCMD_RUN & usb::USBCMD_RST == 0 && (USBCMD_RUN >> 15) & 1 == 1
        && (USBCMD_RUN >> 2) & 3 == 1 && HOST_INTERRUPTS & TRANSFER_INTERRUPTS
        == TRANSFER_INTERRUPTS && HOST_INTERRUPTS & (usb::USBINTR_TIE0 | usb::USBINTR_TIE1) == 0)
        by (bit_vector);
}

// ---------------------------------------------------------------------------
// DMA memory
// ---------------------------------------------------------------------------

/// Structures of the same pool do not overlap, and no two receive buffers share a cache line.
pub proof fn lemma_structures_disjoint(layout: DmaLayout, i: int, j: int)
    requires
        layout.wf(),
        0 <= i < j,
    ensures
        j < QH_POOL_LEN ==> {
            &&& layout.qh_address(i) % QueueHead::ALIGN == 0
            &&& layout.qh_address(i) + QueueHead::SIZE <= layout.qh_address(j)
        },
        j < NUM_QTD ==> {
            &&& layout.qtd_address(i) % TransferDescriptor::ALIGN == 0
            &&& layout.qtd_address(i) + TransferDescriptor::SIZE <= layout.qtd_address(j)
        },
        j < NUM_RECV_BUFS ==> {
            &&& layout.recv_address(i) % RecvBuf::ALIGN == 0
            &&& layout.recv_address(i) + RecvBuf::SIZE <= layout.recv_address(j)
        },
        layout.frame_list % FrameList::ALIGN == 0,
{
}

/// Transfers and pipes that use different bulk pipes use different queue heads and receive
/// buffers, none of which is the queue head for control transfers or the sentinel.
pub proof fn lemma_pipes_disjoint(
    p: ImxrtInterruptPipe<'_>,
    q: ImxrtInterruptPipe<'_>,
    t: BulkTransfer<'_>,
    s: StaticsView,
)
    requires
        p.holds(s),
        q.holds(s),
        t.holds(s),
    ensures
        p.pipe.which != q.pipe.which ==> p.qh_index != q.qh_index && p.recv_buf_idx
            != q.recv_buf_idx,
        p.pipe.which != t.pipe.which ==> p.qh_index != t.qh(),
        CONTROL_QH < p.qh_index <= NUM_QH,
        CONTROL_QH < t.qh() <= NUM_QH,
        p.recv_buf_idx < NUM_RECV_BUFS,
{
}

// ---------------------------------------------------------------------------
// Cache maintenance
// ---------------------------------------------------------------------------

/// The cache lines of all DMA structures, and of all buffers that a transfer may use, lie within
/// the address space.
pub proof fn lemma_cache_lines_fit(layout: DmaLayout, i: int, buffer: Buffer)
    requires
        layout.wf(),
        buffer.wf(),
    ensures
        0 <= i < QH_POOL_LEN ==> crate::cache::lines_fit(
            layout.qh_address(i) as usize,
            QueueHead::SIZE as usize,
        ),
        0 <= i < NUM_QTD ==> crate::cache::lines_fit(
            layout.qtd_address(i) as usize,
            TransferDescriptor::SIZE as usize,
        ),
        crate::cache::lines_fit(layout.frame_list as usize, FrameList::SIZE as usize),
        crate::cache::lines_fit(buffer.addr as usize, buffer.len),
{
}

} // verus!
