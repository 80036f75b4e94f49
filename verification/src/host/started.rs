//! What a transfer that was started looks like to the controller.
//!
//! These laws say which words the controller finds in the descriptors and in the queue head of a
//! transfer, and which actions put them there, in terms of what was asked for.

use crate::action::Action;
use crate::ehci::{qh_characteristics, QueueHead, TransferDescriptor};
use crate::host::controller::ControllerView;
use crate::host::interrupt_pipe::{ImxrtInterruptPipe, Pipe};
use crate::host::statics::StaticsView;
use crate::host::types::{Buffer, DataPhase, SetupPacket, TransferExtras, TransferType};
use crate::ral::usb;
use crate::vcell::VCell;
use vstd::prelude::*;

verus! {

// ---------------------------------------------------------------------------
// Control transfers
// ---------------------------------------------------------------------------

/// The slots of a control transfer: `s`, `d` (if there is a data phase), and `t` are the lowest
/// free slots, in this order.
pub open spec fn lowest_slots(allocated: Seq<bool>, s: int, d: Option<int>, t: int) -> bool {
    &&& 0 <= s < t < 16
    &&& !allocated[s]
    &&& !allocated[t]
    &&& d matches Some(d) ==> s < d < t && !allocated[d]
    &&& forall|j: int| 0 <= j < t && j != s && d != Some(j) ==> #[trigger] allocated[j]
}

/// The state in which the qTDs of a control transfer are built: its queue head is set up, and its
/// slots are allocated.
pub open spec fn control_ready(
    hc: ControllerView,
    address: u8,
    transfer_extras: TransferExtras,
    packet_size: u8,
    with_data: bool,
) -> ControllerView {
    let endpoint = crate::host::transfer::control_endpoint(
        hc,
        address,
        transfer_extras,
        packet_size,
    );
    if with_data {
        endpoint.alloc_qtd().alloc_qtd().alloc_qtd()
    } else {
        endpoint.alloc_qtd().alloc_qtd()
    }
}

/// Setting up the queue head takes the lowest free slots, and touches no descriptor, no other
/// queue head, and no register.
proof fn lemma_control_ready(
    hc: ControllerView,
    address: u8,
    transfer_extras: TransferExtras,
    packet_size: u8,
    s: int,
    d: Option<int>,
    t: int,
)
    requires
        hc.wf(),
        lowest_slots(hc.statics.allocated, s, d, t),
    ensures
        ({
            let endpoint = crate::host::transfer::control_endpoint(
                hc,
                address,
                transfer_extras,
                packet_size,
            );
            let ready = control_ready(hc, address, transfer_extras, packet_size, d is Some);
            let a = hc.statics.allocated.update(s, true);
            &&& ready == (ControllerView {
                statics: StaticsView {
                    allocated: (match d {
                        Some(d) => a.update(d, true),
                        None => a,
                    }).update(t, true),
                    ..endpoint.statics
                },
                ..endpoint
            })
            &&& endpoint == hc.store_qh(1, endpoint.statics.qh[1])
            &&& s == crate::host::statics::first_free(hc.statics.allocated)
            &&& match d {
                Some(d) => d == crate::host::statics::first_free(
                    endpoint.alloc_qtd().statics.allocated,
                ) && t == crate::host::statics::first_free(
                    endpoint.alloc_qtd().alloc_qtd().statics.allocated,
                ),
                None => t == crate::host::statics::first_free(
                    endpoint.alloc_qtd().statics.allocated,
                ),
            }
        }),
{
    let endpoint = crate::host::transfer::control_endpoint(
        hc,
        address,
        transfer_extras,
        packet_size,
    );
    crate::host::effects::lemma_alloc_free(endpoint, s);
    let one = endpoint.alloc_qtd();
    match d {
        Some(d) => {
            crate::host::effects::lemma_alloc_free(one, d);
            crate::host::effects::lemma_alloc_free(one.alloc_qtd(), t);
        },
        None => {
            crate::host::effects::lemma_alloc_free(one, t);
        },
    }
}

/// A control transfer is started from that state, with the lowest free slots.
pub proof fn lemma_control_starts(
    hc: ControllerView,
    address: u8,
    transfer_extras: TransferExtras,
    packet_size: u8,
    setup: SetupPacket,
    setup_addr: u32,
    data_phase: DataPhase,
    s: int,
    d: Option<int>,
    t: int,
)
    requires
        hc.wf(),
        d is Some <==> !(data_phase is NoData),
        lowest_slots(hc.statics.allocated, s, d, t),
    ensures
        crate::host::transfer::control_started(
            hc,
            address,
            transfer_extras,
            packet_size,
            setup,
            setup_addr,
            data_phase,
        ) == crate::host::transfer::control_running(
            control_ready(hc, address, transfer_extras, packet_size, d is Some),
            setup,
            setup_addr,
            data_phase,
            s,
            d,
            t,
        ),
{
    lemma_control_ready(hc, address, transfer_extras, packet_size, s, d, t);
}

/// The control transfer that is handed out knows its slots, its data phase, and how many bytes it
/// asks for: `wLength` if that is not 0 and the buffer holds more, and otherwise what the buffer
/// holds.
pub proof fn lemma_new_control_transfer(
    hc: ControllerView,
    setup: SetupPacket,
    data_phase: DataPhase,
    s: int,
    d: Option<int>,
    t: int,
)
    requires
        hc.wf(),
        d is Some <==> !(data_phase is NoData),
        lowest_slots(hc.statics.allocated, s, d, t),
    ensures
        ({
            let new = crate::host::transfer::new_control_transfer(hc, setup, data_phase);
            &&& new.setup_slot.index == s
            &&& new.data_slot is Some <==> d is Some
            &&& d matches Some(d) ==> new.data_slot.unwrap().index == d
            &&& new.status_slot.index == t
            &&& new.data_phase == data_phase
            &&& new.data_len == (match data_phase {
                DataPhase::In(buf) => if setup.wLength > 0 && setup.wLength < buf.len {
                    setup.wLength as int
                } else {
                    buf.len as int
                },
                DataPhase::Out(buf) => buf.len as int,
                DataPhase::NoData => 0,
            })
            &&& new.stage is Running
        }),
{
    crate::host::effects::lemma_alloc_free(hc, s);
    let one = hc.alloc_qtd();
    match d {
        Some(d) => {
            crate::host::effects::lemma_alloc_free(one, d);
            crate::host::effects::lemma_alloc_free(one.alloc_qtd(), t);
        },
        None => {
            crate::host::effects::lemma_alloc_free(one, t);
        },
    }
}

/// The descriptors of a control transfer that was started.
///
/// - The first one sends the 8 bytes of the setup packet, as SETUP with DATA0.
/// - The second one, if there is a data phase, starts with DATA1 at the first byte of the
///   caller's buffer. It receives `wLength` bytes if that is not 0 and the buffer holds more, and
///   otherwise all that the buffer holds; or it sends the whole buffer.
/// - The last one acknowledges: no bytes, DATA1, in the direction opposite to that of the data,
///   or IN. It is the only one that interrupts, and nothing follows it.
///
/// Each is active, has three retries, and leads to the next one. They are in the lowest free
/// slots, and no other descriptor or slot changes.
#[verifier::rlimit(40)]
pub proof fn lemma_control_descriptors(
    hc: ControllerView,
    address: u8,
    transfer_extras: TransferExtras,
    packet_size: u8,
    setup: SetupPacket,
    setup_addr: u32,
    data_phase: DataPhase,
    s: int,
    d: Option<int>,
    t: int,
)
    requires
        hc.wf(),
        (Buffer { addr: setup_addr, len: 8 }).wf(),
        data_phase matches DataPhase::In(buf) ==> buf.wf(),
        data_phase matches DataPhase::Out(buf) ==> buf.wf(),
        d is Some <==> !(data_phase is NoData),
        lowest_slots(hc.statics.allocated, s, d, t),
    ensures
        ({
            let started = crate::host::transfer::control_running(
                control_ready(hc, address, transfer_extras, packet_size, d is Some),
                setup,
                setup_addr,
                data_phase,
                s,
                d,
                t,
            ).statics;
            let base = hc.statics.layout.qtd_base;
            &&& started.qtd[s].token@ == 0x80 + 0x200 + 0xC00 + 0x1_0000 * 8
            &&& started.qtd[s].next@ == base + 32 * (match d {
                Some(d) => d,
                None => t,
            })
            &&& started.qtd[s].alt_next@ == 1
            &&& started.qtd[s].buffer[0]@ == setup_addr
            &&& forall|i: int|
                1 <= i < 5 ==> (#[trigger] started.qtd[s].buffer[i])@ == 4096 * (setup_addr as int
                    / 4096 + i)
            &&& data_phase matches DataPhase::In(buf) ==> {
                let n = if setup.wLength > 0 && setup.wLength < buf.len {
                    setup.wLength as int
                } else {
                    buf.len as int
                };
                &&& started.qtd[d.unwrap()].token@ == 0x80 + 0x100 + 0xC00 + 0x1_0000 * (n % 0x8000)
                    + 0x8000_0000
                &&& started.qtd[d.unwrap()].buffer[0]@ == buf.addr
                &&& forall|i: int|
                    1 <= i < 5 ==> (#[trigger] started.qtd[d.unwrap()].buffer[i])@ == 4096 * (
                    buf.addr as int / 4096 + i)
            }
            &&& data_phase matches DataPhase::Out(buf) ==> {
                &&& started.qtd[d.unwrap()].token@ == 0x80 + 0xC00 + 0x1_0000 * (buf.len as int
                    % 0x8000) + 0x8000_0000
                &&& started.qtd[d.unwrap()].buffer[0]@ == buf.addr
                &&& forall|i: int|
                    1 <= i < 5 ==> (#[trigger] started.qtd[d.unwrap()].buffer[i])@ == 4096 * (
                    buf.addr as int / 4096 + i)
            }
            &&& d matches Some(d) ==> {
                &&& started.qtd[d].next@ == base + 32 * t
                &&& started.qtd[d].alt_next@ == 1
            }
            &&& started.qtd[t].token@ == 0x80 + (if data_phase is In {
                0int
            } else {
                0x100
            }) + 0xC00 + 0x8000 + 0x8000_0000
            &&& started.qtd[t].next@ == 1
            &&& started.qtd[t].alt_next@ == 1
            &&& forall|i: int|
                0 <= i < 5 ==> (#[trigger] started.qtd[t].buffer[i])@ == 4096 * i
            &&& started.qtd.len() == 16
            &&& forall|i: int|
                0 <= i < 16 && i != s && i != t && d != Some(i) ==> #[trigger] started.qtd[i]
                    == hc.statics.qtd[i]
            &&& started.allocated.len() == 16
            &&& forall|i: int|
                0 <= i < 16 ==> #[trigger] started.allocated[i] == (i == s || i == t || d == Some(i)
                    || hc.statics.allocated[i])
        }),
{
    lemma_control_ready(hc, address, transfer_extras, packet_size, s, d, t);
    let ready = control_ready(hc, address, transfer_extras, packet_size, d is Some);
    crate::ehci::lemma_codes();
    crate::ehci::qtd::lemma_token_bits();
    let n = crate::host::transfer::control_data_len(setup, data_phase) as u32;
    crate::ehci::qtd::lemma_token_sum(2, 8, false, false);
    crate::ehci::qtd::lemma_token_sum(1, n, true, false);
    crate::ehci::qtd::lemma_token_sum(0, n, true, false);
    crate::ehci::qtd::lemma_token_sum(1, 0, true, true);
    crate::ehci::qtd::lemma_token_sum(0, 0, true, true);
    crate::ehci::qtd::lemma_phase(
        crate::host::transfer::setup_qtd(setup_addr).token@,
        setup_addr,
    );
    crate::ehci::qtd::lemma_phase(crate::host::transfer::status_qtd(data_phase).token@, 0);
    match data_phase {
        DataPhase::In(buf) => {
            crate::ehci::qtd::lemma_phase(
                crate::host::transfer::data_qtd(setup, data_phase).token@,
                buf.addr,
            );
        },
        DataPhase::Out(buf) => {
            crate::ehci::qtd::lemma_phase(
                crate::host::transfer::data_qtd(setup, data_phase).token@,
                buf.addr,
            );
        },
        DataPhase::NoData => {},
    }
    crate::host::effects::lemma_addresses(hc.statics.layout, s);
    crate::host::effects::lemma_addresses(hc.statics.layout, t);
    if d is Some {
        crate::host::effects::lemma_addresses(hc.statics.layout, d.unwrap());
    }
}

/// The queue head of a control transfer that was started.
///
/// It addresses endpoint 0 of the device, with packets of the size asked for, at Low Speed for a
/// device behind a Full Speed hub and otherwise at the speed of the port. It takes the data toggle
/// from the qTDs, and is marked as a control endpoint unless it is High Speed. It leads to the
/// first qTD, is not halted, and stands right behind the sentinel in the async schedule, which is
/// enabled. Nothing else changes: no other queue head, frame, receive buffer, or register.
#[verifier::rlimit(40)]
pub proof fn lemma_control_queue_head(
    hc: ControllerView,
    address: u8,
    transfer_extras: TransferExtras,
    packet_size: u8,
    setup: SetupPacket,
    setup_addr: u32,
    data_phase: DataPhase,
    s: int,
    d: Option<int>,
    t: int,
)
    requires
        hc.wf(),
        d is Some <==> !(data_phase is NoData),
        lowest_slots(hc.statics.allocated, s, d, t),
    ensures
        ({
            let after = crate::host::transfer::control_running(
                control_ready(hc, address, transfer_extras, packet_size, d is Some),
                setup,
                setup_addr,
                data_phase,
                s,
                d,
                t,
            );
            let started = after.statics;
            let qh = started.qh[1];
            let layout = hc.statics.layout;
            let code = hc.usb.regs.portsc1 as int / 0x400_0000 % 4;
            let speed: int = if transfer_extras is WithPreamble || code == 1 {
                1
            } else if code == 2 {
                2
            } else {
                0
            };
            &&& address < 0x80 ==> qh.characteristics@ == address + 0x1000 * speed + 0x4000
                + 0x1_0000 * packet_size + (if speed == 2 {
                0int
            } else {
                0x800_0000
            }) + 0xF000_0000
            &&& qh.characteristics@ == qh_characteristics(
                address,
                0,
                speed as u32,
                packet_size as u16,
                true,
                false,
            )
            &&& qh.capabilities@ == 0x4000_0000
            &&& qh.current_qtd@ == 0
            &&& qh.overlay_next@ == layout.qtd_base + 32 * s
            &&& qh.overlay_alt_next@ == 1
            &&& qh.overlay_token@ == 0
            &&& forall|i: int| 0 <= i < 5 ==> (#[trigger] qh.overlay_buffer[i])@ == 0
            &&& qh.attached_qtd@ == layout.qtd_base + 32 * s
            &&& qh.attached_buffer@ == 0
            &&& qh.sw_flags@ == 1
            &&& qh.sw_pid@ == 0
            &&& qh.sw_interval_ms@ == 0
            &&& qh.pad == hc.statics.qh[1].pad
            &&& qh.horizontal_link == hc.statics.qh[0].horizontal_link
            &&& started.qh[0] == (QueueHead {
                horizontal_link: VCell((layout.qh_base + 64 + 2) as u32),
                ..hc.statics.qh[0]
            })
            &&& started.qh.len() == 5
            &&& forall|i: int| 2 <= i < 5 ==> #[trigger] started.qh[i] == hc.statics.qh[i]
            &&& started == (StaticsView {
                qh: started.qh,
                qtd: started.qtd,
                allocated: started.allocated,
                ..hc.statics
            })
            &&& after.usb.regs == (usb::RegisterBlock {
                usbcmd: if hc.usb.regs.usbcmd & 0x20 != 0 {
                    hc.usb.regs.usbcmd
                } else {
                    hc.usb.regs.usbcmd | 0x20
                },
                ..hc.usb.regs
            })
            &&& after.usb.addr == hc.usb.addr
            &&& after == (ControllerView { statics: started, usb: after.usb, ..hc })
        }),
{
    lemma_control_ready(hc, address, transfer_extras, packet_size, s, d, t);
    usb::lemma_register_bits();
    crate::ehci::lemma_codes();
    let speed = crate::host::transfer::endpoint_speed(transfer_extras, hc.pspd());
    if address < 0x80 {
        crate::ehci::qh::lemma_characteristics_sum(
            address,
            0,
            speed,
            packet_size as u16,
            true,
            false,
        );
    }
    crate::ehci::qh::lemma_capabilities_sum(0, 0, 0, 0, 1);
    let endpoint = crate::host::transfer::control_endpoint(
        hc,
        address,
        transfer_extras,
        packet_size,
    );
    crate::ehci::qh::lemma_endpoint(
        hc.statics.qh[1],
        endpoint.statics.qh[1].characteristics@,
        endpoint.statics.qh[1].capabilities@,
    );
    crate::ehci::qh::lemma_attached(
        endpoint.statics.qh[1],
        hc.statics.layout.qtd_address(s),
    );
    crate::host::effects::lemma_addresses(hc.statics.layout, s);
    crate::host::effects::lemma_qh_link_sum(hc.statics.layout, 1);
}

/// A chain of qTDs, stored and attached to the queue head for control transfers, and written back
/// from the cache.
#[verifier::opaque]
spec fn control_chain(
    ready: ControllerView,
    setup_addr: u32,
    data_phase: DataPhase,
    slots: (int, Option<int>, int),
    qtds: (TransferDescriptor, TransferDescriptor, TransferDescriptor),
    attached: QueueHead,
) -> ControllerView {
    let (s, d, t) = slots;
    let chained = match d {
        Some(d) => ready.store_qtd(s, qtds.0).store_qtd(d, qtds.1),
        None => ready.store_qtd(s, qtds.0),
    };
    let stored = chained.store_qtd(t, qtds.2).store_qh(1, attached).clean_buffer(setup_addr, 8);
    let flushed = match data_phase {
        DataPhase::Out(buf) => stored.clean_buffer(buf.addr, buf.len),
        _ => stored,
    }.clean_qtd(s);
    match d {
        Some(d) => flushed.clean_qtd(d),
        None => flushed,
    }.clean_qtd(t)
}

#[verifier::rlimit(40)]
#[verifier::spinoff_prover]
proof fn lemma_control_chain(
    ready: ControllerView,
    setup_addr: u32,
    data_phase: DataPhase,
    slots: (int, Option<int>, int),
    qtds: (TransferDescriptor, TransferDescriptor, TransferDescriptor),
    attached: QueueHead,
)
    requires
        ready.wf(),
        0 <= slots.0 < slots.2 < 16,
        slots.1 matches Some(d) ==> slots.0 < d < slots.2,
    ensures
        ({
            let after = control_chain(ready, setup_addr, data_phase, slots, qtds, attached);
            let (s, d, t) = slots;
            let layout = ready.statics.layout;
            &&& after.wf()
            &&& after.statics.layout == layout
            &&& after.statics.qtd[s] == qtds.0
            &&& d matches Some(d) ==> after.statics.qtd[d] == qtds.1
            &&& after.statics.qtd[t] == qtds.2
            &&& after.statics.qh[0] == ready.statics.qh[0]
            &&& after.statics.qh[1] == attached
            &&& after.usb.regs == ready.usb.regs
            &&& after.usb.queue == ready.usb.queue + seq![
                Action::StoreQtd { index: s as usize, qtd: qtds.0 },
            ] + (match d {
                Some(d) => seq![Action::StoreQtd { index: d as usize, qtd: qtds.1 }],
                None => Seq::empty(),
            }) + seq![
                Action::StoreQtd { index: t as usize, qtd: qtds.2 },
                Action::StoreQh { index: 1, qh: attached },
                Action::CleanInvalidate { addr: setup_addr, size: 8 },
            ] + (match data_phase {
                DataPhase::Out(buf) => if buf.len > 0 {
                    seq![Action::CleanInvalidate { addr: buf.addr, size: buf.len as u32 }]
                } else {
                    Seq::empty()
                },
                _ => Seq::empty(),
            }) + seq![
                Action::CleanInvalidate { addr: (layout.qtd_base + 32 * s) as u32, size: 32 },
            ] + (match d {
                Some(d) => seq![
                    Action::CleanInvalidate { addr: (layout.qtd_base + 32 * d) as u32, size: 32 },
                ],
                None => Seq::empty(),
            }) + seq![
                Action::CleanInvalidate { addr: (layout.qtd_base + 32 * t) as u32, size: 32 },
            ]
        }),
{
    reveal(control_chain);
    let (s, d, t) = slots;
    let layout = ready.statics.layout;
    let first = ready.store_qtd(s, qtds.0);
    let head = seq![Action::StoreQtd { index: s as usize, qtd: qtds.0 }];
    assert(first.usb.queue =~= ready.usb.queue + head);
    let chained = match d {
        Some(d) => first.store_qtd(d, qtds.1),
        None => first,
    };
    let data_store = match d {
        Some(d) => seq![Action::StoreQtd { index: d as usize, qtd: qtds.1 }],
        None => Seq::<Action>::empty(),
    };
    assert(chained.usb.queue =~= first.usb.queue + data_store);
    let stored = chained.store_qtd(t, qtds.2).store_qh(1, attached).clean_buffer(setup_addr, 8);
    let middle = seq![
        Action::StoreQtd { index: t as usize, qtd: qtds.2 },
        Action::StoreQh { index: 1, qh: attached },
        Action::CleanInvalidate { addr: setup_addr, size: 8 },
    ];
    assert(stored.usb.queue =~= chained.usb.queue + middle);
    let flushed = match data_phase {
        DataPhase::Out(buf) => stored.clean_buffer(buf.addr, buf.len),
        _ => stored,
    };
    let data_clean = match data_phase {
        DataPhase::Out(buf) => if buf.len > 0 {
            seq![Action::CleanInvalidate { addr: buf.addr, size: buf.len as u32 }]
        } else {
            Seq::<Action>::empty()
        },
        _ => Seq::<Action>::empty(),
    };
    assert(flushed.usb.queue =~= stored.usb.queue + data_clean);
    let one = flushed.clean_qtd(s);
    let clean_s = seq![
        Action::CleanInvalidate { addr: (layout.qtd_base + 32 * s) as u32, size: 32 },
    ];
    assert(one.usb.queue =~= flushed.usb.queue + clean_s);
    let two = match d {
        Some(d) => one.clean_qtd(d),
        None => one,
    };
    let clean_d = match d {
        Some(d) => seq![
            Action::CleanInvalidate { addr: (layout.qtd_base + 32 * d) as u32, size: 32 },
        ],
        None => Seq::<Action>::empty(),
    };
    assert(two.usb.queue =~= one.usb.queue + clean_d);
    let three = two.clean_qtd(t);
    let clean_t = seq![
        Action::CleanInvalidate { addr: (layout.qtd_base + 32 * t) as u32, size: 32 },
    ];
    assert(three.usb.queue =~= two.usb.queue + clean_t);
}

/// What starting a control transfer hands to the hardware, in this order: the queue head and the
/// descriptors; the setup packet, the data to send (if any), and the descriptors are written back
/// from the cache; and then the queue head is linked, with cache maintenance of it and of the
/// sentinel before and after, and the async schedule is enabled if it is not.
#[verifier::rlimit(60)]
pub proof fn lemma_control_actions(
    hc: ControllerView,
    address: u8,
    transfer_extras: TransferExtras,
    packet_size: u8,
    setup: SetupPacket,
    setup_addr: u32,
    data_phase: DataPhase,
    s: int,
    d: Option<int>,
    t: int,
)
    requires
        hc.wf(),
        d is Some <==> !(data_phase is NoData),
        lowest_slots(hc.statics.allocated, s, d, t),
    ensures
        ({
            let after = crate::host::transfer::control_running(
                control_ready(hc, address, transfer_extras, packet_size, d is Some),
                setup,
                setup_addr,
                data_phase,
                s,
                d,
                t,
            );
            let qh = after.statics.qh[1];
            let qtd = after.statics.qtd;
            let layout = hc.statics.layout;
            let clean_qh = Action::CleanInvalidate { addr: (layout.qh_base + 64) as u32, size: 64 };
            let clean_sentinel = Action::CleanInvalidate { addr: layout.qh_base, size: 64 };
            after.usb.queue == hc.usb.queue + seq![
                Action::StoreQh {
                    index: 1,
                    qh: QueueHead {
                        horizontal_link: VCell(1),
                        overlay_next: VCell(1),
                        overlay_token: VCell(0x40),
                        attached_qtd: VCell(0),
                        ..qh
                    },
                },
                Action::StoreQtd { index: s as usize, qtd: qtd[s] },
            ] + (match d {
                Some(d) => seq![Action::StoreQtd { index: d as usize, qtd: qtd[d] }],
                None => Seq::empty(),
            }) + seq![
                Action::StoreQtd { index: t as usize, qtd: qtd[t] },
                Action::StoreQh { index: 1, qh: QueueHead { horizontal_link: VCell(1), ..qh } },
                Action::CleanInvalidate { addr: setup_addr, size: 8 },
            ] + (match data_phase {
                DataPhase::Out(buf) => if buf.len > 0 {
                    seq![Action::CleanInvalidate { addr: buf.addr, size: buf.len as u32 }]
                } else {
                    Seq::empty()
                },
                _ => Seq::empty(),
            }) + seq![
                Action::CleanInvalidate { addr: (layout.qtd_base + 32 * s) as u32, size: 32 },
            ] + (match d {
                Some(d) => seq![
                    Action::CleanInvalidate { addr: (layout.qtd_base + 32 * d) as u32, size: 32 },
                ],
                None => Seq::empty(),
            }) + seq![
                Action::CleanInvalidate { addr: (layout.qtd_base + 32 * t) as u32, size: 32 },
            ] + seq![
                clean_qh,
                clean_sentinel,
                Action::StoreWord {
                    addr: (layout.qh_base + 64) as u32,
                    value: hc.statics.qh[0].horizontal_link@,
                },
                Action::StoreWord { addr: layout.qh_base, value: (layout.qh_base + 66) as u32 },
                clean_qh,
                clean_sentinel,
            ] + (if hc.usb.regs.usbcmd & 0x20 != 0 {
                Seq::empty()
            } else {
                seq![Action::ModifyUsb { reg: usb::Reg::Usbcmd, clear: 0, set: 0x20 }]
            })
        }),
{
    lemma_control_ready(hc, address, transfer_extras, packet_size, s, d, t);
    crate::ehci::lemma_codes();
    crate::ehci::qtd::lemma_token_bits();
    let ready = control_ready(hc, address, transfer_extras, packet_size, d is Some);
    let layout = hc.statics.layout;
    let set_up = ready.statics.qh[1];
    let next = match d {
        Some(d) => d,
        None => t,
    };
    let setup_qtd = crate::host::transfer::setup_qtd(setup_addr).followed_by(
        layout.qtd_address(next),
    );
    let data_qtd = crate::host::transfer::data_qtd(setup, data_phase).followed_by(
        layout.qtd_address(t),
    );
    let status_qtd = crate::host::transfer::status_qtd(data_phase);
    let attached = set_up.with_qtd(layout.qtd_address(s));
    lemma_control_chain(
        ready,
        setup_addr,
        data_phase,
        (s, d, t),
        (setup_qtd, data_qtd, status_qtd),
        attached,
    );
    let after = crate::host::transfer::control_running(
        ready,
        setup,
        setup_addr,
        data_phase,
        s,
        d,
        t,
    );
    let cleaned = control_chain(
        ready,
        setup_addr,
        data_phase,
        (s, d, t),
        (setup_qtd, data_qtd, status_qtd),
        attached,
    );
    assert(after == cleaned.start_async(1)) by {
        reveal(control_chain);
    }
    crate::host::effects::lemma_start_async(cleaned, 1);
    crate::host::effects::lemma_link_async_effect(cleaned, 1);
    let store = Action::StoreQh { index: 1, qh: set_up };
    let store_setup = Action::StoreQtd { index: s as usize, qtd: setup_qtd };
    assert(hc.usb.queue.push(store) + seq![store_setup] =~= hc.usb.queue + seq![
        store,
        store_setup,
    ]);
}

/// Setting up the queue head for control transfers: what the endpoint is, and that it is not
/// executed yet. One store of the queue head is queued, and nothing else changes.
pub proof fn lemma_control_endpoint(
    hc: ControllerView,
    address: u8,
    transfer_extras: TransferExtras,
    packet_size: u8,
)
    requires
        hc.wf(),
    ensures
        ({
            let after = crate::host::transfer::control_endpoint(
                hc,
                address,
                transfer_extras,
                packet_size,
            );
            let qh = after.statics.qh[1];
            let code = hc.usb.regs.portsc1 as int / 0x400_0000 % 4;
            let speed: int = if transfer_extras is WithPreamble || code == 1 {
                1
            } else if code == 2 {
                2
            } else {
                0
            };
            &&& address < 0x80 ==> qh.characteristics@ == address + 0x1000 * speed + 0x4000
                + 0x1_0000 * packet_size + (if speed == 2 {
                0int
            } else {
                0x800_0000
            }) + 0xF000_0000
            &&& qh.characteristics@ == qh_characteristics(
                address,
                0,
                speed as u32,
                packet_size as u16,
                true,
                false,
            )
            &&& qh.capabilities@ == 0x4000_0000
            &&& qh.horizontal_link@ == 1
            &&& qh.current_qtd@ == 0
            &&& qh.overlay_next@ == 1
            &&& qh.overlay_alt_next@ == 1
            &&& qh.overlay_token@ == 0x40
            &&& qh.sw_flags@ == 1
            &&& after == (ControllerView {
                statics: StaticsView { qh: hc.statics.qh.update(1, qh), ..hc.statics },
                usb: usb::InstanceView {
                    queue: hc.usb.queue.push(Action::StoreQh { index: 1, qh }),
                    ..hc.usb
                },
                ..hc
            })
        }),
{
    crate::ehci::lemma_codes();
    let speed = crate::host::transfer::endpoint_speed(transfer_extras, hc.pspd());
    if address < 0x80 {
        crate::ehci::qh::lemma_characteristics_sum(
            address,
            0,
            speed,
            packet_size as u16,
            true,
            false,
        );
    }
    crate::ehci::qh::lemma_capabilities_sum(0, 0, 0, 0, 1);
    let endpoint = crate::host::transfer::control_endpoint(
        hc,
        address,
        transfer_extras,
        packet_size,
    );
    crate::ehci::qh::lemma_endpoint(
        hc.statics.qh[1],
        endpoint.statics.qh[1].characteristics@,
        endpoint.statics.qh[1].capabilities@,
    );
}

/// A control transfer for which there are not enough free slots leaves the allocation as it was.
/// With no free slot (`a` and `b` are beyond the pool), nothing is done at all; the descriptors of
/// the slots that there are become blank, that of the second one (`b`) first.
pub proof fn lemma_control_failed(hc: ControllerView, a: int, b: int)
    requires
        hc.wf(),
        0 <= a <= b <= 16,
        a < b || b == 16,
        a < 16 ==> !hc.statics.allocated[a],
        b < 16 ==> !hc.statics.allocated[b],
        forall|j: int| 0 <= j < b && j != a ==> #[trigger] hc.statics.allocated[j],
    ensures
        a == 16 ==> crate::host::transfer::control_failed(hc, 0) == hc,
        a < 16 && b == 16 ==> ({
            let after = crate::host::transfer::control_failed(hc, 1);
            &&& after.statics == (StaticsView {
                qtd: hc.statics.qtd.update(a, after.statics.qtd[a]),
                ..hc.statics
            })
            &&& after.statics.qtd[a].token@ == 0
            &&& after.statics.qtd[a].next@ == 1
            &&& after.usb.regs == hc.usb.regs
            &&& after.usb.queue == hc.usb.queue + seq![
                Action::StoreQtd { index: a as usize, qtd: after.statics.qtd[a] },
            ]
            &&& after == (ControllerView { statics: after.statics, usb: after.usb, ..hc })
        }),
        b < 16 ==> ({
            let after = crate::host::transfer::control_failed(hc, 2);
            &&& after.statics == (StaticsView {
                qtd: hc.statics.qtd.update(a, after.statics.qtd[a]).update(
                    b,
                    after.statics.qtd[b],
                ),
                ..hc.statics
            })
            &&& after.statics.qtd[a].token@ == 0
            &&& after.statics.qtd[a].next@ == 1
            &&& after.statics.qtd[b] == after.statics.qtd[a]
            &&& after.usb.regs == hc.usb.regs
            &&& after.usb.queue == hc.usb.queue + seq![
                Action::StoreQtd { index: b as usize, qtd: after.statics.qtd[b] },
                Action::StoreQtd { index: a as usize, qtd: after.statics.qtd[a] },
            ]
            &&& after == (ControllerView { statics: after.statics, usb: after.usb, ..hc })
        }),
{
    crate::ehci::qtd::lemma_token_bits();
    if a < 16 {
        crate::host::effects::lemma_alloc_free(hc, a);
        let one = hc.alloc_qtd();
        assert(one.free_qtd(a).statics.allocated =~= hc.statics.allocated);
        assert(one.free_qtd(a).usb.queue =~= hc.usb.queue + seq![
            Action::StoreQtd { index: a as usize, qtd: one.free_qtd(a).statics.qtd[a] },
        ]);
        if b < 16 {
            crate::host::effects::lemma_alloc_free(one, b);
            let after = one.alloc_qtd().free_qtd(b).free_qtd(a);
            assert(after.statics.allocated =~= hc.statics.allocated);
            assert(after.statics.qtd =~= hc.statics.qtd.update(a, after.statics.qtd[a]).update(
                b,
                after.statics.qtd[b],
            ));
        }
    }
}

// ---------------------------------------------------------------------------
// Bulk transfers
// ---------------------------------------------------------------------------

/// The packet size and the zero-length packet of a bulk transfer: High Speed endpoints have
/// packets of at least 512 bytes, others have those asked for. A zero-length packet follows only
/// data that is sent, of a length that the receiver does not know, and that fills its last packet.
pub proof fn lemma_bulk_packets(
    speed: u32,
    packet_size: u16,
    is_in: bool,
    transfer_type: TransferType,
    len: usize,
)
    ensures
        ({
            let size = crate::host::bulk::bulk_packet_size(speed, packet_size);
            &&& speed != 2 ==> size == packet_size
            &&& speed == 2 && packet_size >= 512 ==> size == packet_size
            &&& speed == 2 && packet_size < 512 ==> size == 512
        }),
        crate::host::bulk::needs_zlp(is_in, transfer_type, len, packet_size) <==> {
            &&& !is_in
            &&& transfer_type == TransferType::VariableSize
            &&& len > 0
            &&& packet_size > 0
            &&& len as int % packet_size as int == 0
        },
        crate::host::bulk::bulk_pid(true) == 1,
        crate::host::bulk::bulk_pid(false) == 0,
{
}

/// The state in which the qTDs of a bulk transfer are built: its queue head is set up, and its
/// slots are allocated.
pub open spec fn bulk_ready(
    hc: ControllerView,
    q: int,
    address: u8,
    endpoint: u8,
    packet_size: u16,
    with_zlp: bool,
) -> ControllerView {
    let one = crate::host::bulk::bulk_endpoint(
        hc,
        q,
        address,
        endpoint,
        packet_size,
    ).alloc_qtd();
    if with_zlp {
        one.alloc_qtd()
    } else {
        one
    }
}

/// The slots of a bulk transfer: `d` and `z` (if there is a zero-length packet) are the lowest
/// free slots, in this order.
pub open spec fn lowest_bulk_slots(allocated: Seq<bool>, d: int, z: Option<int>) -> bool {
    &&& 0 <= d < 16
    &&& !allocated[d]
    &&& forall|j: int| 0 <= j < d ==> #[trigger] allocated[j]
    &&& z matches Some(z) ==> {
        &&& d < z < 16
        &&& !allocated[z]
        &&& forall|j: int| d < j < z ==> #[trigger] allocated[j]
    }
}

/// Setting up the queue head for a bulk endpoint: what the endpoint is, and that it is not
/// executed yet. One store of the queue head is queued, and nothing else changes.
pub proof fn lemma_bulk_endpoint(
    hc: ControllerView,
    q: int,
    address: u8,
    endpoint: u8,
    packet_size: u16,
)
    requires
        hc.wf(),
        2 <= q <= 4,
    ensures
        ({
            let after = crate::host::bulk::bulk_endpoint(hc, q, address, endpoint, packet_size);
            let qh = after.statics.qh[q];
            let code = hc.usb.regs.portsc1 as int / 0x400_0000 % 4;
            let speed: int = if code == 1 || code == 2 {
                code
            } else {
                0
            };
            let size: int = if code == 2 && packet_size < 512 {
                512
            } else {
                packet_size as int
            };
            &&& address < 0x80 && endpoint < 0x10 && packet_size < 0x800 ==> qh.characteristics@
                == address + 0x100 * endpoint + 0x1000 * speed + 0x1_0000 * size + 0xF000_0000
            &&& qh.characteristics@ == qh_characteristics(
                address,
                endpoint,
                speed as u32,
                size as u16,
                false,
                false,
            )
            &&& qh.capabilities@ == 0x4000_0000
            &&& qh.horizontal_link@ == 1
            &&& qh.current_qtd@ == 0
            &&& qh.overlay_next@ == 1
            &&& qh.overlay_alt_next@ == 1
            &&& qh.overlay_token@ == 0x40
            &&& forall|i: int| 0 <= i < 5 ==> (#[trigger] qh.overlay_buffer[i])@ == 0
            &&& qh.attached_qtd@ == 0
            &&& qh.attached_buffer@ == 0
            &&& qh.sw_flags@ == 1
            &&& qh.sw_pid@ == 0
            &&& qh.sw_interval_ms@ == 0
            &&& qh.pad == hc.statics.qh[q].pad
            &&& after == (ControllerView {
                statics: StaticsView { qh: hc.statics.qh.update(q, qh), ..hc.statics },
                usb: usb::InstanceView {
                    queue: hc.usb.queue.push(Action::StoreQh { index: q as usize, qh }),
                    ..hc.usb
                },
                ..hc
            })
        }),
{
    crate::ehci::lemma_codes();
    let speed = crate::host::transfer::endpoint_speed(TransferExtras::Normal, hc.pspd());
    let size = crate::host::bulk::bulk_packet_size(speed, packet_size);
    if address < 0x80 && endpoint < 0x10 && packet_size < 0x800 {
        crate::ehci::qh::lemma_characteristics_sum(address, endpoint, speed, size, false, false);
    }
    crate::ehci::qh::lemma_capabilities_sum(0, 0, 0, 0, 1);
    let after = crate::host::bulk::bulk_endpoint(hc, q, address, endpoint, packet_size);
    crate::ehci::qh::lemma_endpoint(
        hc.statics.qh[q],
        after.statics.qh[q].characteristics@,
        after.statics.qh[q].capabilities@,
    );
}

proof fn lemma_bulk_ready(
    hc: ControllerView,
    q: int,
    address: u8,
    endpoint: u8,
    packet_size: u16,
    d: int,
    z: Option<int>,
)
    requires
        hc.wf(),
        2 <= q <= 4,
        lowest_bulk_slots(hc.statics.allocated, d, z),
    ensures
        ({
            let set_up = crate::host::bulk::bulk_endpoint(hc, q, address, endpoint, packet_size);
            let a = hc.statics.allocated.update(d, true);
            &&& bulk_ready(hc, q, address, endpoint, packet_size, z is Some) == (ControllerView {
                statics: StaticsView {
                    allocated: match z {
                        Some(z) => a.update(z, true),
                        None => a,
                    },
                    ..set_up.statics
                },
                ..set_up
            })
            &&& set_up == hc.store_qh(q, set_up.statics.qh[q])
            &&& d == crate::host::statics::first_free(hc.statics.allocated)
            &&& z matches Some(z) ==> z == crate::host::statics::first_free(
                set_up.alloc_qtd().statics.allocated,
            )
        }),
{
    let set_up = crate::host::bulk::bulk_endpoint(hc, q, address, endpoint, packet_size);
    crate::host::effects::lemma_alloc_free(set_up, d);
    if z is Some {
        crate::host::effects::lemma_alloc_free(set_up.alloc_qtd(), z.unwrap());
    }
}

/// A bulk transfer is started from that state, with the lowest free slots. There are two of them
/// exactly if a zero-length packet follows: the data is sent, its length is not known to the
/// receiver, and it fills packets of the size that the endpoint has.
pub proof fn lemma_bulk_starts(
    hc: ControllerView,
    q: int,
    address: u8,
    endpoint: u8,
    packet_size: u16,
    data: Buffer,
    is_in: bool,
    transfer_type: TransferType,
    toggle: bool,
    d: int,
    z: Option<int>,
)
    requires
        hc.wf(),
        2 <= q <= 4,
        lowest_bulk_slots(hc.statics.allocated, d, z),
        ({
            let size: int = if hc.usb.regs.portsc1 as int / 0x400_0000 % 4 == 2 && packet_size
                < 512 {
                512
            } else {
                packet_size as int
            };
            z is Some <==> {
                &&& !is_in
                &&& transfer_type == TransferType::VariableSize
                &&& data.len > 0
                &&& size > 0
                &&& data.len as int % size == 0
            }
        }),
    ensures
        crate::host::bulk::bulk_started(
            hc,
            q,
            address,
            endpoint,
            packet_size,
            data,
            is_in,
            transfer_type,
            toggle,
        ) == crate::host::bulk::bulk_running(
            bulk_ready(hc, q, address, endpoint, packet_size, z is Some),
            q,
            is_in,
            data,
            toggle,
            d,
            z,
        ),
{
    crate::ehci::lemma_codes();
    lemma_bulk_ready(hc, q, address, endpoint, packet_size, d, z);
}

/// The bulk transfer that is handed out knows its pipe, its slots, its data, and its direction.
pub proof fn lemma_new_bulk_transfer(
    hc: ControllerView,
    pipe: Pipe<'_>,
    packet_size: u16,
    data: Buffer,
    is_in: bool,
    transfer_type: TransferType,
    d: int,
    z: Option<int>,
)
    requires
        hc.wf(),
        lowest_bulk_slots(hc.statics.allocated, d, z),
        ({
            let size: int = if hc.usb.regs.portsc1 as int / 0x400_0000 % 4 == 2 && packet_size
                < 512 {
                512
            } else {
                packet_size as int
            };
            z is Some <==> {
                &&& !is_in
                &&& transfer_type == TransferType::VariableSize
                &&& data.len > 0
                &&& size > 0
                &&& data.len as int % size == 0
            }
        }),
    ensures
        ({
            let new = crate::host::bulk::new_bulk_transfer(
                hc,
                pipe,
                packet_size,
                data,
                is_in,
                transfer_type,
            );
            &&& new.pipe == pipe
            &&& new.data_slot.index == d
            &&& new.zlp_slot is Some <==> z is Some
            &&& z matches Some(z) ==> new.zlp_slot.unwrap().index == z
            &&& new.data == data
            &&& new.is_in == is_in
            &&& new.stage is Running
        }),
{
    crate::ehci::lemma_codes();
    crate::host::effects::lemma_alloc_free(hc, d);
    if z is Some {
        crate::host::effects::lemma_alloc_free(hc.alloc_qtd(), z.unwrap());
    }
}

/// A bulk transfer for which there are not enough free slots leaves the allocation as it was. With
/// no free slot (`d` is beyond the pool), nothing is done at all; the descriptor of the slot that
/// there is becomes blank.
pub proof fn lemma_bulk_failed(hc: ControllerView, d: int)
    requires
        hc.wf(),
        0 <= d <= 16,
        d < 16 ==> !hc.statics.allocated[d],
        forall|j: int| 0 <= j < d ==> #[trigger] hc.statics.allocated[j],
    ensures
        d == 16 ==> crate::host::bulk::bulk_failed(hc, 0) == hc,
        d < 16 ==> ({
            let after = crate::host::bulk::bulk_failed(hc, 1);
            &&& after.statics == (StaticsView {
                qtd: hc.statics.qtd.update(d, after.statics.qtd[d]),
                ..hc.statics
            })
            &&& after.statics.qtd[d].token@ == 0
            &&& after.statics.qtd[d].next@ == 1
            &&& after.usb.regs == hc.usb.regs
            &&& after.usb.addr == hc.usb.addr
            &&& after.usb.queue == hc.usb.queue + seq![
                Action::StoreQtd { index: d as usize, qtd: after.statics.qtd[d] },
            ]
            &&& after == (ControllerView { statics: after.statics, usb: after.usb, ..hc })
        }),
{
    crate::ehci::qtd::lemma_token_bits();
    if d < 16 {
        crate::host::effects::lemma_alloc_free(hc, d);
        let after = hc.alloc_qtd().free_qtd(d);
        assert(after.statics.allocated =~= hc.statics.allocated);
        assert(after.usb.queue =~= hc.usb.queue + seq![
            Action::StoreQtd { index: d as usize, qtd: after.statics.qtd[d] },
        ]);
    }
}

/// The descriptors of a bulk transfer that was started.
///
/// The first one starts at the first byte of the caller's buffer, carries its length, and has the
/// direction asked for. The second one, if a zero-length packet is sent, carries no bytes in the
/// same direction. Only the last one interrupts, and nothing follows it. They are in the lowest
/// free slots, and no other descriptor or slot changes.
#[verifier::rlimit(40)]
pub proof fn lemma_bulk_descriptors(
    hc: ControllerView,
    q: int,
    address: u8,
    endpoint: u8,
    packet_size: u16,
    is_in: bool,
    data: Buffer,
    toggle: bool,
    d: int,
    z: Option<int>,
)
    requires
        hc.wf(),
        2 <= q <= 4,
        data.wf(),
        lowest_bulk_slots(hc.statics.allocated, d, z),
    ensures
        ({
            let started = crate::host::bulk::bulk_running(
                bulk_ready(hc, q, address, endpoint, packet_size, z is Some),
                q,
                is_in,
                data,
                toggle,
                d,
                z,
            ).statics;
            let pid: int = if is_in {
                0x100
            } else {
                0
            };
            let len = data.len as int;
            &&& started.qtd[d].token@ == 0x80 + pid + 0xC00 + (if z is Some {
                0int
            } else {
                0x8000
            }) + 0x1_0000 * (len % 0x8000) + (if len / 0x8000 % 2 == 1 {
                0x8000_0000int
            } else {
                0
            })
            &&& started.qtd[d].buffer[0]@ == data.addr
            &&& forall|i: int|
                1 <= i < 5 ==> (#[trigger] started.qtd[d].buffer[i])@ == 4096 * (data.addr as int
                    / 4096 + i)
            &&& started.qtd[d].next@ == (match z {
                Some(z) => hc.statics.layout.qtd_base + 32 * z,
                None => 1,
            })
            &&& started.qtd[d].alt_next@ == 1
            &&& z matches Some(z) ==> {
                &&& started.qtd[z].token@ == 0x80 + pid + 0xC00 + 0x8000
                &&& forall|i: int|
                    0 <= i < 5 ==> (#[trigger] started.qtd[z].buffer[i])@ == 4096 * i
                &&& started.qtd[z].next@ == 1
                &&& started.qtd[z].alt_next@ == 1
            }
            &&& started.qtd.len() == 16
            &&& forall|i: int|
                0 <= i < 16 && i != d && z != Some(i) ==> #[trigger] started.qtd[i]
                    == hc.statics.qtd[i]
            &&& started.allocated.len() == 16
            &&& forall|i: int|
                0 <= i < 16 ==> #[trigger] started.allocated[i] == (i == d || z == Some(i)
                    || hc.statics.allocated[i])
        }),
{
    lemma_bulk_ready(hc, q, address, endpoint, packet_size, d, z);
    crate::ehci::lemma_codes();
    crate::ehci::qtd::lemma_token_bits();
    let pid: u32 = if is_in {
        1
    } else {
        0
    };
    crate::ehci::qtd::lemma_token_sum(pid, data.len as u32, false, true);
    crate::ehci::qtd::lemma_token_sum(pid, data.len as u32, false, false);
    crate::ehci::qtd::lemma_token_sum(pid, 0, false, true);
    crate::ehci::qtd::lemma_phase(
        crate::host::bulk::bulk_data_qtd(is_in, data, z is Some).token@,
        data.addr,
    );
    crate::ehci::qtd::lemma_phase(crate::host::bulk::zlp_qtd(is_in).token@, 0);
    crate::host::effects::lemma_addresses(hc.statics.layout, d);
    if z is Some {
        crate::host::effects::lemma_addresses(hc.statics.layout, z.unwrap());
    }
}

/// The queue head of a bulk transfer that was started: it keeps what it was set up with, leads to
/// the first qTD, is not halted, starts with the data toggle asked for, and stands right behind
/// the sentinel in the async schedule, which is enabled. Nothing else changes: no other queue
/// head, frame, receive buffer, or register.
#[verifier::rlimit(40)]
pub proof fn lemma_bulk_queue_head(
    hc: ControllerView,
    q: int,
    address: u8,
    endpoint: u8,
    packet_size: u16,
    is_in: bool,
    data: Buffer,
    toggle: bool,
    d: int,
    z: Option<int>,
)
    requires
        hc.wf(),
        2 <= q <= 4,
        data.wf(),
        lowest_bulk_slots(hc.statics.allocated, d, z),
    ensures
        ({
            let after = crate::host::bulk::bulk_running(
                bulk_ready(hc, q, address, endpoint, packet_size, z is Some),
                q,
                is_in,
                data,
                toggle,
                d,
                z,
            );
            let started = after.statics;
            let layout = hc.statics.layout;
            let set_up = crate::host::bulk::bulk_endpoint(
                hc,
                q,
                address,
                endpoint,
                packet_size,
            ).statics.qh[q];
            let first = (layout.qtd_base + 32 * d) as u32;
            &&& started.qh == hc.statics.qh.update(
                q,
                QueueHead {
                    horizontal_link: hc.statics.qh[0].horizontal_link,
                    overlay_next: VCell(first),
                    overlay_token: VCell(
                        if toggle {
                            0x8000_0000u32
                        } else {
                            0
                        },
                    ),
                    attached_qtd: VCell(first),
                    ..set_up
                },
            ).update(
                0,
                QueueHead {
                    horizontal_link: VCell((layout.qh_base + 64 * q + 2) as u32),
                    ..hc.statics.qh[0]
                },
            )
            &&& started == (StaticsView {
                qh: started.qh,
                qtd: started.qtd,
                allocated: started.allocated,
                ..hc.statics
            })
            &&& after.usb.regs == (usb::RegisterBlock {
                usbcmd: if hc.usb.regs.usbcmd & 0x20 != 0 {
                    hc.usb.regs.usbcmd
                } else {
                    hc.usb.regs.usbcmd | 0x20
                },
                ..hc.usb.regs
            })
            &&& after.usb.addr == hc.usb.addr
            &&& after == (ControllerView { statics: started, usb: after.usb, ..hc })
        }),
{
    lemma_bulk_ready(hc, q, address, endpoint, packet_size, d, z);
    usb::lemma_register_bits();
    crate::ehci::lemma_codes();
    crate::ehci::qh::lemma_toggle_value(0, toggle);
    crate::host::effects::lemma_addresses(hc.statics.layout, d);
    crate::host::effects::lemma_qh_link_sum(hc.statics.layout, q);
}

/// What starting a bulk transfer hands to the hardware, in this order: the queue head and the
/// descriptors; the data to send (if any) and the descriptors are written back from the cache; and
/// then the queue head is linked, with cache maintenance of it and of the sentinel before and
/// after, and the async schedule is enabled if it is not.
#[verifier::rlimit(60)]
#[verifier::spinoff_prover]
pub proof fn lemma_bulk_actions(
    hc: ControllerView,
    q: int,
    address: u8,
    endpoint: u8,
    packet_size: u16,
    is_in: bool,
    data: Buffer,
    toggle: bool,
    d: int,
    z: Option<int>,
)
    requires
        hc.wf(),
        2 <= q <= 4,
        data.wf(),
        lowest_bulk_slots(hc.statics.allocated, d, z),
    ensures
        ({
            let after = crate::host::bulk::bulk_running(
                bulk_ready(hc, q, address, endpoint, packet_size, z is Some),
                q,
                is_in,
                data,
                toggle,
                d,
                z,
            );
            let qh = after.statics.qh[q];
            let qtd = after.statics.qtd;
            let layout = hc.statics.layout;
            let at = (layout.qh_base + 64 * q) as u32;
            let clean_qh = Action::CleanInvalidate { addr: at, size: 64 };
            let clean_sentinel = Action::CleanInvalidate { addr: layout.qh_base, size: 64 };
            after.usb.queue == hc.usb.queue + seq![
                Action::StoreQh {
                    index: q as usize,
                    qh: QueueHead {
                        horizontal_link: VCell(1),
                        overlay_next: VCell(1),
                        overlay_token: VCell(0x40),
                        attached_qtd: VCell(0),
                        ..qh
                    },
                },
                Action::StoreQtd { index: d as usize, qtd: qtd[d] },
            ] + (match z {
                Some(z) => seq![Action::StoreQtd { index: z as usize, qtd: qtd[z] }],
                None => Seq::empty(),
            }) + seq![
                Action::StoreQh {
                    index: q as usize,
                    qh: QueueHead { horizontal_link: VCell(1), ..qh },
                },
            ] + (if !is_in && data.len > 0 {
                seq![Action::CleanInvalidate { addr: data.addr, size: data.len as u32 }]
            } else {
                Seq::empty()
            }) + seq![
                Action::CleanInvalidate { addr: (layout.qtd_base + 32 * d) as u32, size: 32 },
            ] + (match z {
                Some(z) => seq![
                    Action::CleanInvalidate { addr: (layout.qtd_base + 32 * z) as u32, size: 32 },
                ],
                None => Seq::empty(),
            }) + seq![
                clean_qh,
                clean_sentinel,
                Action::StoreWord { addr: at, value: hc.statics.qh[0].horizontal_link@ },
                Action::StoreWord {
                    addr: layout.qh_base,
                    value: (layout.qh_base + 64 * q + 2) as u32,
                },
                clean_qh,
                clean_sentinel,
            ] + (if hc.usb.regs.usbcmd & 0x20 != 0 {
                Seq::empty()
            } else {
                seq![Action::ModifyUsb { reg: usb::Reg::Usbcmd, clear: 0, set: 0x20 }]
            })
        }),
{
    lemma_bulk_ready(hc, q, address, endpoint, packet_size, d, z);
    usb::lemma_register_bits();
    crate::ehci::lemma_codes();
    crate::ehci::qtd::lemma_token_bits();
    crate::ehci::qh::lemma_toggle_value(0, toggle);
    crate::host::effects::lemma_addresses(hc.statics.layout, q);
    let ready = bulk_ready(hc, q, address, endpoint, packet_size, z is Some);
    let layout = hc.statics.layout;
    let set_up = ready.statics.qh[q];
    let plain_qtd = crate::host::bulk::bulk_data_qtd(is_in, data, z is Some);
    let data_qtd = match z {
        Some(z) => plain_qtd.followed_by(layout.qtd_address(z)),
        None => plain_qtd,
    };
    let first = ready.store_qtd(d, data_qtd);
    let head = seq![
        Action::StoreQh { index: q as usize, qh: set_up },
        Action::StoreQtd { index: d as usize, qtd: data_qtd },
    ];
    assert(first.usb.queue =~= hc.usb.queue + head);
    let zlp_qtd = crate::host::bulk::zlp_qtd(is_in);
    let chained = match z {
        Some(z) => first.store_qtd(z, zlp_qtd),
        None => first,
    };
    let zlp_store = match z {
        Some(z) => seq![Action::StoreQtd { index: z as usize, qtd: zlp_qtd }],
        None => Seq::<Action>::empty(),
    };
    assert(chained.usb.queue =~= hc.usb.queue + head + zlp_store);
    let attached_qh = QueueHead {
        overlay_token: VCell(crate::ehci::qh::with_toggle(0, toggle)),
        ..set_up.with_qtd(layout.qtd_address(d))
    };
    let attached = chained.store_qh(q, attached_qh);
    let attach = seq![Action::StoreQh { index: q as usize, qh: attached_qh }];
    assert(attached.usb.queue =~= hc.usb.queue + head + zlp_store + attach);
    let flushed = if is_in {
        attached
    } else {
        attached.clean_buffer(data.addr, data.len)
    };
    let data_clean = if !is_in && data.len > 0 {
        seq![Action::CleanInvalidate { addr: data.addr, size: data.len as u32 }]
    } else {
        Seq::<Action>::empty()
    };
    assert(flushed.usb.queue =~= hc.usb.queue + head + zlp_store + attach + data_clean);
    let one = flushed.clean_qtd(d);
    let clean_d = seq![
        Action::CleanInvalidate { addr: (layout.qtd_base + 32 * d) as u32, size: 32 },
    ];
    assert(one.usb.queue =~= flushed.usb.queue + clean_d);
    let two = match z {
        Some(z) => one.clean_qtd(z),
        None => one,
    };
    let clean_z = match z {
        Some(z) => seq![
            Action::CleanInvalidate { addr: (layout.qtd_base + 32 * z) as u32, size: 32 },
        ],
        None => Seq::<Action>::empty(),
    };
    assert(two.usb.queue =~= flushed.usb.queue + clean_d + clean_z);
    assert(two.wf());
    crate::host::effects::lemma_start_async(two, q);
}

// ---------------------------------------------------------------------------
// Interrupt pipes
// ---------------------------------------------------------------------------

/// The descriptor of an interrupt pipe, when the pipe is set up and each time it is re-armed: it
/// receives (IN) up to the maximum packet size of the endpoint into the pipe's own buffer, is
/// active, interrupts on completion, and leads to no other.
pub proof fn lemma_interrupt_descriptor(
    hc: ControllerView,
    p: ImxrtInterruptPipe<'_>,
    transfer_extras: TransferExtras,
)
    requires
        hc.wf(),
        1 <= p.pipe.which < 4,
        p.qh_index == p.pipe.which + 1,
        p.recv_buf_idx == p.pipe.which - 1,
        p.qtd_slot.index < 16,
    ensures
        ({
            let d = p.qtd_slot.index as int;
            let buffer = hc.statics.recv[p.recv_buf_idx as int].addr;
            let set_up = hc.interrupt_running(
                p.pipe.which as int,
                p.address,
                transfer_extras,
                p.endpoint,
                p.max_packet_size,
            ).statics;
            let rearmed = p.rearmed(hc).statics;
            let n = p.max_packet_size as int;
            let token = 0x80 + 0x100 + 0xC00 + 0x8000 + 0x1_0000 * (n % 0x8000) + (if n >= 0x8000 {
                0x8000_0000int
            } else {
                0
            });
            &&& rearmed.qtd[d].token@ == token
            &&& rearmed.qtd[d].next@ == 1
            &&& rearmed.qtd[d].alt_next@ == 1
            &&& rearmed.qtd[d].buffer[0]@ == buffer
            &&& forall|i: int|
                1 <= i < 5 ==> (#[trigger] rearmed.qtd[d].buffer[i])@ == 4096 * (buffer as int
                    / 4096 + i)
            &&& rearmed.qtd == hc.statics.qtd.update(d, rearmed.qtd[d])
            &&& !hc.statics.allocated[d] && (forall|j: int|
                0 <= j < d ==> #[trigger] hc.statics.allocated[j]) ==> {
                &&& set_up.qtd == rearmed.qtd
                &&& set_up.allocated == hc.statics.allocated.update(d, true)
            }
        }),
{
    crate::ehci::lemma_codes();
    crate::ehci::qtd::lemma_token_sum(1, p.max_packet_size as u32, false, true);
    let buffer = hc.statics.recv[p.recv_buf_idx as int].addr;
    crate::host::effects::lemma_addresses(hc.statics.layout, p.recv_buf_idx as int);
    crate::ehci::qtd::lemma_phase(
        crate::host::interrupt_pipe::receive_qtd(p.max_packet_size, buffer).token@,
        buffer,
    );
    crate::host::effects::lemma_alloc_free(hc, p.qtd_slot.index as int);
}

/// The queue head of an interrupt pipe that was set up.
///
/// It addresses the endpoint with its maximum packet size, at Low Speed for a device behind a Full
/// Speed hub and otherwise at the speed of the port. It is polled in micro-frame 0 of each frame,
/// and has no NAK reload. It leads to its qTD, is not halted, and is first in the periodic
/// schedule in all frames. No other queue head, receive buffer, or register changes.
#[verifier::rlimit(40)]
pub proof fn lemma_interrupt_queue_head(
    hc: ControllerView,
    which: int,
    address: u8,
    transfer_extras: TransferExtras,
    endpoint: u8,
    max_packet_size: u16,
    d: int,
)
    requires
        hc.wf(),
        1 <= which < 4,
        0 <= d < 16,
        !hc.statics.allocated[d],
        forall|j: int| 0 <= j < d ==> #[trigger] hc.statics.allocated[j],
    ensures
        ({
            let after = hc.interrupt_running(
                which,
                address,
                transfer_extras,
                endpoint,
                max_packet_size,
            );
            let started = after.statics;
            let layout = hc.statics.layout;
            let qh = started.qh[which + 1];
            let code = hc.usb.regs.portsc1 as int / 0x400_0000 % 4;
            let speed: int = if transfer_extras is WithPreamble || code == 1 {
                1
            } else if code == 0 {
                0
            } else {
                2
            };
            &&& address < 0x80 && endpoint < 0x10 && max_packet_size < 0x800 ==> qh.characteristics@
                == address + 0x100 * endpoint + 0x1000 * speed + 0x1_0000 * max_packet_size
            &&& qh.characteristics@ == qh_characteristics(
                address,
                endpoint,
                speed as u32,
                max_packet_size,
                false,
                false,
            ) as int % 0x1000_0000
            &&& qh.capabilities@ == 0x4000_0001
            &&& qh.current_qtd@ == 0
            &&& qh.overlay_next@ == layout.qtd_base + 32 * d
            &&& qh.overlay_alt_next@ == 1
            &&& qh.overlay_token@ == 0
            &&& forall|i: int| 0 <= i < 5 ==> (#[trigger] qh.overlay_buffer[i])@ == 0
            &&& qh.attached_qtd@ == layout.qtd_base + 32 * d
            &&& qh.attached_buffer@ == 0
            &&& qh.sw_flags@ == 1
            &&& qh.sw_pid@ == 0
            &&& qh.sw_interval_ms@ == 0
            &&& qh.pad == hc.statics.qh[which + 1].pad
            &&& qh.horizontal_link@ == hc.statics.frames[0]
            &&& started.qh == hc.statics.qh.update(which + 1, qh)
            &&& started.frames.len() == 32
            &&& forall|f: int|
                0 <= f < 32 ==> #[trigger] started.frames[f] == layout.qh_base + 64 * (which + 1)
                    + 2
            &&& started == (StaticsView {
                qh: started.qh,
                qtd: started.qtd,
                frames: started.frames,
                allocated: started.allocated,
                ..hc.statics
            })
            &&& after.usb.regs == hc.usb.regs
            &&& after.usb.addr == hc.usb.addr
            &&& after == (ControllerView { statics: started, usb: after.usb, ..hc })
        }),
{
    crate::ehci::lemma_codes();
    let speed = crate::host::interrupt_pipe::interrupt_speed(transfer_extras, hc.pspd());
    if address < 0x80 && endpoint < 0x10 && max_packet_size < 0x800 {
        crate::ehci::qh::lemma_characteristics_sum(
            address,
            endpoint,
            speed,
            max_packet_size,
            false,
            false,
        );
    }
    crate::ehci::qh::lemma_capabilities_sum(1, 0, 0, 0, 1);
    crate::host::laws::lemma_interrupt_characteristics(address, endpoint, speed, max_packet_size);
    let word = crate::ehci::qh_characteristics(
        address,
        endpoint,
        speed,
        max_packet_size,
        false,
        false,
    ) & !(0xFu32 << 28);
    crate::ehci::qh::lemma_endpoint(hc.statics.qh[which + 1], word, 0x4000_0001);
    crate::host::effects::lemma_alloc_free(hc, d);
    crate::host::effects::lemma_addresses(hc.statics.layout, d);
    crate::host::effects::lemma_qh_link_sum(hc.statics.layout, which + 1);
    let after = hc.interrupt_running(which, address, transfer_extras, endpoint, max_packet_size);
    assert(after.statics.qh =~= hc.statics.qh.update(which + 1, after.statics.qh[which + 1]));
}

/// The interrupt pipe that is handed out knows its pipe slot, and by that its queue head and its
/// receive buffer; its qTD slot is the lowest free one (`d`).
pub proof fn lemma_new_interrupt_pipe(
    hc: ControllerView,
    pipe: Pipe<'_>,
    address: u8,
    endpoint: u8,
    max_packet_size: u16,
    d: int,
)
    requires
        hc.wf(),
        1 <= pipe.which < 4,
        0 <= d < 16,
        !hc.statics.allocated[d],
        forall|j: int| 0 <= j < d ==> #[trigger] hc.statics.allocated[j],
    ensures
        ({
            let new = crate::host::interrupt_pipe::new_interrupt_pipe(
                hc,
                pipe,
                address,
                endpoint,
                max_packet_size,
            );
            &&& new.pipe == pipe
            &&& new.qh_index == pipe.which + 1
            &&& new.recv_buf_idx == pipe.which - 1
            &&& new.qtd_slot.index == d
            &&& new.address == address
            &&& new.endpoint == endpoint
            &&& new.max_packet_size == max_packet_size
        }),
{
    crate::host::effects::lemma_alloc_free(hc, d);
}

/// What setting up an interrupt pipe hands to the hardware, in this order: the descriptor and the
/// queue head; these, the receive buffer, and the frame list are written back from the cache; the
/// queue head is linked; and what changed by that is written back again.
#[verifier::rlimit(40)]
pub proof fn lemma_interrupt_actions(
    hc: ControllerView,
    which: int,
    address: u8,
    transfer_extras: TransferExtras,
    endpoint: u8,
    max_packet_size: u16,
    d: int,
)
    requires
        hc.wf(),
        1 <= which < 4,
        0 <= d < 16,
        !hc.statics.allocated[d],
        forall|j: int| 0 <= j < d ==> #[trigger] hc.statics.allocated[j],
    ensures
        ({
            let after = hc.interrupt_running(
                which,
                address,
                transfer_extras,
                endpoint,
                max_packet_size,
            );
            let layout = hc.statics.layout;
            let q = which + 1;
            let clean_qh = Action::CleanInvalidate {
                addr: (layout.qh_base + 64 * q) as u32,
                size: 64,
            };
            let clean_frames = Action::CleanInvalidate { addr: layout.frame_list, size: 4096 };
            after.usb.queue == hc.usb.queue + seq![
                Action::StoreQtd { index: d as usize, qtd: after.statics.qtd[d] },
                Action::StoreQh {
                    index: q as usize,
                    qh: QueueHead { horizontal_link: VCell(1), ..after.statics.qh[q] },
                },
                Action::CleanInvalidate { addr: (layout.qtd_base + 32 * d) as u32, size: 32 },
            ] + (if max_packet_size > 0 {
                seq![
                    Action::CleanInvalidate {
                        addr: hc.statics.recv[which - 1].addr,
                        size: max_packet_size as u32,
                    },
                ]
            } else {
                Seq::empty()
            }) + seq![
                clean_qh,
                clean_frames,
                Action::StoreWord {
                    addr: (layout.qh_base + 64 * q) as u32,
                    value: hc.statics.frames[0],
                },
            ] + Seq::new(
                32,
                |i: int|
                    Action::StoreWord {
                        addr: (layout.frame_list + 4 * i) as u32,
                        value: (layout.qh_base + 64 * q + 2) as u32,
                    },
            ) + seq![clean_qh, clean_frames]
        }),
{
    crate::ehci::lemma_codes();
    crate::ehci::qtd::lemma_token_bits();
    crate::host::effects::lemma_alloc_free(hc, d);
    crate::host::effects::lemma_addresses(hc.statics.layout, which - 1);
    crate::host::effects::lemma_qh_link_sum(hc.statics.layout, which + 1);
    let after = hc.interrupt_running(which, address, transfer_extras, endpoint, max_packet_size);
    let layout = hc.statics.layout;
    let q = which + 1;
    let stores = Seq::new(
        32,
        |i: int|
            Action::StoreWord {
                addr: (layout.frame_list + 4 * i) as u32,
                value: (layout.qh_base + 64 * q + 2) as u32,
            },
    );
    assert(stores =~= crate::host::schedule::frame_stores(
        layout,
        crate::host::links::qh_link(layout, q),
    ));
    assert(hc.statics.recv[which - 1].addr == layout.recv_address(which - 1));
}

/// Re-arming a pipe makes its queue head lead to its descriptor again, and touches nothing else of
/// the queue head: the data toggle in the overlay stays with the controller. What is handed to the
/// hardware is the descriptor first, and then one word of the queue head.
pub proof fn lemma_rearm_actions(p: ImxrtInterruptPipe<'_>, hc: ControllerView)
    requires
        hc.wf(),
        2 <= p.qh_index <= 4,
        p.qtd_slot.index < 16,
    ensures
        ({
            let after = p.rearmed(hc);
            let q = p.qh_index as int;
            let d = p.qtd_slot.index as int;
            let layout = hc.statics.layout;
            let next = (layout.qtd_base + 32 * d) as u32;
            &&& after.statics == (StaticsView {
                qtd: after.statics.qtd,
                qh: hc.statics.qh.update(
                    q,
                    QueueHead { overlay_next: VCell(next), ..hc.statics.qh[q] },
                ),
                ..hc.statics
            })
            &&& after.usb.queue == hc.usb.queue + seq![
                Action::StoreQtd { index: p.qtd_slot.index, qtd: after.statics.qtd[d] },
                Action::StoreWord { addr: (layout.qh_base + 64 * q + 16) as u32, value: next },
            ]
            &&& after.usb.regs == hc.usb.regs
            &&& after.usb.addr == hc.usb.addr
            &&& after == (ControllerView { statics: after.statics, usb: after.usb, ..hc })
        }),
{
    let after = p.rearmed(hc);
    let q = p.qh_index as int;
    let d = p.qtd_slot.index as int;
    let layout = hc.statics.layout;
    let next = (layout.qtd_base + 32 * d) as u32;
    assert(after.usb.queue =~= hc.usb.queue + seq![
        Action::StoreQtd { index: p.qtd_slot.index, qtd: after.statics.qtd[d] },
        Action::StoreWord { addr: (layout.qh_base + 64 * q + 16) as u32, value: next },
    ]);
}

} // verus!
