//! How transfers end: when they are complete, what they yield, and what they give back.

use crate::action::Action;
use crate::ehci::{QueueHead, TransferDescriptor};
use crate::host::bulk::BulkTransfer;
use crate::host::controller::ControllerView;
use crate::host::futures::TransferComplete;
use crate::host::interrupt_pipe::ImxrtInterruptPipe;
use crate::host::statics::StaticsView;
use crate::host::transfer::{ControlTransfer, Stage};
use crate::host::types::{DataPhase, Poll, UsbError};
use crate::ral::usb;
use crate::vcell::VCell;
use vstd::prelude::*;

verus! {

// ---------------------------------------------------------------------------
// Completion
// ---------------------------------------------------------------------------

/// What error a token stands for. A halted qTD (bit 6) has overflowed if it shows a babble (bit 4)
/// or a buffer error (bit 5), else it shows a protocol error if it shows a transaction error (bit
/// 3), and else it has stalled. One that is not halted has timed out if it missed a micro-frame
/// (bit 2), and else it shows a protocol error. No other bit of the token matters.
pub proof fn lemma_token_error(token: u32)
    ensures
        ({
            let error = crate::host::futures::token_error(token);
            &&& error == UsbError::Overflow <==> token & 0x40 != 0 && (token & 0x10 != 0 || token
                & 0x20 != 0)
            &&& error == UsbError::Stall <==> token & 0x40 != 0 && token & 0x10 == 0 && token & 0x20
                == 0 && token & 0x08 == 0
            &&& error == UsbError::Timeout <==> token & 0x40 == 0 && token & 0x04 != 0
            &&& error == UsbError::ProtocolError <==> (token & 0x40 != 0 && token & 0x10 == 0
                && token & 0x20 == 0 && token & 0x08 != 0) || (token & 0x40 == 0 && token & 0x04
                == 0)
        }),
{
    crate::ehci::qtd::lemma_token_bits();
}

/// When a transfer is complete, and with what result.
///
/// It succeeds exactly if its status qTD is not active (bit 7), and neither that nor the data qTD
/// shows one of the five errors (bits 6:2), whatever else they show. It is pending exactly if its
/// status qTD is active, and neither the queue head's overlay nor the data qTD is halted (bit 6).
/// In all other cases it fails, with the error that is shown by the overlay or else the data qTD
/// while the status qTD is active, and by the status qTD or else the data qTD afterwards.
pub proof fn lemma_outcome(t: TransferComplete, s: StaticsView)
    ensures
        ({
            let outcome = t.outcome(s);
            let status = s.qtd[t.status_qtd_index as int].token@;
            let overlay = s.qh[t.qh_index as int].overlay_token@;
            let has_data = t.data_qtd_index is Some;
            let data = s.qtd[t.data_qtd_index.unwrap() as int].token@;
            &&& outcome == Poll::Ready(Ok::<(), UsbError>(())) <==> {
                &&& status & 0x80 == 0
                &&& status & 0x7C == 0
                &&& has_data ==> data & 0x7C == 0
            }
            &&& outcome is Pending <==> {
                &&& status & 0x80 != 0
                &&& overlay & 0x40 == 0
                &&& has_data ==> data & 0x40 == 0
            }
            &&& status & 0x80 != 0 && overlay & 0x40 != 0 ==> outcome == Poll::Ready(
                Err::<(), UsbError>(crate::host::futures::token_error(overlay)),
            )
            &&& status & 0x80 != 0 && overlay & 0x40 == 0 && has_data && data & 0x40 != 0
                ==> outcome == Poll::Ready(
                Err::<(), UsbError>(crate::host::futures::token_error(data)),
            )
            &&& status & 0x80 == 0 && status & 0x7C != 0 ==> outcome == Poll::Ready(
                Err::<(), UsbError>(crate::host::futures::token_error(status)),
            )
            &&& status & 0x80 == 0 && status & 0x7C == 0 && has_data && data & 0x7C != 0
                ==> outcome == Poll::Ready(
                Err::<(), UsbError>(crate::host::futures::token_error(data)),
            )
        }),
{
    crate::ehci::qtd::lemma_token_bits();
}

/// Which indices a completion may have, and what is written back from the cache before it is
/// looked at: its status qTD, its data qTD (if any), and its queue head, in this order.
pub proof fn lemma_completion_prepared(t: TransferComplete, hc: ControllerView)
    requires
        hc.wf(),
    ensures
        t.wf() <==> {
            &&& t.status_qtd_index < 16
            &&& t.data_qtd_index is Some ==> t.data_qtd_index.unwrap() < 16
            &&& t.qh_index < 5
            &&& t.waker_index < 5
        },
        t.wf() ==> ({
            let layout = hc.statics.layout;
            t.prepared(hc) == (ControllerView {
                usb: usb::InstanceView {
                    queue: hc.usb.queue + seq![
                        Action::CleanInvalidate {
                            addr: (layout.qtd_base + 32 * t.status_qtd_index) as u32,
                            size: 32,
                        },
                    ] + (match t.data_qtd_index {
                        Some(d) => seq![
                            Action::CleanInvalidate {
                                addr: (layout.qtd_base + 32 * d) as u32,
                                size: 32,
                            },
                        ],
                        None => Seq::empty(),
                    }) + seq![
                        Action::CleanInvalidate {
                            addr: (layout.qh_base + 64 * t.qh_index) as u32,
                            size: 64,
                        },
                    ],
                    ..hc.usb
                },
                ..hc
            })
        }),
{
    if t.wf() {
        let layout = hc.statics.layout;
        let one = seq![
            Action::CleanInvalidate {
                addr: (layout.qtd_base + 32 * t.status_qtd_index) as u32,
                size: 32,
            },
        ];
        let two = match t.data_qtd_index {
            Some(d) => seq![
                Action::CleanInvalidate { addr: (layout.qtd_base + 32 * d) as u32, size: 32 },
            ],
            None => Seq::<Action>::empty(),
        };
        let three = seq![
            Action::CleanInvalidate {
                addr: (layout.qh_base + 64 * t.qh_index) as u32,
                size: 64,
            },
        ];
        assert(t.prepared(hc).usb.queue =~= hc.usb.queue + one + two + three);
    }
}

// ---------------------------------------------------------------------------
// Control transfers
// ---------------------------------------------------------------------------

/// What a control transfer waits for: its status qTD, with its data qTD beside it, on the queue
/// head for control transfers; the control pipe's waker tells.
pub proof fn lemma_control_completion(t: ControlTransfer)
    ensures
        t.completion().status_qtd_index == t.status_slot.index,
        t.completion().data_qtd_index is Some <==> t.data_slot is Some,
        t.data_slot is Some ==> t.completion().data_qtd_index.unwrap()
            == t.data_slot.unwrap().index,
        t.completion().qh_index == 1,
        t.completion().waker_index == 0,
{
}

/// What a control transfer that stopped yields: the error it stopped with; or else, for IN, as
/// many bytes as were asked for and not left over by the controller; for OUT, the length of the
/// data; and 0 without a data phase.
pub proof fn lemma_control_result(t: ControlTransfer, s: StaticsView)
    requires
        t.stage is Stopped,
        t.data_phase is In ==> t.data_slot is Some,
    ensures
        match t.stage->Stopped_0 {
            Err(e) => t.result(s) == Err::<usize, UsbError>(e),
            Ok(_) => match t.data_phase {
                DataPhase::In(_) => {
                    let left = s.qtd[t.data_slot.unwrap().index as int].token@ as int / 0x1_0000
                        % 0x8000;
                    left <= t.data_len ==> t.result(s) is Ok && t.result(s)->Ok_0 + left
                        == t.data_len
                },
                DataPhase::Out(buf) => t.result(s) == Ok::<usize, UsbError>(buf.len),
                DataPhase::NoData => t.result(s) == Ok::<usize, UsbError>(0),
            },
        },
{
    if t.data_slot is Some {
        crate::ehci::qtd::lemma_bytes_remaining(
            s.qtd[t.data_slot.unwrap().index as int].token@,
        );
    }
}

/// Which control transfers own their slots, and which can take their next step.
pub proof fn lemma_control_owns(t: ControlTransfer, s: StaticsView)
    ensures
        t.holds(s) <==> {
            &&& t.setup_slot.index < 16 && s.allocated[t.setup_slot.index as int]
            &&& t.status_slot.index < 16 && s.allocated[t.status_slot.index as int]
            &&& t.setup_slot.index != t.status_slot.index
            &&& t.data_phase is NoData ==> t.data_slot is None
            &&& !(t.data_phase is NoData) ==> t.data_slot is Some && t.data_slot.unwrap().index < 16
                && s.allocated[t.data_slot.unwrap().index as int] && t.data_slot.unwrap().index
                != t.setup_slot.index && t.data_slot.unwrap().index != t.status_slot.index
        },
        t.holds(s) ==> (t.steppable(s) <==> {
            &&& t.stage is Running ==> s.running(1)
            &&& t.stage is Stopped && t.stage->Stopped_0 is Ok && t.data_phase is In
                ==> s.qtd[t.data_slot.unwrap().index as int].token@ as int / 0x1_0000 % 0x8000
                <= t.data_len
        }),
        t.steppable(s) ==> t.holds(s),
{
    if t.data_slot is Some {
        crate::ehci::qtd::lemma_bytes_remaining(
            s.qtd[t.data_slot.unwrap().index as int].token@,
        );
    }
}

/// What is written back from the cache before a control transfer hands out its result: after a
/// success, the buffer that was received into (if it has any bytes) and the data qTD; after an
/// error, the setup qTD and the data qTD (if any).
pub proof fn lemma_control_collected(t: ControlTransfer, hc: ControllerView)
    requires
        hc.wf(),
        t.holds(hc.statics),
    ensures
        ({
            let layout = hc.statics.layout;
            let clean_setup = seq![
                Action::CleanInvalidate {
                    addr: (layout.qtd_base + 32 * t.setup_slot.index) as u32,
                    size: 32,
                },
            ];
            let clean_data = match t.data_slot {
                Some(d) => seq![
                    Action::CleanInvalidate {
                        addr: (layout.qtd_base + 32 * d.index) as u32,
                        size: 32,
                    },
                ],
                None => Seq::empty(),
            };
            let cleaned = match t.stage {
                Stage::Stopped(Ok(_)) => match t.data_phase {
                    DataPhase::In(buf) => (if buf.len > 0 {
                        seq![Action::CleanInvalidate { addr: buf.addr, size: buf.len as u32 }]
                    } else {
                        Seq::empty()
                    }) + clean_data,
                    _ => Seq::empty(),
                },
                Stage::Stopped(Err(_)) => clean_setup + clean_data,
                _ => Seq::empty(),
            };
            t.collected(hc) == (ControllerView {
                usb: usb::InstanceView { queue: hc.usb.queue + cleaned, ..hc.usb },
                ..hc
            })
        }),
{
    let queue = hc.usb.queue;
    assert(queue + Seq::<Action>::empty() =~= queue);
    let layout = hc.statics.layout;
    let clean_setup = Action::CleanInvalidate {
        addr: (layout.qtd_base + 32 * t.setup_slot.index) as u32,
        size: 32,
    };
    match t.data_slot {
        Some(d) => {
            let clean_data = Action::CleanInvalidate {
                addr: (layout.qtd_base + 32 * d.index) as u32,
                size: 32,
            };
            assert(queue.push(clean_setup).push(clean_data) =~= queue + (seq![clean_setup] + seq![
                clean_data,
            ]));
            assert(queue.push(clean_data) =~= queue + (Seq::<Action>::empty() + seq![clean_data]));
            match t.data_phase {
                DataPhase::In(buf) => {
                    let clean_buf = Action::CleanInvalidate {
                        addr: buf.addr,
                        size: buf.len as u32,
                    };
                    assert(queue.push(clean_buf).push(clean_data) =~= queue + (seq![clean_buf]
                        + seq![clean_data]));
                },
                _ => {},
            }
        },
        None => {
            assert(queue.push(clean_setup) =~= queue + (seq![clean_setup]
                + Seq::<Action>::empty()));
        },
    }
}

/// What a control transfer gives back when it is done, and when it is given up: its slots are free
/// again and their descriptors blank, the status qTD first and the setup qTD last. One that is done
/// also marks its queue head as unused; one that is given up leaves the queue head as it is.
pub proof fn lemma_control_gives_back(t: ControlTransfer, hc: ControllerView)
    requires
        hc.wf(),
        t.holds(hc.statics),
    ensures
        ({
            let released = t.released(hc);
            let abandoned = t.abandoned(hc);
            let blank = TransferDescriptor::blank();
            let s = t.setup_slot.index;
            let u = t.status_slot.index;
            let cleared = seq![
                Action::StoreByte {
                    addr: (hc.statics.layout.qh_base + 64 + 56) as u32,
                    byte: 0,
                },
            ];
            let freed = seq![Action::StoreQtd { index: u, qtd: blank }] + (match t.data_slot {
                Some(d) => seq![Action::StoreQtd { index: d.index, qtd: blank }],
                None => Seq::empty(),
            }) + seq![Action::StoreQtd { index: s, qtd: blank }];
            &&& released.usb.queue == hc.usb.queue + cleared + freed
            &&& abandoned.usb.queue == hc.usb.queue + freed
            &&& released.usb.regs == hc.usb.regs
            &&& released.usb.addr == hc.usb.addr
            &&& released == (ControllerView {
                usb: released.usb,
                statics: released.statics,
                ..hc
            })
            &&& released.statics == (StaticsView {
                qh: hc.statics.qh.update(1, QueueHead { sw_flags: VCell(0), ..hc.statics.qh[1] }),
                qtd: released.statics.qtd,
                allocated: released.statics.allocated,
                ..hc.statics
            })
            &&& abandoned == (ControllerView {
                usb: usb::InstanceView { queue: abandoned.usb.queue, ..hc.usb },
                statics: StaticsView { qh: hc.statics.qh, ..released.statics },
                ..hc
            })
            &&& released.statics.qtd.len() == 16
            &&& released.statics.allocated.len() == 16
            &&& forall|i: int|
                0 <= i < 16 && i != s && i != u && !(t.data_slot is Some
                    && t.data_slot.unwrap().index == i) ==> #[trigger] released.statics.qtd[i]
                    == hc.statics.qtd[i] && released.statics.allocated[i]
                    == hc.statics.allocated[i]
            &&& released.statics.qtd[s as int] == blank && !released.statics.allocated[s as int]
            &&& released.statics.qtd[u as int] == blank && !released.statics.allocated[u as int]
            &&& t.data_slot is Some ==> released.statics.qtd[t.data_slot.unwrap().index as int]
                == blank && !released.statics.allocated[t.data_slot.unwrap().index as int]
        }),
{
    let blank = TransferDescriptor::blank();
    let s = t.setup_slot.index;
    let u = t.status_slot.index;
    let cleared = seq![
        Action::StoreByte { addr: (hc.statics.layout.qh_base + 64 + 56) as u32, byte: 0 },
    ];
    let freed = seq![Action::StoreQtd { index: u, qtd: blank }] + (match t.data_slot {
        Some(d) => seq![Action::StoreQtd { index: d.index, qtd: blank }],
        None => Seq::empty(),
    }) + seq![Action::StoreQtd { index: s, qtd: blank }];
    assert(t.released(hc).usb.queue =~= hc.usb.queue + cleared + freed);
    assert(t.abandoned(hc).usb.queue =~= hc.usb.queue + freed);
    assert(t.abandoned(hc).statics =~= StaticsView {
        qh: hc.statics.qh,
        ..t.released(hc).statics
    });
}

// ---------------------------------------------------------------------------
// Bulk transfers
// ---------------------------------------------------------------------------

/// What a bulk transfer waits for: its last qTD, with the data qTD beside it if that is another
/// one, on the queue head of its pipe; the waker of its pipe tells.
pub proof fn lemma_bulk_completion(t: BulkTransfer<'_>)
    ensures
        t.qh() == t.pipe.which + 1,
        t.zlp_slot is Some ==> t.completion().status_qtd_index == t.zlp_slot.unwrap().index
            && t.completion().data_qtd_index == Some(t.data_slot.index),
        t.zlp_slot is None ==> t.completion().status_qtd_index == t.data_slot.index
            && t.completion().data_qtd_index is None,
        t.completion().qh_index == t.pipe.which + 1,
        t.completion().waker_index == t.pipe.which,
{
}

/// What a bulk transfer yields that completed without an error: for IN, the bytes that the
/// controller did not leave over; for OUT, the length of the data.
pub proof fn lemma_bulk_bytes(t: BulkTransfer<'_>, s: StaticsView)
    ensures
        ({
            let left = s.qtd[t.data_slot.index as int].token@ as int / 0x1_0000 % 0x8000;
            &&& !t.is_in ==> t.bytes(s) == t.data.len
            &&& t.is_in && left <= t.data.len ==> t.bytes(s) + left == t.data.len
            &&& t.is_in && left > t.data.len ==> t.bytes(s) == 0
        }),
{
    crate::ehci::qtd::lemma_bytes_remaining(s.qtd[t.data_slot.index as int].token@);
}

/// Which bulk transfers own their pipe and slots, and which can take their next step.
pub proof fn lemma_bulk_owns(t: BulkTransfer<'_>, s: StaticsView)
    ensures
        t.holds(s) <==> {
            &&& 1 <= t.pipe.which <= 3
            &&& t.data_slot.index < 16 && s.allocated[t.data_slot.index as int]
            &&& t.zlp_slot is Some ==> t.zlp_slot.unwrap().index < 16
                && s.allocated[t.zlp_slot.unwrap().index as int] && t.zlp_slot.unwrap().index
                != t.data_slot.index
        },
        t.steppable(s) <==> t.holds(s) && (t.stage is Running ==> s.running(t.pipe.which + 1)),
{
}

/// What is done before the result of a bulk IN transfer is looked at: the lines of the buffer (if
/// it has any bytes) are discarded from the cache, without writing them back over what was
/// received, and the data qTD is written back. For OUT, there is nothing to do.
pub proof fn lemma_bulk_collected(t: BulkTransfer<'_>, hc: ControllerView)
    requires
        hc.wf(),
        t.holds(hc.statics),
    ensures
        !t.is_in ==> t.collected(hc) == hc,
        t.is_in ==> t.collected(hc) == (ControllerView {
            usb: usb::InstanceView {
                queue: hc.usb.queue + (if t.data.len > 0 {
                    seq![Action::Invalidate { addr: t.data.addr, size: t.data.len as u32 }]
                } else {
                    Seq::empty()
                }) + seq![
                    Action::CleanInvalidate {
                        addr: (hc.statics.layout.qtd_base + 32 * t.data_slot.index) as u32,
                        size: 32,
                    },
                ],
                ..hc.usb
            },
            ..hc
        }),
{
    let queue = hc.usb.queue;
    let discard = seq![Action::Invalidate { addr: t.data.addr, size: t.data.len as u32 }];
    let clean = Action::CleanInvalidate {
        addr: (hc.statics.layout.qtd_base + 32 * t.data_slot.index) as u32,
        size: 32,
    };
    assert(queue.push(discard[0]).push(clean) =~= queue + discard + seq![clean]);
    assert(queue.push(clean) =~= queue + Seq::<Action>::empty() + seq![clean]);
}

/// What a bulk transfer gives back when it is done, and when it is given up: its slots are free
/// again and their descriptors blank, that of the zero-length packet (if any) first. One that is
/// done also marks its queue head as unused; one that is given up leaves the queue head as it is.
pub proof fn lemma_bulk_gives_back(t: BulkTransfer<'_>, hc: ControllerView)
    requires
        hc.wf(),
        t.holds(hc.statics),
    ensures
        ({
            let released = t.released(hc);
            let abandoned = t.abandoned(hc);
            let blank = TransferDescriptor::blank();
            let q = t.pipe.which + 1;
            let d = t.data_slot.index;
            let cleared = seq![
                Action::StoreByte {
                    addr: (hc.statics.layout.qh_base + 64 * q + 56) as u32,
                    byte: 0,
                },
            ];
            let freed = (match t.zlp_slot {
                Some(z) => seq![Action::StoreQtd { index: z.index, qtd: blank }],
                None => Seq::empty(),
            }) + seq![Action::StoreQtd { index: d, qtd: blank }];
            &&& released.usb.queue == hc.usb.queue + cleared + freed
            &&& abandoned.usb.queue == hc.usb.queue + freed
            &&& released.usb.regs == hc.usb.regs
            &&& released.usb.addr == hc.usb.addr
            &&& released == (ControllerView {
                usb: released.usb,
                statics: released.statics,
                ..hc
            })
            &&& released.statics == (StaticsView {
                qh: hc.statics.qh.update(q, QueueHead { sw_flags: VCell(0), ..hc.statics.qh[q] }),
                qtd: released.statics.qtd,
                allocated: released.statics.allocated,
                ..hc.statics
            })
            &&& abandoned == (ControllerView {
                usb: usb::InstanceView { queue: abandoned.usb.queue, ..hc.usb },
                statics: StaticsView { qh: hc.statics.qh, ..released.statics },
                ..hc
            })
            &&& released.statics.qtd.len() == 16
            &&& released.statics.allocated.len() == 16
            &&& forall|i: int|
                0 <= i < 16 && i != d && !(t.zlp_slot is Some && t.zlp_slot.unwrap().index == i)
                    ==> #[trigger] released.statics.qtd[i] == hc.statics.qtd[i]
                    && released.statics.allocated[i] == hc.statics.allocated[i]
            &&& released.statics.qtd[d as int] == blank && !released.statics.allocated[d as int]
            &&& t.zlp_slot is Some ==> released.statics.qtd[t.zlp_slot.unwrap().index as int]
                == blank && !released.statics.allocated[t.zlp_slot.unwrap().index as int]
        }),
{
    let blank = TransferDescriptor::blank();
    let q = t.pipe.which + 1;
    let d = t.data_slot.index;
    let cleared = seq![
        Action::StoreByte { addr: (hc.statics.layout.qh_base + 64 * q + 56) as u32, byte: 0 },
    ];
    let freed = (match t.zlp_slot {
        Some(z) => seq![Action::StoreQtd { index: z.index, qtd: blank }],
        None => Seq::empty(),
    }) + seq![Action::StoreQtd { index: d, qtd: blank }];
    assert(t.released(hc).usb.queue =~= hc.usb.queue + cleared + freed);
    assert(t.abandoned(hc).usb.queue =~= hc.usb.queue + freed);
    assert(t.abandoned(hc).statics =~= StaticsView {
        qh: hc.statics.qh,
        ..t.released(hc).statics
    });
}

// ---------------------------------------------------------------------------
// Interrupt pipes
// ---------------------------------------------------------------------------

/// How many bytes an interrupt packet has: the maximum packet size less what the controller left
/// over, but not less than none and not more than the 64 bytes of the buffer.
pub proof fn lemma_interrupt_packet(p: ImxrtInterruptPipe<'_>, token: u32)
    ensures
        ({
            let left = token as int / 0x1_0000 % 0x8000;
            let size = p.packet_size(token);
            &&& left >= p.max_packet_size ==> size == 0
            &&& left < p.max_packet_size <= left + 64 ==> size + left == p.max_packet_size
            &&& p.max_packet_size > left + 64 ==> size == 64
        }),
{
    crate::ehci::qtd::lemma_bytes_remaining(token);
}

/// What is in an interrupt packet: byte for byte what the controller wrote to the receive buffer of
/// the pipe, as far as the packet goes, and zeros behind it.
pub proof fn lemma_interrupt_received(p: ImxrtInterruptPipe<'_>, s: StaticsView, i: int)
    requires
        0 <= i < 64,
    ensures
        ({
            let left = s.qtd[p.qtd_slot.index as int].token@ as int / 0x1_0000 % 0x8000;
            &&& p.received(s).len() == 64
            &&& i + left < p.max_packet_size ==> p.received(s)[i]
                == s.recv[p.recv_buf_idx as int].data[i]
            &&& i + left >= p.max_packet_size ==> p.received(s)[i] == 0
        }),
{
    crate::ehci::qtd::lemma_bytes_remaining(s.qtd[p.qtd_slot.index as int].token@);
}

/// Which interrupt pipes own what they use: their queue head and receive buffer are those of their
/// pipe slot, and their qTD slot is allocated.
pub proof fn lemma_interrupt_owns(p: ImxrtInterruptPipe<'_>, s: StaticsView)
    ensures
        p.holds(s) <==> {
            &&& 1 <= p.pipe.which <= 3
            &&& p.qh_index == p.pipe.which + 1
            &&& p.recv_buf_idx + 1 == p.pipe.which
            &&& p.qtd_slot.index < 16 && s.allocated[p.qtd_slot.index as int]
        },
{
}

} // verus!
