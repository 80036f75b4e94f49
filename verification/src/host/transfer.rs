//! What all transfers have in common, and control transfers.
//!
//! Contains the methods that build qTD chains, link QHs to the async schedule, and
//! see the transfers through to completion.
//!
//! A transfer that was started is driven by its `step` method. Before each step, the hardware
//! layer registers the waker that the transfer names, carries out what `prepare` queues, and
//! loads the images; after it, it carries out what the step queued.

use crate::action::Action;
use crate::ehci::{
    qh_capabilities, qh_characteristics, qtd_token, QueueHead, TransferDescriptor, PID_IN, PID_OUT,
    PID_SETUP, SPEED_FULL, SPEED_HIGH, SPEED_LOW,
};
use crate::host::controller::{ControllerView, ImxrtHostController, TRANSFER_INTERRUPTS};
use crate::host::futures::{AsyncAdvanceWait, TransferComplete};
use crate::host::schedule::QtdSlot;
use crate::host::statics::StaticsView;
use crate::host::types::{
    Buffer, DataPhase, Poll, SetupPacket, Step, TransferExtras, UsbError, WakerId,
};
use crate::host::{NUM_QTD, QH_POOL_LEN};
use crate::ral::usb;
use crate::vcell::VCell;
use vstd::prelude::*;

verus! {

/// Pool index of the queue head that is reserved for control transfers.
pub const CONTROL_QH: usize = 1;

/// How far a transfer has come; `R` is its result so far.
#[derive(Debug, PartialEq, Eq)]
pub enum Stage<R> {
    /// The controller is executing the transfer.
    Running,
    /// The QH is unlinked, but the controller may still access it.
    Stopping(R),
    /// The controller does not access the QH any more.
    Stopped(R),
}

// ---------------------------------------------------------------------------
// Endpoint speed
// ---------------------------------------------------------------------------

/// The endpoint speed for control and bulk transfers.
///
/// `WithPreamble` indicates a Low Speed device behind a Full Speed hub: the port speed is that
/// of the root port, not that of the target device.
pub open spec fn endpoint_speed(transfer_extras: TransferExtras, pspd: u32) -> u32 {
    if transfer_extras is WithPreamble || pspd == 1 {
        SPEED_LOW
    } else if pspd == 2 {
        SPEED_HIGH
    } else {
        SPEED_FULL
    }
}

impl ControllerView {
    /// The port speed code.
    pub open spec fn pspd(self) -> u32 {
        crate::host::controller::port_speed_code(self.usb.reg(usb::Reg::Portsc1))
    }

    /// After clearing the software flags of a queue head.
    pub open spec fn clear_flags(self, i: int) -> Self {
        self.with_statics(
            self.statics.with_qh(i, QueueHead { sw_flags: VCell(0), ..self.statics.qh[i] }),
        ).push(
            Action::StoreByte {
                addr: (self.statics.layout.qh_address(i) + QueueHead::SW_FLAGS_OFFSET) as u32,
                byte: 0,
            },
        )
    }
}

impl StaticsView {
    /// Whether the queue head `q` is in use by a transfer: it is in the async schedule.
    pub open spec fn running(self, q: int) -> bool {
        &&& self.schedules_wf()
        &&& self.async_ring().contains(q)
    }
}

impl<'p> ImxrtHostController<'p> {
    /// The endpoint speed for control and bulk transfers.
    pub(crate) fn transfer_speed(&self, transfer_extras: TransferExtras) -> (speed: u32)
        ensures
            speed == endpoint_speed(transfer_extras, self@.pspd()),
    {
        match transfer_extras {
            TransferExtras::WithPreamble => SPEED_LOW,
            TransferExtras::Normal => match self.port_speed() {
                0 => SPEED_FULL,
                1 => SPEED_LOW,
                2 => SPEED_HIGH,
                _ => SPEED_FULL,
            },
        }
    }

    /// Store the image of a queue head.
    pub(crate) fn store_qh(&mut self, index: usize, qh: QueueHead)
        requires
            old(self).wf(),
            index < QH_POOL_LEN,
        ensures
            final(self).wf(),
            final(self)@ == old(self)@.store_qh(index as int, qh),
    {
        self.statics.qh_pool[index] = qh;
        self.usb.push(Action::StoreQh { index, qh });
    }

    /// Store the image of a transfer descriptor.
    pub(crate) fn store_qtd(&mut self, index: usize, qtd: TransferDescriptor)
        requires
            old(self).wf(),
            index < NUM_QTD,
        ensures
            final(self).wf(),
            final(self)@ == old(self)@.store_qtd(index as int, qtd),
    {
        self.statics.qtd_pool[index] = qtd;
        self.usb.push(Action::StoreQtd { index, qtd });
    }

    /// Clear the software flags of a queue head that is not used any more.
    pub(crate) fn clear_flags(&mut self, index: usize)
        requires
            old(self).wf(),
            index < QH_POOL_LEN,
        ensures
            final(self).wf(),
            final(self)@ == old(self)@.clear_flags(index as int),
    {
        let addr: u32 = self.statics.qh_ptr(index);
        self.statics.qh_pool[index].sw_flags.write(0);
        self.usb.push(Action::StoreByte { addr: addr + QueueHead::SW_FLAGS_OFFSET, byte: 0 });
        assert(self@ == old(self)@.clear_flags(index as int));
    }
}

// ---------------------------------------------------------------------------
// Control transfers
// ---------------------------------------------------------------------------

/// A control transfer in progress.
#[derive(Debug, PartialEq, Eq)]
pub struct ControlTransfer {
    /// Slot of the setup qTD.
    pub setup_slot: QtdSlot,
    /// Slot of the data qTD, if there is a data phase.
    pub data_slot: Option<QtdSlot>,
    /// Slot of the status qTD.
    pub status_slot: QtdSlot,
    /// The data phase.
    pub data_phase: DataPhase,
    /// Number of bytes asked for in the data phase.
    pub data_len: usize,
    /// How far the transfer has come.
    pub stage: Stage<Result<(), UsbError>>,
}

/// The number of bytes of the data phase.
///
/// For IN transfers, it is capped to `wLength` from the setup packet (unless that is 0): the
/// buffer may be larger, and the device stalls when more is asked of it.
pub open spec fn control_data_len(setup: SetupPacket, data_phase: DataPhase) -> usize {
    match data_phase {
        DataPhase::In(buf) => if 0 < setup.wLength < buf.len {
            setup.wLength as usize
        } else {
            buf.len
        },
        DataPhase::Out(buf) => buf.len,
        DataPhase::NoData => 0,
    }
}

/// The number of qTDs of a control transfer: setup, data (if any), status.
pub open spec fn control_qtds(data_phase: DataPhase) -> nat {
    if data_phase is NoData {
        2
    } else {
        3
    }
}

/// The setup qTD: 8 bytes from the setup packet at `setup_addr`, as DATA0.
pub open spec fn setup_qtd(setup_addr: u32) -> TransferDescriptor {
    TransferDescriptor::phase(qtd_token(PID_SETUP, 8, false, false), setup_addr)
}

/// The data qTD: the bytes of the data phase, starting with DATA1.
pub open spec fn data_qtd(setup: SetupPacket, data_phase: DataPhase) -> TransferDescriptor {
    let len = control_data_len(setup, data_phase) as u32;
    match data_phase {
        DataPhase::In(buf) => TransferDescriptor::phase(
            qtd_token(PID_IN, len, true, false),
            buf.addr,
        ),
        DataPhase::Out(buf) => TransferDescriptor::phase(
            qtd_token(PID_OUT, len, true, false),
            buf.addr,
        ),
        DataPhase::NoData => TransferDescriptor::blank(),
    }
}

/// The status qTD: no bytes, as DATA1, in the direction opposite to that of the data (IN if
/// there is no data), with an interrupt on completion.
pub open spec fn status_qtd(data_phase: DataPhase) -> TransferDescriptor {
    let pid = if data_phase is In {
        PID_OUT
    } else {
        PID_IN
    };
    TransferDescriptor::phase(qtd_token(pid, 0, true, true), 0)
}

/// After setting up the queue head for control transfers, linked to nothing.
pub open spec fn control_endpoint(
    hc: ControllerView,
    address: u8,
    transfer_extras: TransferExtras,
    packet_size: u8,
) -> ControllerView {
    let characteristics = qh_characteristics(
        address,
        0,
        endpoint_speed(transfer_extras, hc.pspd()),
        packet_size as u16,
        true,
        false,
    );
    hc.store_qh(
        CONTROL_QH as int,
        hc.statics.qh[CONTROL_QH as int].as_endpoint(
            characteristics,
            qh_capabilities(0, 0, 0, 0, 1),
        ),
    )
}

/// After building the qTD chain in the slots `s`, `d` (if there is a data phase), and `t`,
/// attaching it to the queue head, cache maintenance, and linking the queue head to the async
/// schedule.
pub open spec fn control_running(
    hc: ControllerView,
    setup: SetupPacket,
    setup_addr: u32,
    data_phase: DataPhase,
    s: int,
    d: Option<int>,
    t: int,
) -> ControllerView {
    let layout = hc.statics.layout;
    let chained = match d {
        Some(d) => hc.store_qtd(
            s,
            setup_qtd(setup_addr).followed_by(layout.qtd_address(d)),
        ).store_qtd(d, data_qtd(setup, data_phase).followed_by(layout.qtd_address(t))),
        None => hc.store_qtd(s, setup_qtd(setup_addr).followed_by(layout.qtd_address(t))),
    };
    let attached = chained.store_qtd(t, status_qtd(data_phase)).store_qh(
        CONTROL_QH as int,
        hc.statics.qh[CONTROL_QH as int].with_qtd(layout.qtd_address(s)),
    ).clean_buffer(setup_addr, 8);
    let flushed = match data_phase {
        DataPhase::Out(buf) => attached.clean_buffer(buf.addr, buf.len),
        _ => attached,
    }.clean_qtd(s);
    let cleaned = match d {
        Some(d) => flushed.clean_qtd(d),
        None => flushed,
    }.clean_qtd(t);
    cleaned.start_async(CONTROL_QH as int)
}

impl ControlTransfer {
    /// The slots of the transfer are distinct slots that are allocated; there is a data slot
    /// exactly if there is a data phase.
    pub open spec fn holds(self, s: StaticsView) -> bool {
        &&& self.setup_slot.index < NUM_QTD
        &&& self.status_slot.index < NUM_QTD
        &&& self.setup_slot.index != self.status_slot.index
        &&& s.allocated[self.setup_slot.index as int]
        &&& s.allocated[self.status_slot.index as int]
        &&& self.data_slot is Some <==> !(self.data_phase is NoData)
        &&& self.data_slot matches Some(d) ==> {
            &&& d.index < NUM_QTD
            &&& d.index != self.setup_slot.index
            &&& d.index != self.status_slot.index
            &&& s.allocated[d.index as int]
        }
    }

    /// What the transfer waits for while it is running.
    pub open spec fn completion(self) -> TransferComplete {
        TransferComplete {
            status_qtd_index: self.status_slot.index,
            data_qtd_index: match self.data_slot {
                Some(d) => Some(d.index),
                None => None,
            },
            qh_index: CONTROL_QH,
            waker_index: 0,
        }
    }

    /// The number of bytes that the controller left untransferred in the data phase.
    pub open spec fn remaining(self, s: StaticsView) -> u32 {
        match self.data_slot {
            Some(d) => crate::ehci::qtd_token_bytes_remaining(s.qtd[d.index as int].token@),
            None => 0,
        }
    }

    /// The result of the transfer, once the controller is done with it: the number of bytes
    /// received (IN) or sent (OUT), or the error.
    pub open spec fn result(self, s: StaticsView) -> Result<usize, UsbError> {
        match self.stage {
            Stage::Stopped(Err(e)) => Err(e),
            _ => match self.data_phase {
                DataPhase::In(_) => Ok((self.data_len - self.remaining(s)) as usize),
                DataPhase::Out(buf) => Ok(buf.len),
                DataPhase::NoData => Ok(0),
            },
        }
    }

    /// After the cache maintenance that precedes the last step.
    pub open spec fn collected(self, hc: ControllerView) -> ControllerView {
        match self.stage {
            Stage::Stopped(Ok(_)) => match (self.data_phase, self.data_slot) {
                (DataPhase::In(buf), Some(d)) => hc.clean_buffer(buf.addr, buf.len).clean_qtd(
                    d.index as int,
                ),
                _ => hc,
            },
            Stage::Stopped(Err(_)) => {
                let setup = hc.clean_qtd(self.setup_slot.index as int);
                match self.data_slot {
                    Some(d) => setup.clean_qtd(d.index as int),
                    None => setup,
                }
            },
            _ => hc,
        }
    }

    /// After giving back the queue head and the slots.
    pub open spec fn released(self, hc: ControllerView) -> ControllerView {
        let status = hc.clear_flags(CONTROL_QH as int).free_qtd(self.status_slot.index as int);
        match self.data_slot {
            Some(d) => status.free_qtd(d.index as int),
            None => status,
        }.free_qtd(self.setup_slot.index as int)
    }

    /// After giving up the transfer: the slots are given back.
    pub open spec fn abandoned(self, hc: ControllerView) -> ControllerView {
        let status = hc.free_qtd(self.status_slot.index as int);
        match self.data_slot {
            Some(d) => status.free_qtd(d.index as int),
            None => status,
        }.free_qtd(self.setup_slot.index as int)
    }

    /// Whether the transfer can take its next step.
    pub open spec fn steppable(self, s: StaticsView) -> bool {
        &&& self.holds(s)
        &&& self.stage is Running ==> s.running(CONTROL_QH as int)
        &&& self.stage is Stopped && self.stage->Stopped_0 is Ok && self.data_phase is In
            ==> self.remaining(s) <= self.data_len
    }

    /// What comes of the transfer's next step, and the controller after it.
    pub open spec fn stepped(self, hc: ControllerView) -> (
        Step<Self, Result<usize, UsbError>>,
        ControllerView,
    ) {
        match self.stage {
            Stage::Running => match self.completion().outcome(hc.statics) {
                Poll::Pending => (
                    Step::Wait(self),
                    hc.set_bits(usb::Reg::Usbintr, TRANSFER_INTERRUPTS),
                ),
                Poll::Ready(r) => (
                    Step::Again(ControlTransfer { stage: Stage::Stopping(r), ..self }),
                    hc.stop_async(CONTROL_QH as int),
                ),
            },
            Stage::Stopping(r) => {
                let (poll, after) = AsyncAdvanceWait::polled(hc);
                if poll is Ready {
                    (Step::Again(ControlTransfer { stage: Stage::Stopped(r), ..self }), after)
                } else {
                    (Step::Wait(self), after)
                }
            },
            Stage::Stopped(_) => (Step::Done(self.result(hc.statics)), self.released(hc)),
        }
    }

    /// Whether the transfer owns its slots.
    pub fn is_held(&self, hc: &ImxrtHostController<'_>) -> (held: bool)
        requires
            hc.wf(),
        ensures
            held == self.holds(hc@.statics),
    {
        let s: usize = self.setup_slot.index();
        let t: usize = self.status_slot.index();
        if s >= NUM_QTD || t >= NUM_QTD || s == t || !hc.statics.qtd_allocated[s]
            || !hc.statics.qtd_allocated[t] {
            return false;
        }
        match (&self.data_slot, &self.data_phase) {
            (None, DataPhase::NoData) => true,
            (None, _) => false,
            (Some(_), DataPhase::NoData) => false,
            (Some(slot), _) => {
                let d: usize = slot.index();
                d < NUM_QTD && d != s && d != t && hc.statics.qtd_allocated[d]
            },
        }
    }

    /// Whether the transfer can take its next step: it owns its slots, its queue head is in the
    /// async schedule if it is running, and the controller left no more bytes than it was asked
    /// to transfer.
    pub fn can_step(&self, hc: &ImxrtHostController<'_>) -> (ok: bool)
        requires
            hc.wf(),
        ensures
            ok == self.steppable(hc@.statics),
    {
        if !self.is_held(hc) {
            return false;
        }
        match &self.stage {
            Stage::Running => hc.statics.is_running(CONTROL_QH),
            Stage::Stopped(Ok(_)) => match (&self.data_phase, &self.data_slot) {
                (DataPhase::In(_), Some(slot)) => hc.statics.qtd_pool[slot.index()].bytes_remaining()
                    as usize <= self.data_len,
                _ => true,
            },
            _ => true,
        }
    }

    /// The waker to register before the next step.
    pub fn waker(&self) -> (waker: WakerId)
        ensures
            waker == (match self.stage {
                Stage::Stopping(_) => WakerId::AsyncAdvance,
                _ => WakerId::Pipe(0),
            }),
    {
        match self.stage {
            Stage::Stopping(_) => WakerId::AsyncAdvance,
            _ => WakerId::Pipe(0),
        }
    }

    fn transfer_complete(&self) -> (completion: TransferComplete)
        ensures
            completion == self.completion(),
    {
        TransferComplete {
            status_qtd_index: self.status_slot.index(),
            data_qtd_index: match &self.data_slot {
                Some(d) => Some(d.index()),
                None => None,
            },
            qh_index: CONTROL_QH,
            waker_index: 0,
        }
    }

    /// Queue the cache maintenance that must precede loading the images for `step`.
    pub fn prepare(&self, hc: &mut ImxrtHostController<'_>)
        requires
            old(hc).wf(),
            self.holds(old(hc)@.statics),
        ensures
            final(hc).wf(),
            final(hc)@ == (match self.stage {
                Stage::Running => self.completion().prepared(old(hc)@),
                _ => self.collected(old(hc)@),
            }),
    {
        match &self.stage {
            Stage::Running => {
                self.transfer_complete().prepare(hc);
            },
            Stage::Stopping(_) => {},
            Stage::Stopped(Ok(_)) => {
                if let (DataPhase::In(buf), Some(d)) = (&self.data_phase, &self.data_slot) {
                    // Invalidate cache for the IN data buffer, and to read the updated token
                    hc.cache_clean_buffer(buf.addr, buf.len);
                    hc.cache_clean_qtd(d.index());
                }
            },
            Stage::Stopped(Err(_)) => {
                hc.cache_clean_qtd(self.setup_slot.index());
                if let Some(d) = &self.data_slot {
                    hc.cache_clean_qtd(d.index());
                }
            },
        }
    }

    /// Take the transfer one step further.
    ///
    /// - While it is running: once it is complete, the QH is unlinked from the async schedule.
    /// - While it is stopping: once the controller acknowledges that it does not access the QH
    ///   any more, the transfer is stopped.
    /// - Once it is stopped: all resources are freed, and the result is handed out.
    ///
    /// The controller cannot leave more bytes than it was asked to transfer.
    pub fn step(self, hc: &mut ImxrtHostController<'_>) -> (step: Step<
        Self,
        Result<usize, UsbError>,
    >)
        requires
            old(hc).wf(),
            self.steppable(old(hc)@.statics),
        ensures
            final(hc).wf(),
            (step, final(hc)@) == self.stepped(old(hc)@),
            match self.stage {
                Stage::Running => match self.completion().outcome(old(hc)@.statics) {
                    Poll::Pending => {
                        &&& step == Step::<Self, Result<usize, UsbError>>::Wait(self)
                        &&& final(hc)@ == old(hc)@.set_bits(
                            usb::Reg::Usbintr,
                            TRANSFER_INTERRUPTS,
                        )
                    },
                    Poll::Ready(r) => {
                        &&& step == Step::<Self, Result<usize, UsbError>>::Again(
                            ControlTransfer { stage: Stage::Stopping(r), ..self },
                        )
                        &&& final(hc)@ == old(hc)@.stop_async(CONTROL_QH as int)
                        &&& final(hc)@.statics.schedules_wf()
                        &&& !final(hc)@.statics.scheduled(CONTROL_QH as int)
                    },
                },
                Stage::Stopping(r) => if old(hc)@.usb.reg(usb::Reg::Usbsts) & usb::USBSTS_AAI
                    != 0 {
                    &&& step == Step::<Self, Result<usize, UsbError>>::Again(
                        ControlTransfer { stage: Stage::Stopped(r), ..self },
                    )
                    &&& final(hc)@ == old(hc)@.write(usb::Reg::Usbsts, usb::USBSTS_AAI)
                } else {
                    &&& step == Step::<Self, Result<usize, UsbError>>::Wait(self)
                    &&& final(hc)@ == old(hc)@.set_bits(usb::Reg::Usbintr, usb::USBINTR_AAE)
                },
                Stage::Stopped(_) => {
                    &&& step == Step::<Self, Result<usize, UsbError>>::Done(
                        self.result(old(hc)@.statics),
                    )
                    &&& final(hc)@ == self.released(old(hc)@)
                },
            },
            old(hc)@.statics.schedules_wf() && !(self.stage is Running) ==> {
                &&& final(hc)@.statics.schedules_wf()
                &&& final(hc)@.statics.async_ring() == old(hc)@.statics.async_ring()
                &&& final(hc)@.statics.periodic_chain() == old(hc)@.statics.periodic_chain()
            },
    {
        match self.stage {
            Stage::Running => {
                match self.transfer_complete().poll(hc) {
                    Poll::Pending => Step::Wait(self),
                    Poll::Ready(r) => {
                        hc.unlink_and_stop_async(CONTROL_QH);
                        Step::Again(ControlTransfer { stage: Stage::Stopping(r), ..self })
                    },
                }
            },
            Stage::Stopping(r) => {
                match AsyncAdvanceWait.poll(hc) {
                    Poll::Pending => Step::Wait(
                        ControlTransfer { stage: Stage::Stopping(r), ..self },
                    ),
                    Poll::Ready(_) => Step::Again(
                        ControlTransfer { stage: Stage::Stopped(r), ..self },
                    ),
                }
            },
            Stage::Stopped(r) => {
                let result = match r {
                    Ok(_) => match &self.data_phase {
                        DataPhase::In(_) => {
                            let remaining: usize = match &self.data_slot {
                                Some(d) => hc.statics.qtd_pool[d.index()].bytes_remaining()
                                    as usize,
                                None => 0,
                            };
                            Ok(self.data_len - remaining)
                        },
                        DataPhase::Out(buf) => Ok(buf.len),
                        DataPhase::NoData => Ok(0),
                    },
                    Err(e) => Err(e),
                };
                hc.clear_flags(CONTROL_QH);
                hc.free_qtd(self.status_slot);
                if let Some(d) = self.data_slot {
                    hc.free_qtd(d);
                }
                hc.free_qtd(self.setup_slot);
                proof {
                    if old(hc)@.statics.schedules_wf() {
                        crate::host::links::lemma_schedules_frame(old(hc)@.statics, hc@.statics);
                    }
                }
                Step::Done(result)
            },
        }
    }

    /// Give up a transfer that is not done: all slots are freed.
    ///
    /// The QH is left as it is. While it is in the async schedule it must not be set up for
    /// another transfer.
    pub fn abandon(self, hc: &mut ImxrtHostController<'_>)
        requires
            old(hc).wf(),
            self.holds(old(hc)@.statics),
        ensures
            final(hc).wf(),
            final(hc)@ == self.abandoned(old(hc)@),
            crate::host::statics::free_count(final(hc)@.statics.allocated)
                == crate::host::statics::free_count(old(hc)@.statics.allocated) + control_qtds(
                self.data_phase,
            ),
            old(hc)@.statics.schedules_wf() ==> {
                &&& final(hc)@.statics.schedules_wf()
                &&& final(hc)@.statics.async_ring() == old(hc)@.statics.async_ring()
                &&& final(hc)@.statics.periodic_chain() == old(hc)@.statics.periodic_chain()
            },
    {
        proof {
            let a = hc@.statics.allocated;
            let b = a.update(self.status_slot.index as int, false);
            crate::host::statics::lemma_free_count_update(a, self.status_slot.index as int);
            match &self.data_slot {
                Some(d) => {
                    let c = b.update(d.index as int, false);
                    crate::host::statics::lemma_free_count_update(b, d.index as int);
                    crate::host::statics::lemma_free_count_update(c, self.setup_slot.index as int);
                },
                None => {
                    crate::host::statics::lemma_free_count_update(b, self.setup_slot.index as int);
                },
            }
        }
        hc.free_qtd(self.status_slot);
        if let Some(d) = self.data_slot {
            hc.free_qtd(d);
        }
        hc.free_qtd(self.setup_slot);
        proof {
            if old(hc)@.statics.schedules_wf() {
                crate::host::links::lemma_schedules_frame(old(hc)@.statics, hc@.statics);
            }
        }
    }
}

/// After starting a control transfer for which there are enough free slots.
pub open spec fn control_started(
    hc: ControllerView,
    address: u8,
    transfer_extras: TransferExtras,
    packet_size: u8,
    setup: SetupPacket,
    setup_addr: u32,
    data_phase: DataPhase,
) -> ControllerView {
    let one = control_endpoint(hc, address, transfer_extras, packet_size).alloc_qtd();
    let s = crate::host::statics::first_free(hc.statics.allocated);
    let second = crate::host::statics::first_free(one.statics.allocated);
    let two = one.alloc_qtd();
    if data_phase is NoData {
        control_running(two, setup, setup_addr, data_phase, s, None, second)
    } else {
        control_running(
            two.alloc_qtd(),
            setup,
            setup_addr,
            data_phase,
            s,
            Some(second),
            crate::host::statics::first_free(two.statics.allocated),
        )
    }
}

/// The control transfer that is started, with the lowest free slots.
pub open spec fn new_control_transfer(
    hc: ControllerView,
    setup: SetupPacket,
    data_phase: DataPhase,
) -> ControlTransfer {
    let one = hc.alloc_qtd();
    let two = one.alloc_qtd();
    let second = QtdSlot {
        index: crate::host::statics::first_free(one.statics.allocated) as usize,
    };
    let third = QtdSlot {
        index: crate::host::statics::first_free(two.statics.allocated) as usize,
    };
    ControlTransfer {
        setup_slot: QtdSlot {
            index: crate::host::statics::first_free(hc.statics.allocated) as usize,
        },
        data_slot: if data_phase is NoData {
            None
        } else {
            Some(second)
        },
        status_slot: if data_phase is NoData {
            second
        } else {
            third
        },
        data_phase,
        data_len: control_data_len(setup, data_phase),
        stage: Stage::Running,
    }
}

/// After a control transfer could not be started with `free` free slots: those that were taken
/// are freed again, the last one first.
pub open spec fn control_failed(endpoint: ControllerView, free: nat) -> ControllerView {
    let first = crate::host::statics::first_free(endpoint.statics.allocated);
    let one = endpoint.alloc_qtd();
    let second = crate::host::statics::first_free(one.statics.allocated);
    if free == 0 {
        endpoint
    } else if free == 1 {
        one.free_qtd(first)
    } else {
        one.alloc_qtd().free_qtd(second).free_qtd(first)
    }
}

impl<'p> ImxrtHostController<'p> {
    /// Start an EHCI control transfer using a qTD chain.
    ///
    /// Builds 2-3 qTDs (setup + optional data + status), configures the QH for control
    /// transfers, and links it to the async schedule. `setup_addr` is the address of the setup
    /// packet in DMA-accessible memory.
    ///
    /// Fails if there are not enough free qTDs; all that were taken are freed again.
    pub fn start_control_transfer(
        &mut self,
        address: u8,
        transfer_extras: TransferExtras,
        packet_size: u8,
        setup: &SetupPacket,
        setup_addr: u32,
        data_phase: DataPhase,
    ) -> (result: Result<ControlTransfer, UsbError>)
        requires
            old(self).wf(),
            (Buffer { addr: setup_addr, len: 8 }).wf(),
            data_phase matches DataPhase::In(buf) ==> buf.wf(),
            data_phase matches DataPhase::Out(buf) ==> buf.wf(),
        ensures
            final(self).wf(),
            result is Ok <==> crate::host::statics::free_count(old(self)@.statics.allocated)
                >= control_qtds(data_phase),
            result matches Ok(t) ==> t == new_control_transfer(old(self)@, *setup, data_phase),
            result is Ok ==> final(self)@ == control_started(
                old(self)@,
                address,
                transfer_extras,
                packet_size,
                *setup,
                setup_addr,
                data_phase,
            ),
            ({
                let endpoint = control_endpoint(
                    old(self)@,
                    address,
                    transfer_extras,
                    packet_size,
                );
                match result {
                    Ok(t) => {
                        let s = t.setup_slot.index as int;
                        let status = t.status_slot.index as int;
                        &&& t.stage is Running
                        &&& t.data_phase == data_phase
                        &&& t.data_len == control_data_len(*setup, data_phase)
                        &&& t.holds(final(self)@.statics)
                        &&& s == crate::host::statics::first_free(old(self)@.statics.allocated)
                        &&& match t.data_slot {
                            Some(d) => {
                                let d = d.index as int;
                                let two = endpoint.alloc_qtd().alloc_qtd();
                                &&& d == crate::host::statics::first_free(
                                    endpoint.alloc_qtd().statics.allocated,
                                )
                                &&& status == crate::host::statics::first_free(
                                    two.statics.allocated,
                                )
                                &&& final(self)@ == control_running(
                                    two.alloc_qtd(),
                                    *setup,
                                    setup_addr,
                                    data_phase,
                                    s,
                                    Some(d),
                                    status,
                                )
                            },
                            None => {
                                let one = endpoint.alloc_qtd();
                                &&& status == crate::host::statics::first_free(
                                    one.statics.allocated,
                                )
                                &&& final(self)@ == control_running(
                                    one.alloc_qtd(),
                                    *setup,
                                    setup_addr,
                                    data_phase,
                                    s,
                                    None,
                                    status,
                                )
                            },
                        }
                        &&& crate::host::statics::free_count(final(self)@.statics.allocated)
                            + control_qtds(data_phase) == crate::host::statics::free_count(
                            old(self)@.statics.allocated,
                        )
                        &&& old(self)@.statics.schedules_wf() && !old(self)@.statics.scheduled(
                            CONTROL_QH as int,
                        ) ==> {
                            &&& final(self)@.statics.running(CONTROL_QH as int)
                            &&& final(self)@.statics.async_ring() == seq![CONTROL_QH as int]
                                + old(self)@.statics.async_ring()
                            &&& final(self)@.statics.periodic_chain()
                                == old(self)@.statics.periodic_chain()
                        }
                    },
                    Err(e) => {
                        &&& e == UsbError::AllPipesInUse
                        &&& final(self)@ == control_failed(
                            endpoint,
                            crate::host::statics::free_count(old(self)@.statics.allocated),
                        )
                        &&& final(self)@.statics.allocated == old(self)@.statics.allocated
                    },
                }
            }),
    {
        let ghost allocated = self@.statics.allocated;
        proof {
            crate::host::statics::lemma_take_free(allocated);
            crate::host::statics::lemma_take_free(crate::host::statics::take_free(allocated));
            crate::host::statics::lemma_take_free(
                crate::host::statics::take_free(crate::host::statics::take_free(allocated)),
            );
        }
        let speed: u32 = self.transfer_speed(transfer_extras);
        let characteristics: u32 = qh_characteristics(
            address,
            0,
            speed,
            packet_size as u16,
            true,
            false,
        );
        // For WithPreamble (LS behind FS hub), the NXP EHCI embedded TT
        // handles the FS/LS conversion at the root port. No explicit
        // hub_addr/hub_port is needed when the hub is at Full Speed on
        // the root port (PFSC=1 mode).
        let capabilities: u32 = qh_capabilities(0, 0, 0, 0, 1);
        let mut qh = self.statics.qh_pool[CONTROL_QH];
        qh.init_endpoint(characteristics, capabilities);
        self.store_qh(CONTROL_QH, qh);
        assert(self@ == control_endpoint(old(self)@, address, transfer_extras, packet_size));

        // ---- Allocate the qTDs: setup, data (optional), status ----
        let setup_slot = match self.alloc_qtd() {
            Some(slot) => slot,
            None => {
                return Err(UsbError::AllPipesInUse);
            },
        };
        let data_slot = match data_phase {
            DataPhase::NoData => None,
            _ => {
                match self.alloc_qtd() {
                    Some(slot) => Some(slot),
                    None => {
                        self.free_qtd(setup_slot);
                        assert(self@.statics.allocated =~= allocated);
                        return Err(UsbError::AllPipesInUse);
                    },
                }
            },
        };
        let status_slot = match self.alloc_qtd() {
            Some(slot) => slot,
            None => {
                if let Some(slot) = data_slot {
                    self.free_qtd(slot);
                }
                self.free_qtd(setup_slot);
                assert(self@.statics.allocated =~= allocated);
                return Err(UsbError::AllPipesInUse);
            },
        };

        // ---- Build the qTD chain ----
        let data_len: usize = match &data_phase {
            DataPhase::In(buf) => {
                // Cap transfer size to wLength to avoid requesting more data
                // than the device will send.
                let wlength: usize = setup.wLength as usize;
                if wlength > 0 && wlength < buf.len {
                    wlength
                } else {
                    buf.len
                }
            },
            DataPhase::Out(buf) => buf.len,
            DataPhase::NoData => 0,
        };
        let setup_addr_next: u32 = match &data_slot {
            Some(slot) => self.statics.qtd_ptr(slot.index()),
            None => self.statics.qtd_ptr(status_slot.index()),
        };
        let mut qtd = TransferDescriptor::new();
        qtd.init(qtd_token(PID_SETUP, 8, false, false), setup_addr, 8);
        qtd.next.write(setup_addr_next);
        self.store_qtd(setup_slot.index(), qtd);
        if let Some(slot) = &data_slot {
            let (pid, addr): (u32, u32) = match &data_phase {
                DataPhase::In(buf) => (PID_IN, buf.addr),
                DataPhase::Out(buf) => (PID_OUT, buf.addr),
                DataPhase::NoData => (PID_OUT, 0),
            };
            qtd.init(qtd_token(pid, data_len as u32, true, false), addr, data_len as u32);
            qtd.next.write(self.statics.qtd_ptr(status_slot.index()));
            self.store_qtd(slot.index(), qtd);
        }
        let status_pid: u32 = match &data_phase {
            DataPhase::In(_) => PID_OUT,
            _ => PID_IN,
        };
        qtd.init(qtd_token(status_pid, 0, true, true), 0, 0);
        self.store_qtd(status_slot.index(), qtd);

        // Attach the first qTD to the QH
        let mut qh = self.statics.qh_pool[CONTROL_QH];
        qh.attach_qtd(self.statics.qtd_ptr(setup_slot.index()));
        self.store_qh(CONTROL_QH, qh);

        // ---- Cache maintenance before DMA ----
        self.cache_clean_buffer(setup_addr, 8);
        if let DataPhase::Out(buf) = &data_phase {
            self.cache_clean_buffer(buf.addr, buf.len);
        }
        self.cache_clean_qtd(setup_slot.index());
        if let Some(slot) = &data_slot {
            self.cache_clean_qtd(slot.index());
        }
        self.cache_clean_qtd(status_slot.index());
        proof {
            let s = old(self)@.statics;
            if s.schedules_wf() && !s.scheduled(CONTROL_QH as int) {
                crate::host::links::lemma_schedules_frame(s, self@.statics);
            }
        }

        // ---- Link QH to async schedule, clean, and enable ----
        self.link_and_start_async(CONTROL_QH);
        proof {
            let ring = seq![CONTROL_QH as int] + old(self)@.statics.async_ring();
            assert(ring[0] == CONTROL_QH);
        }
        Ok(ControlTransfer {
            setup_slot,
            data_slot,
            status_slot,
            data_phase,
            data_len,
            stage: Stage::Running,
        })
    }
}

} // verus!
