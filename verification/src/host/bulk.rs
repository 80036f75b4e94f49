//! Bulk transfers.

use crate::action::Action;
use crate::ehci::{
    qh_capabilities, qh_characteristics, qtd_token, qtd_token_bytes_remaining, QueueHead,
    TransferDescriptor, PID_IN, PID_OUT, SPEED_HIGH,
};
use crate::host::controller::{ControllerView, ImxrtHostController, TRANSFER_INTERRUPTS};
use crate::host::futures::{AsyncAdvanceWait, TransferComplete};
use crate::host::interrupt_pipe::Pipe;
use crate::host::schedule::QtdSlot;
use crate::host::statics::StaticsView;
use crate::host::transfer::Stage;
use crate::host::types::{
    Buffer, Poll, Step, TransferExtras, TransferType, UsbError, WakerId,
};
use crate::host::{NUM_QH, NUM_QTD};
use crate::ral::usb;
use crate::vcell::VCell;
use vstd::prelude::*;

verus! {

/// A bulk transfer in progress.
pub struct BulkTransfer<'p> {
    /// The pipe that the transfer uses.
    pub pipe: Pipe<'p>,
    /// Slot of the data qTD.
    pub data_slot: QtdSlot,
    /// Slot of the qTD for a zero-length packet, if one is sent.
    pub zlp_slot: Option<QtdSlot>,
    /// The data.
    pub data: Buffer,
    /// Whether data is received (IN) or sent (OUT).
    pub is_in: bool,
    /// How far the transfer has come.
    pub stage: Stage<Result<usize, UsbError>>,
}

/// The packet size for a bulk endpoint.
///
/// `cotton-usb-host` asks for 64 bytes throughout; for High Speed bulk endpoints, USB 2.0
/// section 5.8.3 allows 512 only.
pub open spec fn bulk_packet_size(speed: u32, packet_size: u16) -> u16 {
    if speed == SPEED_HIGH && packet_size < 512 {
        512
    } else {
        packet_size
    }
}

/// Whether a zero-length packet must follow the data.
///
/// Per USB 2.0 section 5.8: a VariableSize OUT transfer that fills an exact number
/// of packets must append a zero-length packet to signal end-of-transfer.
pub open spec fn needs_zlp(
    is_in: bool,
    transfer_type: TransferType,
    len: usize,
    packet_size: u16,
) -> bool {
    &&& !is_in
    &&& transfer_type is VariableSize
    &&& len > 0
    &&& packet_size > 0
    &&& len as int % packet_size as int == 0
}

/// The PID code of a bulk transfer.
pub open spec fn bulk_pid(is_in: bool) -> u32 {
    if is_in {
        PID_IN
    } else {
        PID_OUT
    }
}

/// The data qTD of a bulk transfer; it interrupts on completion if no zero-length packet
/// follows it.
pub open spec fn bulk_data_qtd(is_in: bool, data: Buffer, zlp: bool) -> TransferDescriptor {
    TransferDescriptor::phase(
        qtd_token(bulk_pid(is_in), data.len as u32, false, !zlp),
        data.addr,
    )
}

/// The qTD of a zero-length packet.
pub open spec fn zlp_qtd(is_in: bool) -> TransferDescriptor {
    TransferDescriptor::phase(qtd_token(bulk_pid(is_in), 0, false, true), 0)
}

/// After setting up the queue head `q` for a bulk endpoint, linked to nothing.
pub open spec fn bulk_endpoint(
    hc: ControllerView,
    q: int,
    address: u8,
    endpoint: u8,
    packet_size: u16,
) -> ControllerView {
    let speed = crate::host::transfer::endpoint_speed(TransferExtras::Normal, hc.pspd());
    hc.store_qh(
        q,
        hc.statics.qh[q].as_endpoint(
            qh_characteristics(
                address,
                endpoint,
                speed,
                bulk_packet_size(speed, packet_size),
                false,
                false,
            ),
            qh_capabilities(0, 0, 0, 0, 1),
        ),
    )
}

/// After building the qTD chain in the slots `d` and `z` (if there is a zero-length packet),
/// attaching it to the queue head `q` with the data toggle `toggle`, cache maintenance, and
/// linking the queue head to the async schedule.
pub open spec fn bulk_running(
    hc: ControllerView,
    q: int,
    is_in: bool,
    data: Buffer,
    toggle: bool,
    d: int,
    z: Option<int>,
) -> ControllerView {
    let layout = hc.statics.layout;
    let chained = match z {
        Some(z) => hc.store_qtd(
            d,
            bulk_data_qtd(is_in, data, true).followed_by(layout.qtd_address(z)),
        ).store_qtd(z, zlp_qtd(is_in)),
        None => hc.store_qtd(d, bulk_data_qtd(is_in, data, false)),
    };
    let attached = chained.store_qh(
        q,
        QueueHead {
            overlay_token: VCell(crate::ehci::qh::with_toggle(0, toggle)),
            ..hc.statics.qh[q].with_qtd(layout.qtd_address(d))
        },
    );
    let flushed = if is_in {
        attached
    } else {
        attached.clean_buffer(data.addr, data.len)
    }.clean_qtd(d);
    match z {
        Some(z) => flushed.clean_qtd(z),
        None => flushed,
    }.start_async(q)
}

/// After starting a bulk transfer for which there are enough free slots.
pub open spec fn bulk_started(
    hc: ControllerView,
    q: int,
    address: u8,
    endpoint: u8,
    packet_size: u16,
    data: Buffer,
    is_in: bool,
    transfer_type: TransferType,
    toggle: bool,
) -> ControllerView {
    let speed = crate::host::transfer::endpoint_speed(TransferExtras::Normal, hc.pspd());
    let one = bulk_endpoint(hc, q, address, endpoint, packet_size).alloc_qtd();
    let d = crate::host::statics::first_free(hc.statics.allocated);
    if needs_zlp(is_in, transfer_type, data.len, bulk_packet_size(speed, packet_size)) {
        let z = crate::host::statics::first_free(one.statics.allocated);
        bulk_running(one.alloc_qtd(), q, is_in, data, toggle, d, Some(z))
    } else {
        bulk_running(one, q, is_in, data, toggle, d, None)
    }
}

/// The bulk transfer that is started, with the lowest free slots.
pub open spec fn new_bulk_transfer<'p>(
    hc: ControllerView,
    pipe: Pipe<'p>,
    packet_size: u16,
    data: Buffer,
    is_in: bool,
    transfer_type: TransferType,
) -> BulkTransfer<'p> {
    let speed = crate::host::transfer::endpoint_speed(TransferExtras::Normal, hc.pspd());
    let one = hc.alloc_qtd();
    let zlp = needs_zlp(is_in, transfer_type, data.len, bulk_packet_size(speed, packet_size));
    BulkTransfer {
        pipe,
        data_slot: QtdSlot {
            index: crate::host::statics::first_free(hc.statics.allocated) as usize,
        },
        zlp_slot: if zlp {
            Some(
                QtdSlot {
                    index: crate::host::statics::first_free(one.statics.allocated) as usize,
                },
            )
        } else {
            None
        },
        data,
        is_in,
        stage: Stage::Running,
    }
}

/// After a bulk transfer could not be started with `free` free slots: the one that was taken is
/// freed again.
pub open spec fn bulk_failed(endpoint: ControllerView, free: nat) -> ControllerView {
    if free == 0 {
        endpoint
    } else {
        endpoint.alloc_qtd().free_qtd(
            crate::host::statics::first_free(endpoint.statics.allocated),
        )
    }
}

impl<'p> BulkTransfer<'p> {
    /// Pool index of the queue head of the transfer.
    pub open spec fn qh(self) -> int {
        self.pipe.which + 1
    }

    /// The transfer has a bulk pipe, and its slots are distinct slots that are allocated.
    pub open spec fn holds(self, s: StaticsView) -> bool {
        &&& 1 <= self.pipe.which < NUM_QH
        &&& self.data_slot.index < NUM_QTD
        &&& s.allocated[self.data_slot.index as int]
        &&& self.zlp_slot matches Some(z) ==> {
            &&& z.index < NUM_QTD
            &&& z.index != self.data_slot.index
            &&& s.allocated[z.index as int]
        }
    }

    /// What the transfer waits for while it is running: its last qTD.
    pub open spec fn completion(self) -> TransferComplete {
        TransferComplete {
            status_qtd_index: match self.zlp_slot {
                Some(z) => z.index,
                None => self.data_slot.index,
            },
            data_qtd_index: match self.zlp_slot {
                Some(_) => Some(self.data_slot.index),
                None => None,
            },
            qh_index: self.qh() as usize,
            waker_index: self.pipe.which as usize,
        }
    }

    /// The number of bytes received or sent by a transfer that completed without an error.
    pub open spec fn bytes(self, s: StaticsView) -> usize {
        let remaining = qtd_token_bytes_remaining(s.qtd[self.data_slot.index as int].token@);
        if !self.is_in {
            self.data.len
        } else if remaining <= self.data.len {
            (self.data.len - remaining) as usize
        } else {
            0
        }
    }

    /// After collecting the data of an IN transfer that completed without an error.
    pub open spec fn collected(self, hc: ControllerView) -> ControllerView {
        if !self.is_in {
            hc
        } else if self.data.len > 0 {
            hc.push(
                Action::Invalidate { addr: self.data.addr, size: self.data.len as u32 },
            ).clean_qtd(self.data_slot.index as int)
        } else {
            hc.clean_qtd(self.data_slot.index as int)
        }
    }

    /// After giving back the queue head and the slots.
    pub open spec fn released(self, hc: ControllerView) -> ControllerView {
        let cleared = hc.clear_flags(self.qh());
        match self.zlp_slot {
            Some(z) => cleared.free_qtd(z.index as int),
            None => cleared,
        }.free_qtd(self.data_slot.index as int)
    }

    /// After giving up the transfer: the slots are given back.
    pub open spec fn abandoned(self, hc: ControllerView) -> ControllerView {
        match self.zlp_slot {
            Some(z) => hc.free_qtd(z.index as int),
            None => hc,
        }.free_qtd(self.data_slot.index as int)
    }

    /// Whether the transfer can take its next step.
    pub open spec fn steppable(self, s: StaticsView) -> bool {
        &&& self.holds(s)
        &&& self.stage is Running ==> s.running(self.qh())
    }

    /// What comes of the transfer's next step, and the controller after it.
    pub open spec fn stepped(self, hc: ControllerView) -> (
        Step<Self, (Result<usize, UsbError>, bool)>,
        ControllerView,
    ) {
        match self.stage {
            Stage::Running => match self.completion().outcome(hc.statics) {
                Poll::Pending => (
                    Step::Wait(self),
                    hc.set_bits(usb::Reg::Usbintr, TRANSFER_INTERRUPTS),
                ),
                Poll::Ready(Ok(_)) => (
                    Step::Again(
                        BulkTransfer { stage: Stage::Stopping(Ok(self.bytes(hc.statics))), ..self },
                    ),
                    self.collected(hc).stop_async(self.qh()),
                ),
                Poll::Ready(Err(e)) => (
                    Step::Again(BulkTransfer { stage: Stage::Stopping(Err(e)), ..self }),
                    hc.stop_async(self.qh()),
                ),
            },
            Stage::Stopping(r) => {
                let (poll, after) = AsyncAdvanceWait::polled(hc);
                if poll is Ready {
                    (Step::Again(BulkTransfer { stage: Stage::Stopped(r), ..self }), after)
                } else {
                    (Step::Wait(self), after)
                }
            },
            Stage::Stopped(r) => (
                Step::Done((r, hc.statics.qh[self.qh()].overlay_token@ & (1u32 << 31) != 0)),
                self.released(hc),
            ),
        }
    }

    /// Whether the transfer has a bulk pipe and owns its slots.
    pub fn is_held(&self, hc: &ImxrtHostController<'_>) -> (held: bool)
        requires
            hc.wf(),
        ensures
            held == self.holds(hc@.statics),
    {
        let d: usize = self.data_slot.index();
        if self.pipe.which() < 1 || self.pipe.which() as usize >= NUM_QH || d >= NUM_QTD
            || !hc.statics.qtd_allocated[d] {
            return false;
        }
        match &self.zlp_slot {
            Some(slot) => {
                let z: usize = slot.index();
                z < NUM_QTD && z != d && hc.statics.qtd_allocated[z]
            },
            None => true,
        }
    }

    /// Whether the transfer can take its next step: it owns its slots, and its queue head is in
    /// the async schedule if it is running.
    pub fn can_step(&self, hc: &ImxrtHostController<'_>) -> (ok: bool)
        requires
            hc.wf(),
        ensures
            ok == self.steppable(hc@.statics),
    {
        if !self.is_held(hc) {
            return false;
        }
        match &self.stage {
            Stage::Running => hc.statics.is_running(self.pipe.which() as usize + 1),
            _ => true,
        }
    }

    /// The waker to register before the next step.
    pub fn waker(&self) -> (waker: WakerId)
        ensures
            waker == (match self.stage {
                Stage::Stopping(_) => WakerId::AsyncAdvance,
                _ => WakerId::Pipe(self.pipe.which as usize),
            }),
    {
        match self.stage {
            Stage::Stopping(_) => WakerId::AsyncAdvance,
            _ => WakerId::Pipe(self.pipe.which() as usize),
        }
    }

    fn transfer_complete(&self) -> (completion: TransferComplete)
        requires
            self.pipe.which < NUM_QH,
        ensures
            completion == self.completion(),
    {
        TransferComplete {
            status_qtd_index: match &self.zlp_slot {
                Some(zlp) => zlp.index(),
                None => self.data_slot.index(),
            },
            data_qtd_index: match &self.zlp_slot {
                Some(_) => Some(self.data_slot.index()),
                None => None,
            },
            qh_index: self.pipe.which() as usize + 1,
            waker_index: self.pipe.which() as usize,
        }
    }

    /// Queue the cache maintenance that must precede loading the images for `step`.
    pub fn prepare(&self, hc: &mut ImxrtHostController<'_>)
        requires
            old(hc).wf(),
            self.holds(old(hc)@.statics),
        ensures
            final(hc).wf(),
            final(hc)@ == (match self.stage {
                Stage::Running => self.completion().prepared(old(hc)@),
                Stage::Stopping(_) => old(hc)@,
                Stage::Stopped(_) => old(hc)@.clean_qh(self.qh()),
            }),
    {
        match &self.stage {
            Stage::Running => {
                self.transfer_complete().prepare(hc);
            },
            Stage::Stopping(_) => {},
            Stage::Stopped(_) => {
                hc.cache_clean_qh(self.pipe.which() as usize + 1);
            },
        }
    }

    /// Take the transfer one step further.
    ///
    /// - While it is running: once it is complete, its result is determined, and the QH is
    ///   unlinked from the async schedule.
    /// - While it is stopping: once the controller acknowledges that it does not access the QH
    ///   any more, the transfer is stopped.
    /// - Once it is stopped: all resources are freed, and the result is handed out, together
    ///   with the data toggle for the next transfer, which the controller left in the QH.
    pub fn step(self, hc: &mut ImxrtHostController<'_>) -> (step: Step<
        Self,
        (Result<usize, UsbError>, bool),
    >)
        requires
            old(hc).wf(),
            self.steppable(old(hc)@.statics),
        ensures
            final(hc).wf(),
            (step, final(hc)@) == self.stepped(old(hc)@),
            match self.stage {
                Stage::Running => match self.completion().outcome(old(hc)@.statics) {
                    Poll::Pending => {
                        &&& step == Step::<Self, (Result<usize, UsbError>, bool)>::Wait(self)
                        &&& final(hc)@ == old(hc)@.set_bits(
                            usb::Reg::Usbintr,
                            TRANSFER_INTERRUPTS,
                        )
                    },
                    Poll::Ready(Ok(_)) => {
                        &&& step == Step::<Self, (Result<usize, UsbError>, bool)>::Again(
                            BulkTransfer {
                                stage: Stage::Stopping(Ok(self.bytes(old(hc)@.statics))),
                                ..self
                            },
                        )
                        &&& final(hc)@ == self.collected(old(hc)@).stop_async(self.qh())
                        &&& final(hc)@.statics.schedules_wf()
                        &&& !final(hc)@.statics.scheduled(self.qh())
                    },
                    Poll::Ready(Err(e)) => {
                        &&& step == Step::<Self, (Result<usize, UsbError>, bool)>::Again(
                            BulkTransfer { stage: Stage::Stopping(Err(e)), ..self },
                        )
                        &&& final(hc)@ == old(hc)@.stop_async(self.qh())
                        &&& final(hc)@.statics.schedules_wf()
                        &&& !final(hc)@.statics.scheduled(self.qh())
                    },
                },
                Stage::Stopping(r) => if old(hc)@.usb.reg(usb::Reg::Usbsts) & usb::USBSTS_AAI
                    != 0 {
                    &&& step == Step::<Self, (Result<usize, UsbError>, bool)>::Again(
                        BulkTransfer { stage: Stage::Stopped(r), ..self },
                    )
                    &&& final(hc)@ == old(hc)@.write(usb::Reg::Usbsts, usb::USBSTS_AAI)
                } else {
                    &&& step == Step::<Self, (Result<usize, UsbError>, bool)>::Wait(self)
                    &&& final(hc)@ == old(hc)@.set_bits(usb::Reg::Usbintr, usb::USBINTR_AAE)
                },
                Stage::Stopped(r) => {
                    let overlay = old(hc)@.statics.qh[self.qh()].overlay_token@;
                    &&& step == Step::<Self, (Result<usize, UsbError>, bool)>::Done(
                        (r, overlay & (1u32 << 31) != 0),
                    )
                    &&& final(hc)@ == self.released(old(hc)@)
                },
            },
            old(hc)@.statics.schedules_wf() && !(self.stage is Running) ==> {
                &&& final(hc)@.statics.schedules_wf()
                &&& final(hc)@.statics.async_ring() == old(hc)@.statics.async_ring()
                &&& final(hc)@.statics.periodic_chain() == old(hc)@.statics.periodic_chain()
            },
    {
        let qh_index: usize = self.pipe.which() as usize + 1;
        match self.stage {
            Stage::Running => {
                match self.transfer_complete().poll(hc) {
                    Poll::Pending => Step::Wait(self),
                    Poll::Ready(Ok(_)) => {
                        let bytes: usize = if self.is_in {
                            // Invalidate the IN data buffer (DMA wrote to it; don't write back).
                            if self.data.len > 0 {
                                hc.usb.push(
                                    Action::Invalidate {
                                        addr: self.data.addr,
                                        size: self.data.len as u32,
                                    },
                                );
                            }
                            hc.cache_clean_qtd(self.data_slot.index());
                            let token: u32 = hc.statics.qtd_pool[self.data_slot.index()].token.read();
                            self.data.len.saturating_sub(qtd_token_bytes_remaining(token) as usize)
                        } else {
                            self.data.len
                        };
                        hc.unlink_and_stop_async(qh_index);
                        Step::Again(BulkTransfer { stage: Stage::Stopping(Ok(bytes)), ..self })
                    },
                    Poll::Ready(Err(e)) => {
                        hc.unlink_and_stop_async(qh_index);
                        Step::Again(BulkTransfer { stage: Stage::Stopping(Err(e)), ..self })
                    },
                }
            },
            Stage::Stopping(r) => {
                match AsyncAdvanceWait.poll(hc) {
                    Poll::Pending => Step::Wait(BulkTransfer { stage: Stage::Stopping(r), ..self }),
                    Poll::Ready(_) => Step::Again(
                        BulkTransfer { stage: Stage::Stopped(r), ..self },
                    ),
                }
            },
            Stage::Stopped(r) => {
                // The controller writes the next expected toggle into the overlay token's
                // DT bit (bit 31) when it updates the overlay at end-of-transfer.
                let overlay: u32 = hc.statics.qh_pool[qh_index].overlay_token.read();
                let toggle: bool = overlay & (1u32 << 31) != 0;
                hc.clear_flags(qh_index);
                if let Some(zlp) = self.zlp_slot {
                    hc.free_qtd(zlp);
                }
                hc.free_qtd(self.data_slot);
                proof {
                    if old(hc)@.statics.schedules_wf() {
                        crate::host::links::lemma_schedules_frame(old(hc)@.statics, hc@.statics);
                    }
                }
                Step::Done((r, toggle))
            },
        }
    }

    /// Give up a transfer that is not done: all slots are freed, and the pipe goes back to its
    /// pool.
    ///
    /// The QH is left as it is. While it is in the async schedule it must not be set up for
    /// another transfer.
    pub fn abandon(self, hc: &mut ImxrtHostController<'_>)
        requires
            old(hc).wf(),
            self.holds(old(hc)@.statics),
        ensures
            final(hc).wf(),
            final(hc)@ == self.abandoned(old(hc)@),
            crate::host::statics::free_count(final(hc)@.statics.allocated)
                == crate::host::statics::free_count(old(hc)@.statics.allocated) + (
            if self.zlp_slot is Some {
                2nat
            } else {
                1nat
            }),
            old(hc)@.statics.schedules_wf() ==> {
                &&& final(hc)@.statics.schedules_wf()
                &&& final(hc)@.statics.async_ring() == old(hc)@.statics.async_ring()
                &&& final(hc)@.statics.periodic_chain() == old(hc)@.statics.periodic_chain()
            },
    {
        proof {
            let a = hc@.statics.allocated;
            match &self.zlp_slot {
                Some(z) => {
                    let b = a.update(z.index as int, false);
                    crate::host::statics::lemma_free_count_update(a, z.index as int);
                    crate::host::statics::lemma_free_count_update(b, self.data_slot.index as int);
                },
                None => {
                    crate::host::statics::lemma_free_count_update(a, self.data_slot.index as int);
                },
            }
        }
        if let Some(zlp) = self.zlp_slot {
            hc.free_qtd(zlp);
        }
        hc.free_qtd(self.data_slot);
        proof {
            if old(hc)@.statics.schedules_wf() {
                crate::host::links::lemma_schedules_frame(old(hc)@.statics, hc@.statics);
            }
        }
    }
}

impl<'p> ImxrtHostController<'p> {
    /// Start an EHCI bulk transfer (IN or OUT) on the async schedule.
    ///
    /// Uses one qTD for transfers up to ~20 KB. The data toggle is hardware-managed
    /// (DTC=0 in QH), starting from `data_toggle`.
    ///
    /// For VariableSize OUT transfers where the length of the data is an exact multiple of
    /// the packet size, an extra zero-length qTD is chained to signal end-of-transfer.
    ///
    /// Fails if there are not enough free qTDs; what was taken is freed again.
    pub fn start_bulk_transfer(
        &mut self,
        pipe: Pipe<'p>,
        address: u8,
        endpoint: u8,
        packet_size: u16,
        data: Buffer,
        is_in: bool,
        transfer_type: TransferType,
        data_toggle: bool,
    ) -> (result: Result<BulkTransfer<'p>, UsbError>)
        requires
            old(self).wf(),
            1 <= pipe.which < NUM_QH,
            data.wf(),
        ensures
            final(self).wf(),
            result matches Ok(t) ==> t == new_bulk_transfer(
                old(self)@,
                pipe,
                packet_size,
                data,
                is_in,
                transfer_type,
            ),
            result is Err ==> final(self)@ == bulk_failed(
                bulk_endpoint(old(self)@, pipe.which + 1, address, endpoint, packet_size),
                crate::host::statics::free_count(old(self)@.statics.allocated),
            ),
            result is Ok ==> final(self)@ == bulk_started(
                old(self)@,
                pipe.which + 1,
                address,
                endpoint,
                packet_size,
                data,
                is_in,
                transfer_type,
                data_toggle,
            ),
            ({
                let q = pipe.which + 1;
                let speed = crate::host::transfer::endpoint_speed(
                    TransferExtras::Normal,
                    old(self)@.pspd(),
                );
                let zlp = needs_zlp(
                    is_in,
                    transfer_type,
                    data.len,
                    bulk_packet_size(speed, packet_size),
                );
                let needed: nat = if zlp {
                    2
                } else {
                    1
                };
                let free = crate::host::statics::free_count(old(self)@.statics.allocated);
                let set_up = bulk_endpoint(old(self)@, q, address, endpoint, packet_size);
                let first = crate::host::statics::first_free(old(self)@.statics.allocated);
                let one = set_up.alloc_qtd();
                &&& result is Ok <==> free >= needed
                &&& match result {
                    Ok(t) => {
                        let d = t.data_slot.index as int;
                        &&& t.pipe == pipe
                        &&& t.data == data
                        &&& t.is_in == is_in
                        &&& t.stage is Running
                        &&& t.holds(final(self)@.statics)
                        &&& d == first
                        &&& t.zlp_slot is Some <==> zlp
                        &&& match t.zlp_slot {
                            Some(z) => {
                                &&& z.index == crate::host::statics::first_free(
                                    one.statics.allocated,
                                )
                                &&& final(self)@ == bulk_running(
                                    one.alloc_qtd(),
                                    q,
                                    is_in,
                                    data,
                                    data_toggle,
                                    d,
                                    Some(z.index as int),
                                )
                            },
                            None => final(self)@ == bulk_running(
                                one,
                                q,
                                is_in,
                                data,
                                data_toggle,
                                d,
                                None,
                            ),
                        }
                        &&& crate::host::statics::free_count(final(self)@.statics.allocated)
                            + needed == free
                        &&& old(self)@.statics.schedules_wf() && !old(self)@.statics.scheduled(
                            q,
                        ) ==> {
                            &&& final(self)@.statics.running(q)
                            &&& final(self)@.statics.async_ring() == seq![q]
                                + old(self)@.statics.async_ring()
                            &&& final(self)@.statics.periodic_chain()
                                == old(self)@.statics.periodic_chain()
                        }
                    },
                    Err(e) => {
                        &&& e == UsbError::AllPipesInUse
                        &&& final(self)@ == (if free == 0 {
                            set_up
                        } else {
                            one.free_qtd(first)
                        })
                        &&& final(self)@.statics.allocated == old(self)@.statics.allocated
                    },
                }
            }),
    {
        let ghost allocated = self@.statics.allocated;
        proof {
            crate::host::statics::lemma_take_free(allocated);
            crate::host::statics::lemma_take_free(crate::host::statics::take_free(allocated));
        }
        let qh_index: usize = pipe.which() as usize + 1;
        let speed: u32 = self.transfer_speed(TransferExtras::Normal);
        let actual_packet_size: u16 = if speed == SPEED_HIGH && packet_size < 512 {
            512
        } else {
            packet_size
        };
        // Initialize the QH with DTC=0 (hardware manages data toggle in overlay).
        let characteristics: u32 = qh_characteristics(
            address,
            endpoint,
            speed,
            actual_packet_size,
            false,
            false,
        );
        let mut qh = self.statics.qh_pool[qh_index];
        qh.init_endpoint(characteristics, qh_capabilities(0, 0, 0, 0, 1));
        self.store_qh(qh_index, qh);

        // Determine if a ZLP is needed.
        let variable: bool = match transfer_type {
            TransferType::VariableSize => true,
            TransferType::FixedSize => false,
        };
        let need_zlp: bool = !is_in && variable && data.len > 0 && actual_packet_size > 0
            && data.len % actual_packet_size as usize == 0;

        // Allocate qTD(s).
        let data_slot = match self.alloc_qtd() {
            Some(slot) => slot,
            None => {
                return Err(UsbError::AllPipesInUse);
            },
        };
        let zlp_slot = if need_zlp {
            match self.alloc_qtd() {
                Some(slot) => Some(slot),
                None => {
                    self.free_qtd(data_slot);
                    assert(self@.statics.allocated =~= allocated);
                    return Err(UsbError::AllPipesInUse);
                },
            }
        } else {
            None
        };

        // Initialize the data qTD, and chain data -> ZLP if there is one. IOC is set on the last
        // qTD in the chain.
        let pid: u32 = if is_in {
            PID_IN
        } else {
            PID_OUT
        };
        let mut qtd = TransferDescriptor::new();
        qtd.init(
            qtd_token(pid, data.len as u32, false, !need_zlp),
            data.addr,
            data.len as u32,
        );
        if let Some(zlp) = &zlp_slot {
            qtd.next.write(self.statics.qtd_ptr(zlp.index()));
            self.store_qtd(data_slot.index(), qtd);
            qtd.init(qtd_token(pid, 0, false, true), 0, 0);
            self.store_qtd(zlp.index(), qtd);
        } else {
            self.store_qtd(data_slot.index(), qtd);
        }

        // Attach first qTD to QH. attach_qtd() clears overlay_token to 0;
        // then set the initial data toggle bit.
        let mut qh = self.statics.qh_pool[qh_index];
        qh.attach_qtd(self.statics.qtd_ptr(data_slot.index()));
        if data_toggle {
            qh.set_overlay_toggle(true);
        }
        proof {
            assert(0u32 & !(1u32 << 31) == 0) by (bit_vector);
        }
        self.store_qh(qh_index, qh);

        // For OUT: clean the outgoing data buffer before DMA starts.
        if !is_in {
            self.cache_clean_buffer(data.addr, data.len);
        }
        self.cache_clean_qtd(data_slot.index());
        if let Some(zlp) = &zlp_slot {
            self.cache_clean_qtd(zlp.index());
        }
        proof {
            let s = old(self)@.statics;
            if s.schedules_wf() && !s.scheduled(qh_index as int) {
                crate::host::links::lemma_schedules_frame(s, self@.statics);
            }
        }
        self.link_and_start_async(qh_index);
        proof {
            let ring = seq![qh_index as int] + old(self)@.statics.async_ring();
            assert(ring[0] == qh_index);
        }
        Ok(
            BulkTransfer { pipe, data_slot, zlp_slot, data, is_in, stage: Stage::Running },
        )
    }
}

} // verus!
