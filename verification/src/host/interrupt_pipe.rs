//! Interrupt IN pipe: periodic schedule endpoint.

use crate::action::Action;
use crate::ehci::{
    qh_capabilities, qh_characteristics, qtd_token, qtd_token_bytes_remaining, FrameList,
    QueueHead, TransferDescriptor, PID_IN, QTD_TOKEN_ACTIVE, QTD_TOKEN_HALTED, SPEED_FULL,
    SPEED_HIGH, SPEED_LOW,
};
use crate::host::controller::{ControllerView, ImxrtHostController, TRANSFER_INTERRUPTS};
use crate::host::pools::{pool_try_alloc, pooled_which};
use crate::host::schedule::QtdSlot;
use crate::host::statics::StaticsView;
use crate::host::types::{InterruptPacket, Poll, TransferExtras, UsbError, WakerId};
use crate::host::{NUM_QH, NUM_QTD};
use crate::ral::usb;
use crate::vcell::VCell;
use cotton_usb_host::async_pool::Pooled;
use vstd::prelude::*;

verus! {

// ---------------------------------------------------------------------------
// Pipe: pipe allocation wrapper
// ---------------------------------------------------------------------------

/// Wraps a pool allocation for a pipe. When dropped, returns the resource
/// to the pool.
pub struct Pipe<'p> {
    /// Owns the pool's resource.
    pub pooled: Pooled<'p>,
    /// Which pipe this is.
    pub which: u8,
}

impl<'p> Pipe<'p> {
    /// The pipe for a resource of a pool, counted from `offset` on.
    pub fn new(pooled: Pooled<'p>, offset: u8) -> (pipe: Self)
        requires
            offset <= 224,
        ensures
            pipe.pooled == pooled,
            pipe.which == crate::host::pools::pooled_index(pooled) + offset,
    {
        let which: u8 = pooled_which(&pooled) + offset;
        Pipe { pooled, which }
    }

    /// Which pipe this is.
    pub fn which(&self) -> (which: u8)
        ensures
            which == self.which,
    {
        self.which
    }
}

// ---------------------------------------------------------------------------
// Setting up an interrupt pipe
// ---------------------------------------------------------------------------

/// The number of processor cycles to wait for a frame boundary: at least 1 ms at 600 MHz.
///
/// A delay loop may complete in half the expected time on Cortex-M7 due to the dual-issue
/// pipeline, so this is twice the nominal cycle count.
pub const FRAME_DELAY_CYCLES: u32 = 1_200_000;

/// The endpoint speed for interrupt pipes.
///
/// `WithPreamble` indicates a Low Speed device behind a Full Speed hub.
pub open spec fn interrupt_speed(transfer_extras: TransferExtras, pspd: u32) -> u32 {
    if transfer_extras is WithPreamble || pspd == 1 {
        SPEED_LOW
    } else if pspd == 0 {
        SPEED_FULL
    } else {
        SPEED_HIGH
    }
}

/// The qTD that receives one packet of an interrupt pipe at `addr`.
pub open spec fn receive_qtd(max_packet_size: u16, addr: u32) -> TransferDescriptor {
    TransferDescriptor::phase(qtd_token(PID_IN, max_packet_size as u32, false, true), addr)
}

impl ControllerView {
    /// After cache maintenance of the frame list.
    pub open spec fn clean_frame_list(self) -> Self {
        self.push(
            Action::CleanInvalidate {
                addr: self.statics.layout.frame_list,
                size: FrameList::SIZE,
            },
        )
    }

    /// After setting up the pipe `which` for an interrupt endpoint: its queue head is polled in
    /// micro-frame 0 of each frame, with no NAK reload (which must be 0 in the periodic
    /// schedule), and receives into its buffer by means of the lowest free qTD.
    pub open spec fn interrupt_running(
        self,
        which: int,
        address: u8,
        transfer_extras: TransferExtras,
        endpoint: u8,
        max_packet_size: u16,
    ) -> Self {
        let q = which + 1;
        let d = crate::host::statics::first_free(self.statics.allocated);
        let addr = self.statics.layout.recv_address(which - 1);
        let qh = self.statics.qh[q].as_endpoint(
            qh_characteristics(
                address,
                endpoint,
                interrupt_speed(transfer_extras, self.pspd()),
                max_packet_size,
                false,
                false,
            ) & !(0xFu32 << 28),
            qh_capabilities(0x01, 0, 0, 0, 1),
        );
        self.alloc_qtd().store_qtd(d, receive_qtd(max_packet_size, addr)).store_qh(
            q,
            qh.with_qtd(self.statics.layout.qtd_address(d)),
        ).clean_qtd(d).clean_buffer(addr, max_packet_size as usize).clean_qh(
            q,
        ).clean_frame_list().link_periodic(q).clean_qh(q).clean_frame_list()
    }
}

/// The interrupt pipe that is set up on `pipe`, with the lowest free qTD.
pub open spec fn new_interrupt_pipe<'p>(
    hc: ControllerView,
    pipe: Pipe<'p>,
    address: u8,
    endpoint: u8,
    max_packet_size: u16,
) -> ImxrtInterruptPipe<'p> {
    ImxrtInterruptPipe {
        pipe,
        qh_index: (pipe.which + 1) as usize,
        qtd_slot: QtdSlot {
            index: crate::host::statics::first_free(hc.statics.allocated) as usize,
        },
        recv_buf_idx: (pipe.which - 1) as usize,
        address,
        endpoint,
        max_packet_size,
    }
}

impl<'p> ImxrtHostController<'p> {
    /// Clean and invalidate the frame list for DMA.
    fn cache_clean_frame_list(&mut self)
        requires
            old(self).wf(),
        ensures
            final(self).wf(),
            final(self)@ == old(self)@.clean_frame_list(),
    {
        self.usb.push(
            Action::CleanInvalidate { addr: self.statics.layout.frame_list, size: FrameList::SIZE },
        );
    }

    /// Set up and return an interrupt pipe for polling an IN endpoint.
    ///
    /// The pipe pool limits the number of concurrent pipes, which bounds qTD consumption; there
    /// must be a free qTD.
    pub fn do_alloc_interrupt_pipe(
        &mut self,
        pipe: Pipe<'p>,
        address: u8,
        transfer_extras: TransferExtras,
        endpoint: u8,
        max_packet_size: u16,
        _interval_ms: u8,
    ) -> (interrupt_pipe: ImxrtInterruptPipe<'p>)
        requires
            old(self).wf(),
            1 <= pipe.which < NUM_QH,
            crate::host::statics::free_count(old(self)@.statics.allocated) > 0,
        ensures
            final(self).wf(),
            interrupt_pipe == (ImxrtInterruptPipe {
                pipe,
                qh_index: (pipe.which + 1) as usize,
                qtd_slot: QtdSlot {
                    index: crate::host::statics::first_free(
                        old(self)@.statics.allocated,
                    ) as usize,
                },
                recv_buf_idx: (pipe.which - 1) as usize,
                address,
                endpoint,
                max_packet_size,
            }),
            interrupt_pipe == new_interrupt_pipe(
                old(self)@,
                pipe,
                address,
                endpoint,
                max_packet_size,
            ),
            interrupt_pipe.holds(final(self)@.statics),
            final(self)@ == old(self)@.interrupt_running(
                pipe.which as int,
                address,
                transfer_extras,
                endpoint,
                max_packet_size,
            ),
            crate::host::statics::free_count(final(self)@.statics.allocated) + 1
                == crate::host::statics::free_count(old(self)@.statics.allocated),
            old(self)@.statics.schedules_wf() && !old(self)@.statics.scheduled(pipe.which + 1)
                ==> {
                &&& final(self)@.statics.schedules_wf()
                &&& final(self)@.statics.async_ring() == old(self)@.statics.async_ring()
                &&& final(self)@.statics.periodic_chain() == seq![pipe.which + 1]
                    + old(self)@.statics.periodic_chain()
            },
    {
        proof {
            crate::host::statics::lemma_take_free(self@.statics.allocated);
        }
        // Map pipe slot to pool indices: slots of the bulk pipe pool are counted from 1 on.
        let qh_index: usize = pipe.which() as usize + 1;
        let recv_buf_idx: usize = pipe.which() as usize - 1;
        // We use a dedicated qTD for the lifetime of the pipe (one in-flight at a time).
        let qtd_slot = self.alloc_qtd().unwrap();
        let speed: u32 = match transfer_extras {
            TransferExtras::WithPreamble => SPEED_LOW,
            TransferExtras::Normal => match self.port_speed() {
                0 => SPEED_FULL,
                1 => SPEED_LOW,
                _ => SPEED_HIGH,
            },
        };
        // DTC = 0 (hardware-managed data toggle in QH overlay) for non-control endpoints.
        // RL (NAK Reload) must be 0 for periodic schedule QHs: clear bits [31:28].
        let characteristics: u32 = qh_characteristics(
            address,
            endpoint,
            speed,
            max_packet_size,
            false,
            false,
        ) & !(0xFu32 << 28);
        // S-mask = 0x01: poll in micro-frame 0 of each scheduled frame.
        // C-mask = 0: no split-completion mask (not a split transaction).
        // hub_addr/hub_port = 0: device is directly connected (no TT).
        let capabilities: u32 = qh_capabilities(0x01, 0, 0, 0, 1);

        // Set up the initial qTD: PID=IN, Active, max_packet_size bytes, IOC.
        let recv_buf_ptr: u32 = self.statics.recv_bufs[recv_buf_idx].as_ptr();
        let mut qtd = TransferDescriptor::new();
        qtd.init(
            qtd_token(PID_IN, max_packet_size as u32, false, true),
            recv_buf_ptr,
            max_packet_size as u32,
        );
        self.store_qtd(qtd_slot.index(), qtd);

        // Initialise the QH, and attach the qTD to it.
        let mut qh = self.statics.qh_pool[qh_index];
        qh.init_endpoint(characteristics, capabilities);
        qh.attach_qtd(self.statics.qtd_ptr(qtd_slot.index()));
        self.store_qh(qh_index, qh);

        // Cache maintenance: clean qTD, recv_buf, QH, and frame list before linking.
        self.cache_clean_qtd(qtd_slot.index());
        self.cache_clean_buffer(recv_buf_ptr, max_packet_size as usize);
        self.cache_clean_qh(qh_index);
        self.cache_clean_frame_list();
        proof {
            let s = old(self)@.statics;
            if s.schedules_wf() && !s.scheduled(qh_index as int) {
                crate::host::links::lemma_schedules_frame(s, self@.statics);
            }
        }

        // Insert QH at the head of the periodic schedule.
        self.link_qh_to_periodic_schedule(qh_index);

        // Cache-clean QH (horizontal_link changed) and frame list (all entries changed).
        self.cache_clean_qh(qh_index);
        self.cache_clean_frame_list();

        ImxrtInterruptPipe {
            pipe,
            qh_index,
            qtd_slot,
            recv_buf_idx,
            address,
            endpoint,
            max_packet_size,
        }
    }

    /// Take a bulk/interrupt pipe if one is immediately available.
    ///
    /// Whether one is, and which, is for the pool of bulk pipes to say.
    pub fn try_alloc_pipe(&self) -> (pipe: Option<Pipe<'p>>)
        requires
            self.wf(),
        ensures
            pipe matches Some(p) ==> {
                &&& 1 <= p.which < NUM_QH
                &&& p.which == crate::host::pools::pooled_index(p.pooled) + 1
                &&& crate::host::pools::pooled_total(p.pooled) == crate::host::pools::pool_size(
                    self@.pools.bulk_pipes,
                )
            },
    {
        let pools = self.pools;
        match pool_try_alloc(&pools.bulk_pipes) {
            Some(pooled) => Some(Pipe::new(pooled, 1)),
            None => None,
        }
    }

    /// Set up an interrupt pipe if one is immediately available.
    ///
    /// Whether one is, and which, is for the pool of bulk pipes to say. There must be a free
    /// qTD; where that is not known beforehand, take the pipe with
    /// [`try_alloc_pipe`](Self::try_alloc_pipe) and set it up with
    /// [`do_alloc_interrupt_pipe`](Self::do_alloc_interrupt_pipe).
    pub fn try_alloc_interrupt_pipe(
        &mut self,
        address: u8,
        transfer_extras: TransferExtras,
        endpoint: u8,
        max_packet_size: u16,
        interval_ms: u8,
    ) -> (result: Result<ImxrtInterruptPipe<'p>, UsbError>)
        requires
            old(self).wf(),
            crate::host::statics::free_count(old(self)@.statics.allocated) > 0,
        ensures
            final(self).wf(),
            match result {
                Ok(p) => {
                    &&& p.pipe.which == crate::host::pools::pooled_index(p.pipe.pooled) + 1
                    &&& crate::host::pools::pooled_total(p.pipe.pooled)
                        == crate::host::pools::pool_size(old(self)@.pools.bulk_pipes)
                    &&& p.address == address
                    &&& p.endpoint == endpoint
                    &&& p.max_packet_size == max_packet_size
                    &&& p.holds(final(self)@.statics)
                    &&& p.qtd_slot.index == crate::host::statics::first_free(
                        old(self)@.statics.allocated,
                    )
                    &&& final(self)@ == old(self)@.interrupt_running(
                        p.pipe.which as int,
                        address,
                        transfer_extras,
                        endpoint,
                        max_packet_size,
                    )
                    &&& old(self)@.statics.schedules_wf() && !old(self)@.statics.scheduled(
                        p.pipe.which + 1,
                    ) ==> {
                        &&& final(self)@.statics.schedules_wf()
                        &&& final(self)@.statics.async_ring() == old(self)@.statics.async_ring()
                        &&& final(self)@.statics.periodic_chain() == seq![p.pipe.which + 1]
                            + old(self)@.statics.periodic_chain()
                    }
                },
                Err(e) => {
                    &&& e == UsbError::AllPipesInUse
                    &&& final(self)@ == old(self)@
                },
            },
    {
        proof {
            crate::host::statics::lemma_take_free(self@.statics.allocated);
        }
        match self.try_alloc_pipe() {
            Some(pipe) => Ok(
                self.do_alloc_interrupt_pipe(
                    pipe,
                    address,
                    transfer_extras,
                    endpoint,
                    max_packet_size,
                    interval_ms,
                ),
            ),
            None => Err(UsbError::AllPipesInUse),
        }
    }
}

// ---------------------------------------------------------------------------
// ImxrtInterruptPipe: periodic schedule interrupt endpoint
// ---------------------------------------------------------------------------

/// Interrupt IN pipe for i.MX RT 1062.
///
/// Wraps a single QH + qTD polling an interrupt IN endpoint via the EHCI
/// periodic schedule.
///
/// # Lifecycle
///
/// Created by [`ImxrtHostController::do_alloc_interrupt_pipe`] or
/// [`ImxrtHostController::try_alloc_interrupt_pipe`]. The pipe occupies one slot from the
/// bulk pipe pool and one slot from the qTD pool for its entire lifetime, until it is given
/// to [`ImxrtInterruptPipe::release`].
pub struct ImxrtInterruptPipe<'p> {
    /// Pool allocation (frees the bulk pipe slot when dropped).
    pub pipe: Pipe<'p>,
    /// Pool index of this pipe's QH.
    pub qh_index: usize,
    /// This pipe's qTD slot.
    pub qtd_slot: QtdSlot,
    /// Index of the DMA receive buffer.
    pub recv_buf_idx: usize,
    /// USB device address.
    pub address: u8,
    /// Endpoint number.
    pub endpoint: u8,
    /// Maximum packet size (used when re-arming the qTD).
    pub max_packet_size: u16,
}

/// The interrupt pipe of the i.MX RT 1062.
pub type Imxrt1062InterruptPipe<'p> = ImxrtInterruptPipe<'p>;

impl<'p> ImxrtInterruptPipe<'p> {
    /// The pipe's indices are those of its pipe slot, and its qTD slot is allocated.
    pub open spec fn holds(self, s: StaticsView) -> bool {
        &&& 1 <= self.pipe.which < NUM_QH
        &&& self.qh_index == self.pipe.which + 1
        &&& self.recv_buf_idx == self.pipe.which - 1
        &&& self.qtd_slot.index < NUM_QTD
        &&& s.allocated[self.qtd_slot.index as int]
    }

    /// The number of bytes of the packet in the receive buffer, which holds 64 at most.
    pub open spec fn packet_size(self, token: u32) -> int {
        let received = self.max_packet_size - qtd_token_bytes_remaining(token);
        if received < 0 {
            0
        } else if received > 64 {
            64
        } else {
            received
        }
    }

    /// The contents of the packet in the receive buffer, padded with zeros.
    pub open spec fn received(self, s: StaticsView) -> Seq<u8> {
        let size = self.packet_size(s.qtd[self.qtd_slot.index as int].token@);
        Seq::new(
            64,
            |i: int|
                if i < size {
                    s.recv[self.recv_buf_idx as int].data[i]
                } else {
                    0
                },
        )
    }

    /// What a poll yields: nothing yet, the end of the stream, or the contents of a packet.
    pub open spec fn yields(self, s: StaticsView) -> Poll<Option<Seq<u8>>> {
        let token = s.qtd[self.qtd_slot.index as int].token@;
        if token & QTD_TOKEN_ACTIVE != 0 {
            Poll::Pending
        } else if token & QTD_TOKEN_HALTED != 0 {
            Poll::Ready(None)
        } else {
            Poll::Ready(Some(self.received(s)))
        }
    }

    /// After re-arming the qTD for the next poll. The data toggle in the QH overlay is left to
    /// the controller.
    pub open spec fn rearmed(self, hc: ControllerView) -> ControllerView {
        let q = self.qh_index as int;
        let d = self.qtd_slot.index as int;
        let addr = hc.statics.layout.qtd_address(d);
        let stored = hc.store_qtd(
            d,
            receive_qtd(
                self.max_packet_size,
                hc.statics.layout.recv_address(self.recv_buf_idx as int),
            ),
        );
        stored.with_statics(
            stored.statics.with_qh(
                q,
                QueueHead { overlay_next: VCell(addr), ..stored.statics.qh[q] },
            ),
        ).push(
            Action::StoreWord {
                addr: (hc.statics.layout.qh_address(q) + QueueHead::OVERLAY_NEXT_OFFSET) as u32,
                value: addr,
            },
        )
    }

    /// The controller after the pipe was polled.
    pub open spec fn polled(self, hc: ControllerView) -> ControllerView {
        let token = hc.statics.qtd[self.qtd_slot.index as int].token@;
        if token & QTD_TOKEN_ACTIVE != 0 {
            hc.set_bits(usb::Reg::Usbintr, TRANSFER_INTERRUPTS)
        } else if token & QTD_TOKEN_HALTED != 0 {
            hc.set_bits(usb::Reg::Usbintr, usb::USBINTR_PCE)
        } else {
            self.rearmed(hc).set_bits(usb::Reg::Usbintr, TRANSFER_INTERRUPTS)
        }
    }

    /// The controller after the pipe was given up.
    pub open spec fn released(self, hc: ControllerView) -> ControllerView {
        let q = self.qh_index as int;
        let unlinked = if hc.statics.periodic_chain().contains(q) {
            hc.unlink_periodic(q)
        } else {
            hc
        };
        unlinked.push(Action::Delay { cycles: FRAME_DELAY_CYCLES }).clear_flags(q).free_qtd(
            self.qtd_slot.index as int,
        )
    }

    /// Whether the pipe's indices are those of its pipe slot, and it owns its qTD slot.
    pub fn is_held(&self, hc: &ImxrtHostController<'_>) -> (held: bool)
        requires
            hc.wf(),
        ensures
            held == self.holds(hc@.statics),
    {
        let which: usize = self.pipe.which() as usize;
        1 <= which && which < NUM_QH && self.qh_index == which + 1 && self.recv_buf_idx == which - 1
            && self.qtd_slot.index() < NUM_QTD && hc.statics.qtd_allocated[self.qtd_slot.index()]
    }

    /// The waker to register before the next poll.
    pub fn waker(&self) -> (waker: WakerId)
        ensures
            waker == WakerId::Pipe(self.pipe.which as usize),
    {
        WakerId::Pipe(self.pipe.which() as usize)
    }

    /// Check for the next packet.
    ///
    /// - If the transfer is still in progress, the transfer interrupts are enabled again.
    /// - If the qTD halted, the device is likely disconnected or the endpoint stalled. The
    ///   stream of packets ends, and the port change interrupt is enabled again so that
    ///   device detection can handle the disconnect. The qTD is **not** re-armed:
    ///   re-arming a halted pipe when the device is absent creates an
    ///   infinite busy-loop of halt, re-arm, halt.
    /// - Otherwise, the packet that was received is handed out, and the qTD is re-armed.
    ///
    /// The waker must be registered, and the images loaded, before this is called.
    pub fn poll_next(&self, hc: &mut ImxrtHostController<'_>) -> (poll: Poll<
        Option<InterruptPacket>,
    >)
        requires
            old(hc).wf(),
            self.holds(old(hc)@.statics),
        ensures
            final(hc).wf(),
            final(hc)@ == self.polled(old(hc)@),
            self.yields(old(hc)@.statics) == (match poll {
                Poll::Pending => Poll::Pending,
                Poll::Ready(None) => Poll::Ready(None),
                Poll::Ready(Some(packet)) => Poll::Ready(Some(packet.data@)),
            }),
            ({
                let s = old(hc)@.statics;
                let token = s.qtd[self.qtd_slot.index as int].token@;
                let buf = s.recv[self.recv_buf_idx as int];
                if token & QTD_TOKEN_ACTIVE != 0 {
                    &&& poll is Pending
                    &&& final(hc)@ == old(hc)@.set_bits(usb::Reg::Usbintr, TRANSFER_INTERRUPTS)
                } else if token & QTD_TOKEN_HALTED != 0 {
                    &&& poll == Poll::Ready(None::<InterruptPacket>)
                    &&& final(hc)@ == old(hc)@.set_bits(usb::Reg::Usbintr, usb::USBINTR_PCE)
                } else {
                    &&& poll matches Poll::Ready(Some(packet))
                    &&& packet.address == self.address
                    &&& packet.endpoint == self.endpoint
                    &&& packet.size == self.packet_size(token)
                    &&& forall|i: int|
                        0 <= i < 64 ==> #[trigger] packet.data[i] == (if i < packet.size {
                            buf.data[i]
                        } else {
                            0
                        })
                    &&& final(hc)@ == self.rearmed(old(hc)@).set_bits(
                        usb::Reg::Usbintr,
                        TRANSFER_INTERRUPTS,
                    )
                }
            }),
            self.holds(final(hc)@.statics),
            old(hc)@.statics.schedules_wf() ==> {
                &&& final(hc)@.statics.schedules_wf()
                &&& final(hc)@.statics.async_ring() == old(hc)@.statics.async_ring()
                &&& final(hc)@.statics.periodic_chain() == old(hc)@.statics.periodic_chain()
            },
    {
        let token: u32 = hc.statics.qtd_pool[self.qtd_slot.index()].token.read();
        if token & QTD_TOKEN_ACTIVE != 0 {
            hc.reenable_transfer_interrupts();
            return Poll::Pending;
        }
        if token & QTD_TOKEN_HALTED != 0 {
            hc.reenable_port_change_interrupt();
            return Poll::Ready(None);
        }
        // Compute how many bytes were actually received.
        let remaining: usize = qtd_token_bytes_remaining(token) as usize;
        let received: usize = (self.max_packet_size as usize).saturating_sub(remaining);
        let copy_len: usize = if received < 64 {
            received
        } else {
            64
        };
        let mut data: [u8; 64] = [0u8;64];
        let mut i: usize = 0;
        while i < copy_len
            invariant
                self.recv_buf_idx < 3,
                copy_len <= 64,
                i <= copy_len,
                hc@ == old(hc)@,
                hc@.statics.recv == hc.statics.recv_bufs@,
                forall|j: int|
                    0 <= j < 64 ==> #[trigger] data[j] == (if j < i {
                        old(hc)@.statics.recv[self.recv_buf_idx as int].data[j]
                    } else {
                        0
                    }),
            decreases copy_len - i,
        {
            data[i] = hc.statics.recv_bufs[self.recv_buf_idx].data[i];
            i = i + 1;
        }
        let packet = InterruptPacket {
            address: self.address,
            endpoint: self.endpoint,
            size: copy_len as u8,
            data,
        };

        // Fully re-initialise the qTD (token, buffer pointers, next/alt_next): the EHCI
        // controller writes back the overlay area to the qTD after completion, which advances
        // buffer[0]'s current offset by the number of bytes received.
        let recv_buf_ptr: u32 = hc.statics.recv_bufs[self.recv_buf_idx].as_ptr();
        let mut qtd = TransferDescriptor::new();
        qtd.init(
            qtd_token(PID_IN, self.max_packet_size as u32, false, true),
            recv_buf_ptr,
            self.max_packet_size as u32,
        );
        hc.store_qtd(self.qtd_slot.index(), qtd);
        let qtd_addr: u32 = hc.statics.qtd_ptr(self.qtd_slot.index());
        let qh_addr: u32 = hc.statics.qh_ptr(self.qh_index);
        hc.statics.qh_pool[self.qh_index].reattach_qtd_preserve_toggle(qtd_addr);
        hc.usb.push(
            Action::StoreWord { addr: qh_addr + QueueHead::OVERLAY_NEXT_OFFSET, value: qtd_addr },
        );
        proof {
            assert(packet.data@ =~= self.received(old(hc)@.statics));
            assert(hc@ == self.rearmed(old(hc)@));
            if old(hc)@.statics.schedules_wf() {
                crate::host::links::lemma_schedules_frame(old(hc)@.statics, hc@.statics);
            }
        }

        // Re-enable transfer interrupts so the next completion wakes us.
        hc.reenable_transfer_interrupts();
        Poll::Ready(Some(packet))
    }

    /// Give up the pipe.
    ///
    /// The QH is unlinked from the periodic schedule and the qTD slot is freed. A delay in
    /// between ensures that the EHCI controller has crossed at least one frame boundary before
    /// resources are released.
    ///
    /// No cache maintenance is queued: the links that change are taken to lie in non-cacheable
    /// memory.
    pub fn release(self, hc: &mut ImxrtHostController<'_>)
        requires
            old(hc).wf(),
            self.holds(old(hc)@.statics),
            old(hc)@.statics.schedules_wf(),
        ensures
            final(hc).wf(),
            final(hc)@ == self.released(old(hc)@),
            ({
                let chain = old(hc)@.statics.periodic_chain();
                let q = self.qh_index as int;
                let unlinked = if chain.contains(q) {
                    old(hc)@.unlink_periodic(q)
                } else {
                    old(hc)@
                };
                &&& final(hc)@ == unlinked.push(
                    Action::Delay { cycles: FRAME_DELAY_CYCLES },
                ).clear_flags(q).free_qtd(self.qtd_slot.index as int)
                &&& final(hc)@.statics.periodic_chain() == (if chain.contains(q) {
                    chain.remove(chain.index_of(q))
                } else {
                    chain
                })
            }),
            final(hc)@.statics.schedules_wf(),
            final(hc)@.statics.async_ring() == old(hc)@.statics.async_ring(),
            crate::host::statics::free_count(final(hc)@.statics.allocated)
                == crate::host::statics::free_count(old(hc)@.statics.allocated) + 1,
    {
        proof {
            crate::host::statics::lemma_free_count_update(
                hc@.statics.allocated,
                self.qtd_slot.index as int,
            );
        }
        hc.unlink_qh_from_periodic_schedule(self.qh_index);
        let ghost unlinked = hc@.statics;
        hc.usb.push(Action::Delay { cycles: FRAME_DELAY_CYCLES });
        hc.clear_flags(self.qh_index);
        hc.free_qtd(self.qtd_slot);
        proof {
            crate::host::links::lemma_schedules_frame(unlinked, hc@.statics);
        }
    }
}

} // verus!
