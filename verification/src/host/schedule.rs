//! QH/qTD pool allocation and EHCI schedule management.
//!
//! This module contains the low-level helpers for allocating qTDs from the pool,
//! linking/unlinking QHs from the EHCI async and periodic schedules, and helpers that
//! combine link and cache operations.

use crate::action::Action;
use crate::ehci::{
    link_address, link_is_terminate, link_pointer, link_type, FrameList, QueueHead,
    TransferDescriptor, FRAME_LIST_LEN,
};
use crate::host::controller::{ControllerView, ImxrtHostController};
use crate::host::statics::DmaLayout;
use crate::host::{NUM_QH, NUM_QTD, QH_POOL_LEN};
use crate::ral::usb;
use vstd::prelude::*;

verus! {

// ---------------------------------------------------------------------------
// QtdSlot: ownership of a slot of the qTD pool
// ---------------------------------------------------------------------------

/// Ownership of a single qTD slot from the pool.
///
/// Obtained from [`ImxrtHostController::alloc_qtd`] and given back to
/// [`ImxrtHostController::free_qtd`].
#[derive(Debug, PartialEq, Eq)]
pub struct QtdSlot {
    /// Pool index of the slot.
    pub index: usize,
}

impl QtdSlot {
    /// Get the pool index of this qTD slot.
    pub fn index(&self) -> (index: usize)
        ensures
            index == self.index,
    {
        self.index
    }
}

/// The stores of one link into all entries of the frame list, from the first to the last.
pub open spec fn frame_stores(layout: DmaLayout, link: u32) -> Seq<Action> {
    Seq::new(
        FRAME_LIST_LEN as nat,
        |i: int| Action::StoreWord { addr: layout.frame_address(i), value: link },
    )
}

impl ControllerView {
    /// After storing the horizontal link of a queue head.
    pub open spec fn store_link(self, i: int, link: u32) -> Self {
        self.with_statics(self.statics.with_link(i, link)).push(
            Action::StoreWord { addr: self.statics.layout.qh_address(i), value: link },
        )
    }

    /// After storing one link into all entries of the frame list.
    pub open spec fn store_frames(self, link: u32) -> Self {
        self.with_statics(self.statics.with_frames(link)).after(
            frame_stores(self.statics.layout, link),
        )
    }

    /// After allocating the lowest free qTD slot.
    pub open spec fn alloc_qtd(self) -> Self {
        self.with_statics(
            self.statics.with_allocated(
                crate::host::statics::first_free(self.statics.allocated),
            ),
        )
    }

    /// After freeing a qTD slot and storing a blank descriptor.
    pub open spec fn free_qtd(self, i: int) -> Self {
        self.with_statics(self.statics.with_freed(i)).push(
            Action::StoreQtd { index: i as usize, qtd: TransferDescriptor::blank() },
        )
    }

    /// After linking a queue head into the async schedule.
    pub open spec fn link_async(self, q: int) -> Self {
        self.store_link(q, self.statics.qh[0].horizontal_link@).store_link(
            0,
            crate::host::links::qh_link(self.statics.layout, q),
        )
    }

    /// After unlinking a queue head from the async schedule.
    pub open spec fn unlink_async(self, q: int) -> Self {
        self.store_link(self.statics.async_predecessor(q), self.statics.qh[q].horizontal_link@)
    }

    /// After linking a queue head into the periodic schedule.
    pub open spec fn link_periodic(self, q: int) -> Self {
        self.store_link(q, self.statics.frames[0]).store_frames(
            crate::host::links::qh_link(self.statics.layout, q),
        )
    }

    /// After unlinking a queue head from the periodic schedule.
    pub open spec fn unlink_periodic(self, q: int) -> Self {
        let m = self.statics.periodic_chain().index_of(q);
        if m == 0 {
            self.store_frames(self.statics.qh[q].horizontal_link@)
        } else {
            self.store_link(
                self.statics.periodic_chain()[m - 1],
                self.statics.qh[q].horizontal_link@,
            )
        }
    }

    /// After enabling the async schedule, if it was not enabled.
    pub open spec fn enable_async(self) -> Self {
        if self.usb.reg(usb::Reg::Usbcmd) & usb::USBCMD_ASE == 0 {
            self.set_bits(usb::Reg::Usbcmd, usb::USBCMD_ASE)
        } else {
            self
        }
    }

    /// After ringing the async advance doorbell.
    pub open spec fn ring_doorbell(self) -> Self {
        self.set_bits(usb::Reg::Usbcmd, usb::USBCMD_IAA)
    }

    /// After linking a queue head into the async schedule, with cache maintenance of it and
    /// of the sentinel before and after, and enabling the schedule.
    pub open spec fn start_async(self, q: int) -> Self {
        self.clean_qh(q).clean_qh(0).link_async(q).clean_qh(q).clean_qh(0).enable_async()
    }

    /// After unlinking a queue head from the async schedule, with cache maintenance of the
    /// sentinel, and ringing the doorbell.
    pub open spec fn stop_async(self, q: int) -> Self {
        self.unlink_async(q).clean_qh(0).ring_doorbell()
    }
}

impl<'p> ImxrtHostController<'p> {
    // -----------------------------------------------------------------------
    // QH / qTD allocation helpers
    // -----------------------------------------------------------------------

    /// Find a free qTD slot: the lowest one.
    ///
    /// Returns `None` if all slots are in use.
    pub fn alloc_qtd(&mut self) -> (slot: Option<QtdSlot>)
        requires
            old(self).wf(),
        ensures
            final(self).wf(),
            slot is Some <==> crate::host::statics::free_count(old(self)@.statics.allocated) > 0,
            match slot {
                Some(s) => {
                    &&& s.index < NUM_QTD
                    &&& s.index == crate::host::statics::first_free(old(self)@.statics.allocated)
                    &&& !old(self)@.statics.allocated[s.index as int]
                    &&& final(self)@ == old(self)@.alloc_qtd()
                },
                None => final(self)@ == old(self)@,
            },
    {
        let ghost allocated = self@.statics.allocated;
        proof {
            crate::host::statics::lemma_take_free(allocated);
        }
        let mut i: usize = 0;
        while i < NUM_QTD
            invariant
                self.wf(),
                self@ == old(self)@,
                allocated == self@.statics.allocated,
                allocated.len() == NUM_QTD,
                i <= NUM_QTD,
                crate::host::statics::first_free(allocated)
                    == crate::host::statics::first_free_from(allocated, i as int),
                crate::host::statics::first_free(allocated) < NUM_QTD
                    <==> crate::host::statics::free_count(allocated) > 0,
            decreases NUM_QTD - i,
        {
            if !self.statics.qtd_allocated[i] {
                self.statics.qtd_allocated[i] = true;
                return Some(QtdSlot { index: i });
            }
            i = i + 1;
        }
        None
    }

    /// Give back a qTD slot.
    ///
    /// The allocation bitmap flag is cleared and all hardware fields are zeroed so the slot is
    /// ready for reuse, and no stale descriptor is left to the DMA engine.
    pub fn free_qtd(&mut self, slot: QtdSlot)
        requires
            old(self).wf(),
            slot.index < NUM_QTD,
        ensures
            final(self).wf(),
            final(self)@ == old(self)@.free_qtd(slot.index as int),
    {
        let qtd = TransferDescriptor::new();
        self.statics.qtd_allocated[slot.index] = false;
        self.statics.qtd_pool[slot.index] = qtd;
        self.usb.push(Action::StoreQtd { index: slot.index, qtd });
    }

    /// Store the horizontal link of a queue head.
    fn store_link(&mut self, index: usize, link: u32)
        requires
            old(self).wf(),
            index < QH_POOL_LEN,
        ensures
            final(self).wf(),
            final(self)@ == old(self)@.store_link(index as int, link),
    {
        let addr: u32 = self.statics.qh_ptr(index);
        self.statics.qh_pool[index].horizontal_link.write(link);
        self.usb.push(
            Action::StoreWord { addr: addr + QueueHead::HORIZONTAL_LINK_OFFSET, value: link },
        );
        assert(self@.statics =~= old(self)@.statics.with_link(index as int, link));
    }

    /// The pool index of the queue head at an address.
    pub(crate) fn qh_index_at(&self, addr: u32, Ghost(i): Ghost<int>) -> (index: usize)
        requires
            self.wf(),
            0 <= i < QH_POOL_LEN,
            addr == self@.statics.layout.qh_address(i),
        ensures
            index == i,
    {
        ((addr - self.statics.layout.qh_base) / QueueHead::SIZE) as usize
    }

    // -----------------------------------------------------------------------
    // Async schedule management
    // -----------------------------------------------------------------------

    /// Link a QH into the async schedule (after the sentinel at index 0).
    ///
    /// - The QH must be fully initialized.
    /// - Cache must be cleaned after this call.
    pub fn link_qh_to_async_schedule(&mut self, q: usize)
        requires
            old(self).wf(),
            1 <= q <= NUM_QH,
        ensures
            final(self).wf(),
            final(self)@ == old(self)@.link_async(q as int),
            old(self)@.statics.schedules_wf() && !old(self)@.statics.scheduled(q as int) ==> {
                &&& final(self)@.statics.schedules_wf()
                &&& final(self)@.statics.async_ring() == seq![q as int]
                    + old(self)@.statics.async_ring()
                &&& final(self)@.statics.periodic_chain() == old(self)@.statics.periodic_chain()
            },
    {
        // new QH -> sentinel's old successor
        let successor: u32 = self.statics.qh_pool[0].horizontal_link.read();
        self.store_link(q, successor);
        // sentinel -> new QH
        let link: u32 = link_pointer(self.statics.qh_ptr(q), link_type::QH);
        self.store_link(0, link);
        proof {
            let s = old(self)@.statics;
            assert(self@.statics == s.link_async(q as int));
            if s.schedules_wf() && !s.scheduled(q as int) {
                crate::host::links::lemma_link_async(s, q as int);
            }
        }
    }

    /// Unlink a QH from the async schedule.
    ///
    /// Finds the QH that points to `q` and updates its horizontal_link
    /// to skip over `q`. A QH that is not in the schedule is left alone.
    pub fn unlink_qh_from_async_schedule(&mut self, q: usize)
        requires
            old(self).wf(),
            old(self)@.statics.schedules_wf(),
            1 <= q <= NUM_QH,
        ensures
            final(self).wf(),
            final(self)@.statics.schedules_wf(),
            final(self)@.statics.periodic_chain() == old(self)@.statics.periodic_chain(),
            !final(self)@.statics.async_ring().contains(q as int),
            old(self)@.statics.async_ring().contains(q as int) ==> {
                &&& final(self)@ == old(self)@.unlink_async(q as int)
                &&& final(self)@.statics.async_ring() == old(self)@.statics.async_ring().remove(
                    old(self)@.statics.async_ring().index_of(q as int),
                )
            },
            !old(self)@.statics.async_ring().contains(q as int) ==> final(self)@ == old(self)@,
    {
        let ghost s = self@.statics;
        let ghost ring = s.async_ring();
        let target: u32 = link_address(self.statics.qh_ptr(q));
        // Walk the circular list starting from sentinel to find the predecessor
        let mut prev: usize = 0;
        let ghost mut k: int = 0;
        loop
            invariant
                self.wf(),
                self@ == old(self)@,
                s == self@.statics,
                s.schedules_wf(),
                ring == s.async_ring(),
                1 <= q <= NUM_QH,
                target == s.layout.qh_address(q as int),
                0 <= k <= ring.len(),
                prev < QH_POOL_LEN,
                prev == crate::host::links::ring_node(ring, k),
                forall|j: int| 0 <= j < k ==> #[trigger] ring[j] != q,
            decreases ring.len() - k,
        {
            let next_link: u32 = self.statics.qh_pool[prev].horizontal_link.read();
            let next_addr: u32 = link_address(next_link);
            let ghost next = crate::host::links::ring_node(ring, k + 1);
            proof {
                assert(s.links()[crate::host::links::ring_node(ring, k)]
                    == crate::host::links::qh_link(s.layout, next));
                crate::host::links::lemma_qh_link(s.layout, next);
            }
            if next_addr == target {
                // Found it: point prev around q
                let successor: u32 = self.statics.qh_pool[q].horizontal_link.read();
                proof {
                    assert(next == q);
                    assert(ring[k] == q);
                    let m = ring.index_of(q as int);
                    assert(ring[m] == q);
                    assert(m == k);
                    crate::host::links::lemma_unlink_async(s, q as int);
                }
                self.store_link(prev, successor);
                return;
            }
            prev = self.qh_index_at(next_addr, Ghost(next));
            // Back at the sentinel without finding q: it is not in the list
            if prev == 0 {
                proof {
                    if k < ring.len() {
                        assert(ring[k] == 0);
                    }
                    assert forall|j: int| 0 <= j < ring.len() implies #[trigger] ring[j] != q by {
                    }
                }
                return;
            }
            proof {
                k = k + 1;
            }
        }
    }

    // -----------------------------------------------------------------------
    // Periodic schedule management
    // -----------------------------------------------------------------------

    /// Store one link into all entries of the frame list.
    fn store_frames(&mut self, link: u32)
        requires
            old(self).wf(),
        ensures
            final(self).wf(),
            final(self)@ == old(self)@.store_frames(link),
    {
        let ghost s = self@.statics;
        let base: u32 = self.statics.layout.frame_list;
        let mut i: usize = 0;
        while i < FRAME_LIST_LEN
            invariant
                self.wf(),
                i <= FRAME_LIST_LEN,
                s == old(self)@.statics,
                base == s.layout.frame_list,
                base + 4096 < 0x1_0000_0000,
                self@.statics.layout == s.layout,
                self@.statics.qh == s.qh,
                self@.statics.qtd == s.qtd,
                self@.statics.allocated == s.allocated,
                self@.statics.recv == s.recv,
                self@.statics.frames.len() == FRAME_LIST_LEN,
                forall|j: int| 0 <= j < i ==> #[trigger] self@.statics.frames[j] == link,
                self@ == (ControllerView {
                    usb: old(self)@.usb.after(frame_stores(s.layout, link).take(i as int)),
                    statics: self@.statics,
                    ..old(self)@
                }),
            decreases FRAME_LIST_LEN - i,
        {
            let ghost frames = self@.statics.frames;
            self.statics.frame_list.entries[i].write(link);
            self.usb.push(Action::StoreWord { addr: base + 4 * i as u32, value: link });
            proof {
                assert(self@.statics.frames =~= frames.update(i as int, link));
                let stores = frame_stores(s.layout, link);
                assert(stores.take(i + 1) =~= stores.take(i as int).push(stores[i as int]));
                assert(self@.usb.queue =~= old(self)@.usb.queue + stores.take(i + 1));
            }
            i = i + 1;
        }
        proof {
            let stores = frame_stores(s.layout, link);
            assert(stores.take(FRAME_LIST_LEN as int) =~= stores);
            assert(self@.statics.frames =~= FrameList::all(link));
        }
    }

    /// Replace the links of those frame list entries that lead to the address `target`.
    fn replace_frames(&mut self, target: u32, link: u32)
        requires
            old(self).wf(),
            old(self)@.statics.frames == FrameList::all(old(self)@.statics.frames[0]),
        ensures
            final(self).wf(),
            final(self)@ == (if link_address(old(self)@.statics.frames[0]) == target {
                old(self)@.store_frames(link)
            } else {
                old(self)@
            }),
    {
        let ghost s = self@.statics;
        let ghost head = s.frames[0];
        let ghost leads = link_address(head) == target;
        let ghost stores = frame_stores(s.layout, link);
        let base: u32 = self.statics.layout.frame_list;
        let mut i: usize = 0;
        assert(stores.take(0) =~= Seq::empty());
        while i < FRAME_LIST_LEN
            invariant
                self.wf(),
                i <= FRAME_LIST_LEN,
                s == old(self)@.statics,
                stores == frame_stores(s.layout, link),
                leads == (link_address(head) == target),
                base == s.layout.frame_list,
                base + 4096 < 0x1_0000_0000,
                self@.statics == (crate::host::statics::StaticsView {
                    frames: self@.statics.frames,
                    ..s
                }),
                self@.statics.frames.len() == FRAME_LIST_LEN,
                forall|j: int|
                    0 <= j < FRAME_LIST_LEN ==> #[trigger] self@.statics.frames[j] == (if leads && j
                        < i {
                        link
                    } else {
                        head
                    }),
                self@ == (ControllerView {
                    usb: if leads {
                        old(self)@.usb.after(stores.take(i as int))
                    } else {
                        old(self)@.usb
                    },
                    statics: self@.statics,
                    ..old(self)@
                }),
            decreases FRAME_LIST_LEN - i,
        {
            let ghost frames = self@.statics.frames;
            let entry: u32 = self.statics.frame_list.entries[i].read();
            assert(entry == frames[i as int]);
            if link_address(entry) == target {
                self.statics.frame_list.entries[i].write(link);
                self.usb.push(Action::StoreWord { addr: base + 4 * i as u32, value: link });
                proof {
                    assert(self@.statics.frames =~= frames.update(i as int, link));
                    assert(stores.take(i + 1) =~= stores.take(i as int).push(stores[i as int]));
                    assert(self@.usb.queue =~= old(self)@.usb.queue + stores.take(i + 1));
                }
            }
            i = i + 1;
        }
        proof {
            assert(stores.take(FRAME_LIST_LEN as int) =~= stores);
            if leads {
                assert(self@.statics.frames =~= FrameList::all(link));
            } else {
                assert(self@.statics.frames =~= s.frames);
            }
        }
    }

    /// Link a QH into the periodic schedule.
    ///
    /// Inserts `q` at the head of the chain: all 32 frame list entries are
    /// updated to point to `q`, and its horizontal link is set to whatever
    /// the frame list entries previously pointed to (the old head, or TERMINATE).
    ///
    /// - The QH must be fully initialized (characteristics, capabilities, qTD attached).
    /// - Cache must be cleaned after this call.
    pub fn link_qh_to_periodic_schedule(&mut self, q: usize)
        requires
            old(self).wf(),
            1 <= q <= NUM_QH,
        ensures
            final(self).wf(),
            final(self)@ == old(self)@.link_periodic(q as int),
            old(self)@.statics.schedules_wf() && !old(self)@.statics.scheduled(q as int) ==> {
                &&& final(self)@.statics.schedules_wf()
                &&& final(self)@.statics.async_ring() == old(self)@.statics.async_ring()
                &&& final(self)@.statics.periodic_chain() == seq![q as int]
                    + old(self)@.statics.periodic_chain()
            },
    {
        // Read the current head from the first entry (all entries are kept in sync)
        let old_head: u32 = self.statics.frame_list.entries[0].read();
        // New QH -> old head (or TERMINATE if list was empty)
        self.store_link(q, old_head);
        // All frame list entries -> new QH
        let new_link: u32 = link_pointer(self.statics.qh_ptr(q), link_type::QH);
        self.store_frames(new_link);
        proof {
            let s = old(self)@.statics;
            assert(self@.statics == s.link_periodic(q as int));
            if s.schedules_wf() && !s.scheduled(q as int) {
                crate::host::links::lemma_link_periodic(s, q as int);
            }
        }
    }

    /// Unlink a QH from the periodic schedule.
    ///
    /// Finds all references to `q`, either directly in the frame list entries
    /// or via the `horizontal_link` of a predecessor QH, and replaces them with
    /// its own `horizontal_link` (its successor, or TERMINATE). A QH that is not in the
    /// schedule is left alone.
    pub fn unlink_qh_from_periodic_schedule(&mut self, q: usize)
        requires
            old(self).wf(),
            old(self)@.statics.schedules_wf(),
            1 <= q <= NUM_QH,
        ensures
            final(self).wf(),
            final(self)@.statics.schedules_wf(),
            final(self)@.statics.async_ring() == old(self)@.statics.async_ring(),
            !final(self)@.statics.periodic_chain().contains(q as int),
            old(self)@.statics.periodic_chain().contains(q as int) ==> {
                &&& final(self)@ == old(self)@.unlink_periodic(q as int)
                &&& final(self)@.statics.periodic_chain()
                    == old(self)@.statics.periodic_chain().remove(
                    old(self)@.statics.periodic_chain().index_of(q as int),
                )
            },
            !old(self)@.statics.periodic_chain().contains(q as int) ==> final(self)@ == old(self)@,
    {
        let target: u32 = link_address(self.statics.qh_ptr(q));
        let successor: u32 = self.statics.qh_pool[q].horizontal_link.read();
        let ghost before = self@.statics;
        proof {
            let chain = before.periodic_chain();
            crate::host::links::lemma_qh_link(before.layout, 0);
            if chain.len() > 0 {
                crate::host::links::lemma_qh_link(before.layout, chain[0]);
            }
            if chain.contains(q as int) {
                let m = chain.index_of(q as int);
                assert(chain[m] == q);
                crate::host::links::lemma_unlink_periodic(before, q as int);
            }
            if chain.len() > 0 && chain[0] == q {
                assert(chain.index_of(q as int) == 0);
            }
        }
        // Update any frame list entries that point directly to this QH (head case).
        self.replace_frames(target, successor);

        // Walk the chain from the (possibly updated) first frame list entry to find
        // any QH whose horizontal_link points to the target (mid-chain removal).
        let ghost s = self@.statics;
        let ghost chain = s.periodic_chain();
        let ghost led = before.periodic_chain().len() > 0 && before.periodic_chain()[0] == q;
        assert(led ==> self@ == old(self)@.unlink_periodic(q as int) && !chain.contains(q as int));
        assert(!led ==> self@ == old(self)@);
        let head: u32 = self.statics.frame_list.entries[0].read();
        proof {
            if chain.len() > 0 {
                crate::host::links::lemma_qh_link(s.layout, chain[0]);
                assert(chain.contains(chain[0]));
            }
            crate::host::links::lemma_chain_len(chain);
        }
        if !link_is_terminate(head) {
            let mut prev: usize = self.qh_index_at(link_address(head), Ghost(chain[0]));
            let ghost mut k: int = 0;
            // Bound the walk to at most NUM_QH steps to guard against corruption.
            let mut step: usize = 0;
            while step < NUM_QH
                invariant_except_break
                    self@.statics == s,
                    k == step,
                    0 <= k < chain.len(),
                    prev == chain[k],
                    forall|j: int| 0 <= j <= k ==> #[trigger] chain[j] != q,
                    led ==> self@ == old(self)@.unlink_periodic(q as int),
                    !led ==> self@ == old(self)@,
                invariant
                    self.wf(),
                    s.schedules_wf(),
                    chain == s.periodic_chain(),
                    chain.len() <= NUM_QH,
                    led ==> !chain.contains(q as int),
                    !led ==> s == old(self)@.statics,
                    1 <= q <= NUM_QH,
                    target == s.layout.qh_address(q as int),
                    successor == s.qh[q as int].horizontal_link@,
                    step <= NUM_QH,
                ensures
                    led ==> self@ == old(self)@.unlink_periodic(q as int),
                    !led && chain.contains(q as int) ==> self@ == old(self)@.unlink_periodic(
                        q as int,
                    ),
                    !led && !chain.contains(q as int) ==> self@ == old(self)@,
                decreases NUM_QH - step,
            {
                let next_link: u32 = self.statics.qh_pool[prev].horizontal_link.read();
                proof {
                    assert(s.links()[chain[k]] == crate::host::links::chain_link(
                        s.layout,
                        chain,
                        k + 1,
                    ));
                    crate::host::links::lemma_qh_link(s.layout, 0);
                    if k + 1 < chain.len() {
                        crate::host::links::lemma_qh_link(s.layout, chain[k + 1]);
                    }
                }
                if link_is_terminate(next_link) {
                    break;
                }
                if link_address(next_link) == target {
                    proof {
                        assert(chain[k + 1] == q);
                        let m = chain.index_of(q as int);
                        assert(chain[m] == q);
                        assert(m == k + 1);
                    }
                    self.store_link(prev, successor);
                    break;
                }
                prev = self.qh_index_at(link_address(next_link), Ghost(chain[k + 1]));
                proof {
                    k = k + 1;
                }
                step = step + 1;
            }
        }
    }

    // -----------------------------------------------------------------------
    // Async schedule control
    // -----------------------------------------------------------------------

    /// Enable the async schedule if not already enabled.
    pub fn enable_async_schedule(&mut self)
        ensures
            final(self)@ == old(self)@.enable_async(),
    {
        let cmd: u32 = self.usb.read(usb::Reg::Usbcmd);
        if cmd & usb::USBCMD_ASE == 0 {
            self.usb.set_bits(usb::Reg::Usbcmd, usb::USBCMD_ASE);
        }
    }

    /// Ring the async advance doorbell.
    ///
    /// This must be called after unlinking a QH from the async schedule; the controller may
    /// still access the QH until it acknowledges the doorbell.
    pub fn ring_async_advance(&mut self)
        ensures
            final(self)@ == old(self)@.ring_doorbell(),
    {
        // Set IAA (Interrupt on Async Advance) bit in USBCMD
        self.usb.set_bits(usb::Reg::Usbcmd, usb::USBCMD_IAA);
    }

    // -----------------------------------------------------------------------
    // Cache maintenance
    // -----------------------------------------------------------------------

    /// Clean and invalidate a QH for DMA.
    pub fn cache_clean_qh(&mut self, index: usize)
        requires
            old(self).wf(),
            index < QH_POOL_LEN,
        ensures
            final(self).wf(),
            final(self)@ == old(self)@.clean_qh(index as int),
    {
        let addr: u32 = self.statics.qh_ptr(index);
        self.usb.push(Action::CleanInvalidate { addr, size: QueueHead::SIZE });
    }

    /// Clean and invalidate a qTD for DMA.
    pub fn cache_clean_qtd(&mut self, index: usize)
        requires
            old(self).wf(),
            index < NUM_QTD,
        ensures
            final(self).wf(),
            final(self)@ == old(self)@.clean_qtd(index as int),
    {
        let addr: u32 = self.statics.qtd_ptr(index);
        self.usb.push(Action::CleanInvalidate { addr, size: TransferDescriptor::SIZE });
    }

    /// Clean and invalidate a data buffer for DMA.
    pub fn cache_clean_buffer(&mut self, addr: u32, len: usize)
        ensures
            final(self)@ == old(self)@.clean_buffer(addr, len),
    {
        if len > 0 {
            self.usb.push(Action::CleanInvalidate { addr, size: len as u32 });
        }
    }

    // -----------------------------------------------------------------------
    // Combined link + cache + enable helpers
    // -----------------------------------------------------------------------

    /// Link a QH into the async schedule with full cache maintenance.
    ///
    /// Cleans both the QH and sentinel before and after linking, then
    /// enables the async schedule.
    ///
    /// The QH and its attached qTD chain must be fully initialized and
    /// cache-cleaned before calling this.
    pub fn link_and_start_async(&mut self, q: usize)
        requires
            old(self).wf(),
            1 <= q <= NUM_QH,
        ensures
            final(self).wf(),
            final(self)@ == old(self)@.start_async(q as int),
            old(self)@.statics.schedules_wf() && !old(self)@.statics.scheduled(q as int) ==> {
                &&& final(self)@.statics.schedules_wf()
                &&& final(self)@.statics.async_ring() == seq![q as int]
                    + old(self)@.statics.async_ring()
                &&& final(self)@.statics.periodic_chain() == old(self)@.statics.periodic_chain()
            },
    {
        self.cache_clean_qh(q);
        self.cache_clean_qh(0);
        self.link_qh_to_async_schedule(q);
        // Re-clean after linking (horizontal_links of both QH and sentinel changed)
        self.cache_clean_qh(q);
        self.cache_clean_qh(0);
        self.enable_async_schedule();
    }

    /// Unlink a QH from the async schedule and ring the async advance doorbell.
    ///
    /// Unlinks the QH, cleans the sentinel, and rings the async advance doorbell. The
    /// controller may still access the QH until it acknowledges the doorbell.
    pub fn unlink_and_stop_async(&mut self, q: usize)
        requires
            old(self).wf(),
            old(self)@.statics.schedules_wf(),
            1 <= q <= NUM_QH,
            old(self)@.statics.async_ring().contains(q as int),
        ensures
            final(self).wf(),
            final(self)@ == old(self)@.stop_async(q as int),
            final(self)@.statics.schedules_wf(),
            final(self)@.statics.async_ring() == old(self)@.statics.async_ring().remove(
                old(self)@.statics.async_ring().index_of(q as int),
            ),
            final(self)@.statics.periodic_chain() == old(self)@.statics.periodic_chain(),
            !final(self)@.statics.scheduled(q as int),
    {
        proof {
            crate::host::links::lemma_unlink_async(self@.statics, q as int);
        }
        self.unlink_qh_from_async_schedule(q);
        self.cache_clean_qh(0);
        self.ring_async_advance();
    }
}

} // verus!
