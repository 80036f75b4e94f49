//! What each operation of the driver does to the images and to the queue of actions.
//!
//! These laws say it field by field and action by action, in terms of addresses and register
//! bits.

use crate::action::Action;
use crate::ehci::{FrameList, QueueHead, TransferDescriptor, FRAME_LIST_LEN};
use crate::host::controller::ControllerView;
use crate::host::pools::UsbPools;
use crate::host::statics::{DmaLayout, RecvBuf, StaticsView, MAX_BUFFER_ADDR};
use crate::host::types::Buffer;
use crate::host::{
    NUM_BULK_PIPES, NUM_CONTROL_PIPES, NUM_PIPE_WAKERS, NUM_QH, NUM_QTD, NUM_RECV_BUFS,
    QH_POOL_LEN,
};
use crate::ral::{usb, usbphy};
use crate::vcell::VCell;
use vstd::prelude::*;

verus! {

// ---------------------------------------------------------------------------
// Sizes and addresses
// ---------------------------------------------------------------------------

/// The sizes of the pools and of what is in them, and where the words that are stored one by one
/// lie in a queue head.
pub proof fn lemma_sizes()
    ensures
        NUM_QH == 4,
        NUM_QTD == 16,
        QH_POOL_LEN == 5,
        NUM_CONTROL_PIPES == 1,
        NUM_BULK_PIPES == 3,
        NUM_RECV_BUFS == 3,
        NUM_PIPE_WAKERS == 5,
        FRAME_LIST_LEN == 32,
        MAX_BUFFER_ADDR == 0xFFFF_BFFF,
        QueueHead::SIZE == 64,
        QueueHead::ALIGN == 64,
        QueueHead::HORIZONTAL_LINK_OFFSET == 0,
        QueueHead::OVERLAY_NEXT_OFFSET == 16,
        QueueHead::SW_FLAGS_OFFSET == 56,
        TransferDescriptor::SIZE == 32,
        TransferDescriptor::ALIGN == 32,
        RecvBuf::SIZE == 64,
        RecvBuf::ALIGN == 32,
        FrameList::SIZE == 4096,
        crate::host::transfer::CONTROL_QH == 1,
        crate::host::interrupt_pipe::FRAME_DELAY_CYCLES == 1_200_000,
        crate::host::diagnostics::MAX_NAMED == 5,
{
}

/// The structures of each pool follow one another from its base address on.
pub proof fn lemma_addresses(layout: DmaLayout, i: int)
    requires
        layout.wf(),
        0 <= i,
    ensures
        i < 5 ==> layout.qh_address(i) == layout.qh_base + 64 * i,
        i < 16 ==> layout.qtd_address(i) == layout.qtd_base + 32 * i,
        i < 32 ==> layout.frame_address(i) == layout.frame_list + 4 * i,
        i < 3 ==> layout.recv_address(i) == layout.recv_base + 64 * i,
{
}

/// Which layouts, buffers, and pools the driver can use.
pub proof fn lemma_usable(layout: DmaLayout, buffer: Buffer, s: StaticsView, pools: UsbPools)
    ensures
        layout.wf() <==> {
            &&& layout.qh_base % 64 == 0
            &&& layout.qh_base + 320 <= 0xFFFF_FFFF
            &&& layout.qtd_base % 32 == 0
            &&& layout.qtd_base + 512 <= 0xFFFF_FFFF
            &&& layout.frame_list % 4096 == 0
            &&& layout.frame_list + 4096 <= 0xFFFF_FFFF
            &&& layout.recv_base % 32 == 0
            &&& layout.recv_base + 192 <= 0xFFFF_BFFF
        },
        buffer.wf() <==> buffer.addr <= 0xFFFF_BFFF && buffer.addr + buffer.len <= 0xFFFF_FFE0,
        s.wf() <==> {
            &&& s.layout.wf()
            &&& s.qh.len() == 5
            &&& s.qtd.len() == 16
            &&& s.frames.len() == 32
            &&& s.allocated.len() == 16
            &&& s.recv.len() == 3
            &&& s.recv[0].addr == s.layout.recv_base
            &&& s.recv[1].addr == s.layout.recv_base + 64
            &&& s.recv[2].addr == s.layout.recv_base + 128
        },
        pools.wf() <==> crate::host::pools::pool_size(pools.control_pipes) == 1
            && crate::host::pools::pool_size(pools.bulk_pipes) == 3,
{
    if s.layout.wf() {
        lemma_addresses(s.layout, 0);
        lemma_addresses(s.layout, 1);
        lemma_addresses(s.layout, 2);
    }
}

// ---------------------------------------------------------------------------
// Single effects
// ---------------------------------------------------------------------------

/// Storing a queue head or a descriptor replaces that structure in the image, queues the store of
/// it, and changes nothing else.
pub proof fn lemma_store(hc: ControllerView, i: int, qh: QueueHead, qtd: TransferDescriptor)
    ensures
        hc.store_qh(i, qh) == (ControllerView {
            statics: StaticsView { qh: hc.statics.qh.update(i, qh), ..hc.statics },
            usb: usb::InstanceView {
                queue: hc.usb.queue.push(Action::StoreQh { index: i as usize, qh }),
                ..hc.usb
            },
            ..hc
        }),
        hc.store_qtd(i, qtd) == (ControllerView {
            statics: StaticsView { qtd: hc.statics.qtd.update(i, qtd), ..hc.statics },
            usb: usb::InstanceView {
                queue: hc.usb.queue.push(Action::StoreQtd { index: i as usize, qtd }),
                ..hc.usb
            },
            ..hc
        }),
{
}

/// Storing a link changes the first word of a queue head, and nothing else; clearing its flags
/// changes the byte at offset 56 only.
pub proof fn lemma_store_part(hc: ControllerView, i: int, link: u32)
    requires
        hc.wf(),
        0 <= i < 5,
    ensures
        hc.store_link(i, link) == (ControllerView {
            statics: StaticsView {
                qh: hc.statics.qh.update(
                    i,
                    QueueHead { horizontal_link: VCell(link), ..hc.statics.qh[i] },
                ),
                ..hc.statics
            },
            usb: usb::InstanceView {
                queue: hc.usb.queue.push(
                    Action::StoreWord {
                        addr: (hc.statics.layout.qh_base + 64 * i) as u32,
                        value: link,
                    },
                ),
                ..hc.usb
            },
            ..hc
        }),
        hc.clear_flags(i) == (ControllerView {
            statics: StaticsView {
                qh: hc.statics.qh.update(
                    i,
                    QueueHead { sw_flags: VCell(0), ..hc.statics.qh[i] },
                ),
                ..hc.statics
            },
            usb: usb::InstanceView {
                queue: hc.usb.queue.push(
                    Action::StoreByte {
                        addr: (hc.statics.layout.qh_base + 64 * i + 56) as u32,
                        byte: 0,
                    },
                ),
                ..hc.usb
            },
            ..hc
        }),
{
}

/// Storing a link into the frame list stores it into each of its 32 entries, from the first to
/// the last, and changes nothing else.
pub proof fn lemma_store_frames(hc: ControllerView, link: u32)
    ensures
        ({
            let after = hc.store_frames(link);
            &&& after == (ControllerView {
                statics: StaticsView { frames: after.statics.frames, ..hc.statics },
                usb: usb::InstanceView { queue: after.usb.queue, ..hc.usb },
                ..hc
            })
            &&& after.statics.frames.len() == 32
            &&& forall|i: int| 0 <= i < 32 ==> #[trigger] after.statics.frames[i] == link
            &&& after.usb.queue.len() == hc.usb.queue.len() + 32
            &&& after.usb.queue.take(hc.usb.queue.len() as int) == hc.usb.queue
            &&& forall|i: int|
                0 <= i < 32 ==> #[trigger] after.usb.queue[hc.usb.queue.len() + i] == (
                Action::StoreWord {
                    addr: (hc.statics.layout.frame_list + 4 * i) as u32,
                    value: link,
                })
        }),
{
    let after = hc.store_frames(link);
    let n = hc.usb.queue.len() as int;
    assert(after.usb.queue.take(n) =~= hc.usb.queue);
    assert forall|i: int| 0 <= i < 32 implies #[trigger] after.usb.queue[n + i] == (
    Action::StoreWord { addr: (hc.statics.layout.frame_list + 4 * i) as u32, value: link }) by {
        assert(after.usb.queue[n + i] == crate::host::schedule::frame_stores(
            hc.statics.layout,
            link,
        )[i]);
    }
}

/// Allocation takes the lowest free slot: if `i` is free and all slots below it are not, it marks
/// `i`, and changes nothing else. Freeing marks a slot as free and makes its descriptor blank.
pub proof fn lemma_alloc_free(hc: ControllerView, i: int)
    requires
        hc.wf(),
        0 <= i < 16,
    ensures
        !hc.statics.allocated[i] && (forall|j: int|
            0 <= j < i ==> #[trigger] hc.statics.allocated[j]) ==> {
            &&& crate::host::statics::first_free(hc.statics.allocated) == i
            &&& hc.alloc_qtd() == (ControllerView {
                statics: StaticsView {
                    allocated: hc.statics.allocated.update(i, true),
                    ..hc.statics
                },
                ..hc
            })
        },
        ({
            let after = hc.free_qtd(i);
            let blank = after.statics.qtd[i];
            &&& after == (ControllerView {
                statics: StaticsView {
                    allocated: hc.statics.allocated.update(i, false),
                    qtd: hc.statics.qtd.update(i, blank),
                    ..hc.statics
                },
                usb: usb::InstanceView {
                    queue: hc.usb.queue.push(Action::StoreQtd { index: i as usize, qtd: blank }),
                    ..hc.usb
                },
                ..hc
            })
            &&& blank.next@ == 1
            &&& blank.alt_next@ == 1
            &&& blank.token@ == 0
            &&& forall|k: int| 0 <= k < 5 ==> (#[trigger] blank.buffer[k])@ == 0
        }),
{
    crate::ehci::qtd::lemma_blank();
    let a = hc.statics.allocated;
    crate::host::statics::lemma_first_free(a, 0);
    let f = crate::host::statics::first_free(a);
    if !a[i] && (forall|j: int| 0 <= j < i ==> #[trigger] a[j]) {
        if f < i {
            assert(a[f]);
        }
        assert(f == i);
    }
}

/// A bitmap without slots has no free slot, and each slot counts if it is not allocated.
pub proof fn lemma_free_count(allocated: Seq<bool>, i: int)
    ensures
        allocated.len() == 0 ==> crate::host::statics::free_count(allocated) == 0,
        0 <= i < allocated.len() ==> crate::host::statics::free_count(allocated)
            == crate::host::statics::free_count(allocated.remove(i)) + (if allocated[i] {
            0int
        } else {
            1
        }),
    decreases allocated.len(),
{
    if 0 <= i < allocated.len() {
        let rest = allocated.drop_last();
        let removed = allocated.remove(i);
        if i == allocated.len() - 1 {
            assert(removed =~= rest);
        } else {
            lemma_free_count(rest, i);
            assert(removed.drop_last() =~= rest.remove(i));
            assert(rest[i] == allocated[i]);
            assert(removed.last() == allocated.last());
            assert(crate::host::statics::free_count(removed) == crate::host::statics::free_count(
                removed.drop_last(),
            ) + (if removed.last() {
                0int
            } else {
                1
            }));
        }
    }
}

/// Cache maintenance is over all of a structure, or over all bytes of a buffer that has any; it
/// changes no image.
pub proof fn lemma_clean(hc: ControllerView, i: int, addr: u32, len: usize)
    requires
        hc.wf(),
        0 <= i,
    ensures
        i < 5 ==> hc.clean_qh(i) == (ControllerView {
            usb: usb::InstanceView {
                queue: hc.usb.queue.push(
                    Action::CleanInvalidate {
                        addr: (hc.statics.layout.qh_base + 64 * i) as u32,
                        size: 64,
                    },
                ),
                ..hc.usb
            },
            ..hc
        }),
        i < 16 ==> hc.clean_qtd(i) == (ControllerView {
            usb: usb::InstanceView {
                queue: hc.usb.queue.push(
                    Action::CleanInvalidate {
                        addr: (hc.statics.layout.qtd_base + 32 * i) as u32,
                        size: 32,
                    },
                ),
                ..hc.usb
            },
            ..hc
        }),
        hc.clean_frame_list() == (ControllerView {
            usb: usb::InstanceView {
                queue: hc.usb.queue.push(
                    Action::CleanInvalidate { addr: hc.statics.layout.frame_list, size: 4096 },
                ),
                ..hc.usb
            },
            ..hc
        }),
        len > 0 ==> hc.clean_buffer(addr, len) == (ControllerView {
            usb: usb::InstanceView {
                queue: hc.usb.queue.push(Action::CleanInvalidate { addr, size: len as u32 }),
                ..hc.usb
            },
            ..hc
        }),
        len == 0 ==> hc.clean_buffer(addr, len) == hc,
{
}

/// What is done to the registers of the core, to the PHY, or to the queue, is done to them only.
pub proof fn lemma_controller_registers(
    hc: ControllerView,
    reg: usb::Reg,
    value: u32,
    phy: usbphy::Reg,
    action: Action,
    actions: Seq<Action>,
    statics: StaticsView,
)
    ensures
        hc.write(reg, value) == (ControllerView { usb: hc.usb.write(reg, value), ..hc }),
        hc.set_bits(reg, value) == (ControllerView { usb: hc.usb.set_bits(reg, value), ..hc }),
        hc.write_phy(phy, value) == (ControllerView {
            usb: usb::InstanceView {
                queue: hc.usb.queue.push(Action::WritePhy { phy, value }),
                ..hc.usb
            },
            ..hc
        }),
        hc.push(action) == (ControllerView {
            usb: usb::InstanceView { queue: hc.usb.queue.push(action), ..hc.usb },
            ..hc
        }),
        hc.after(actions) == (ControllerView {
            usb: usb::InstanceView { queue: hc.usb.queue + actions, ..hc.usb },
            ..hc
        }),
        hc.with_statics(statics) == (ControllerView { statics, ..hc }),
{
}

// ---------------------------------------------------------------------------
// Schedules
// ---------------------------------------------------------------------------

/// The async schedule is a ring: following the links from the sentinel on, the controller visits
/// the queue heads of `ring` one after the other, and is then back at the sentinel.
pub proof fn lemma_ring_links(s: StaticsView, ring: Seq<int>)
    requires
        s.wf(),
    ensures
        s.is_async_ring(ring) <==> {
            &&& ring.no_duplicates()
            &&& forall|k: int| 0 <= k < ring.len() ==> 1 <= #[trigger] ring[k] <= 4
            &&& s.qh[0].horizontal_link@ == s.layout.qh_base + 2 + (if ring.len() > 0 {
                64 * ring[0]
            } else {
                0
            })
            &&& forall|k: int|
                0 <= k < ring.len() ==> (#[trigger] s.qh[ring[k]]).horizontal_link@
                    == s.layout.qh_base + 2 + (if k + 1 < ring.len() {
                    64 * ring[k + 1]
                } else {
                    0
                })
        },
{
    let links = s.links();
    if s.is_async_ring(ring) {
        lemma_ring_target(s.layout, ring, 0);
        assert(links[crate::host::links::ring_node(ring, 0)] == s.qh[0].horizontal_link@);
        assert forall|k: int| 0 <= k < ring.len() implies (#[trigger] s.qh[ring[k]]).horizontal_link@
            == s.layout.qh_base + 2 + (if k + 1 < ring.len() {
            64 * ring[k + 1]
        } else {
            0
        }) by {
            lemma_ring_target(s.layout, ring, k + 1);
            assert(links[crate::host::links::ring_node(ring, k + 1)] == crate::host::links::qh_link(
                s.layout,
                crate::host::links::ring_node(ring, k + 2),
            ));
        }
    }
    if ring.no_duplicates() && (forall|k: int| 0 <= k < ring.len() ==> 1 <= #[trigger] ring[k] <= 4)
        && s.qh[0].horizontal_link@ == s.layout.qh_base + 2 + (if ring.len() > 0 {
        64 * ring[0]
    } else {
        0
    }) && (forall|k: int|
        0 <= k < ring.len() ==> (#[trigger] s.qh[ring[k]]).horizontal_link@ == s.layout.qh_base + 2
            + (if k + 1 < ring.len() {
            64 * ring[k + 1]
        } else {
            0
        })) {
        assert forall|k: int|
            0 <= k <= ring.len() implies #[trigger] links[crate::host::links::ring_node(ring, k)]
            == crate::host::links::qh_link(
            s.layout,
            crate::host::links::ring_node(ring, k + 1),
        ) by {
            lemma_ring_target(s.layout, ring, k);
            if k > 0 {
                assert(s.qh[ring[k - 1]].horizontal_link@ == links[ring[k - 1]]);
            }
        }
    }
}

proof fn lemma_ring_target(layout: DmaLayout, ring: Seq<int>, k: int)
    requires
        layout.wf(),
        0 <= k <= ring.len(),
        forall|k: int| 0 <= k < ring.len() ==> 1 <= #[trigger] ring[k] <= 4,
    ensures
        crate::host::links::qh_link(layout, crate::host::links::ring_node(ring, k + 1))
            == layout.qh_base + 2 + (if k < ring.len() {
            64 * ring[k]
        } else {
            0
        }),
{
    lemma_qh_link_sum(layout, crate::host::links::ring_node(ring, k + 1));
}

/// The link to a queue head is its address, marked as that of a queue head.
pub proof fn lemma_qh_link_sum(layout: DmaLayout, i: int)
    requires
        layout.wf(),
        0 <= i < 5,
    ensures
        crate::host::links::qh_link(layout, i) == layout.qh_base + 64 * i + 2,
{
    crate::ehci::lemma_codes();
    crate::ehci::lemma_link_sum(layout.qh_address(i), crate::ehci::link_type::QH, 0);
}

/// The periodic schedule is the same chain in every frame: each frame list entry leads to the
/// first queue head of `chain`, each queue head to the next one, and the last one nowhere.
pub proof fn lemma_chain_links(s: StaticsView, chain: Seq<int>)
    requires
        s.wf(),
    ensures
        s.is_periodic_chain(chain) <==> {
            &&& chain.no_duplicates()
            &&& forall|k: int| 0 <= k < chain.len() ==> 1 <= #[trigger] chain[k] <= 4
            &&& forall|f: int|
                0 <= f < 32 ==> #[trigger] s.frames[f] == (if chain.len() > 0 {
                    s.layout.qh_base + 64 * chain[0] + 2
                } else {
                    1
                })
            &&& forall|k: int|
                0 <= k < chain.len() ==> (#[trigger] s.qh[chain[k]]).horizontal_link@ == (if k + 1
                    < chain.len() {
                    s.layout.qh_base + 64 * chain[k + 1] + 2
                } else {
                    1
                })
        },
{
    crate::ehci::qtd::lemma_token_bits();
    let links = s.links();
    if chain.no_duplicates() && (forall|k: int|
        0 <= k < chain.len() ==> 1 <= #[trigger] chain[k] <= 4) {
        assert forall|k: int| 0 <= k <= chain.len() implies #[trigger] crate::host::links::chain_link(
            s.layout,
            chain,
            k,
        ) == (if k < chain.len() {
            s.layout.qh_base + 64 * chain[k] + 2
        } else {
            1
        }) by {
            if k < chain.len() {
                lemma_qh_link_sum(s.layout, chain[k]);
            }
        }
        let head = crate::host::links::chain_link(s.layout, chain, 0);
        if s.is_periodic_chain(chain) {
            assert forall|f: int| 0 <= f < 32 implies #[trigger] s.frames[f] == head by {
                assert(s.frames[f] == FrameList::all(s.frames[0])[f]);
            }
            assert forall|k: int| 0 <= k < chain.len() implies (#[trigger] s.qh[chain[k]]).horizontal_link@
                == crate::host::links::chain_link(s.layout, chain, k + 1) by {
                assert(links[chain[k]] == s.qh[chain[k]].horizontal_link@);
            }
        } else if (forall|f: int|
            0 <= f < 32 ==> #[trigger] s.frames[f] == (if chain.len() > 0 {
                s.layout.qh_base + 64 * chain[0] + 2
            } else {
                1
            })) && (forall|k: int|
            0 <= k < chain.len() ==> (#[trigger] s.qh[chain[k]]).horizontal_link@ == (if k + 1
                < chain.len() {
                s.layout.qh_base + 64 * chain[k + 1] + 2
            } else {
                1
            })) {
            assert(s.frames[0] == head);
            assert(s.frames =~= FrameList::all(s.frames[0]));
            assert forall|k: int| 0 <= k < chain.len() implies #[trigger] links[chain[k]]
                == crate::host::links::chain_link(s.layout, chain, k + 1) by {
                assert(links[chain[k]] == s.qh[chain[k]].horizontal_link@);
            }
        }
    }
}

/// The schedules are well-formed exactly if the links make a ring and a chain that have no queue
/// head in common; these are then what the schedules hold.
pub proof fn lemma_schedules_exist(s: StaticsView, ring: Seq<int>, chain: Seq<int>, q: int)
    requires
        s.wf(),
        s.is_async_ring(ring),
        s.is_periodic_chain(chain),
    ensures
        s.async_ring() == ring,
        s.periodic_chain() == chain,
        s.schedules_wf() <==> (forall|i: int| !(#[trigger] ring.contains(i) && chain.contains(i))),
        s.scheduled(q) <==> ring.contains(q) || chain.contains(q),
        s.running(q) <==> s.schedules_wf() && ring.contains(q),
{
    crate::host::links::lemma_ring_unique(s.layout, s.links(), ring, s.async_ring());
    crate::host::links::lemma_chain_unique(
        s.layout,
        s.links(),
        s.frames[0],
        chain,
        s.periodic_chain(),
    );
}

/// Schedules are well-formed only if there are a ring and a chain.
pub proof fn lemma_schedules_only(s: StaticsView)
    requires
        s.schedules_wf(),
    ensures
        s.wf(),
        s.is_async_ring(s.async_ring()),
        s.is_periodic_chain(s.periodic_chain()),
        forall|i: int|
            !(#[trigger] s.async_ring().contains(i) && s.periodic_chain().contains(i)),
{
}

/// Linking a queue head into the async schedule puts it right behind the sentinel: it leads where
/// the sentinel led, and the sentinel leads to it. The queue head is stored first, so that the
/// controller finds a ring at any time.
pub proof fn lemma_link_async_effect(hc: ControllerView, q: int)
    requires
        hc.wf(),
        1 <= q <= 4,
    ensures
        ({
            let base = hc.statics.layout.qh_base;
            let led = hc.statics.qh[0].horizontal_link@;
            let link = (base + 64 * q + 2) as u32;
            &&& hc.link_async(q) == (ControllerView {
                statics: StaticsView {
                    qh: hc.statics.qh.update(
                        q,
                        QueueHead { horizontal_link: VCell(led), ..hc.statics.qh[q] },
                    ).update(
                        0,
                        QueueHead { horizontal_link: VCell(link), ..hc.statics.qh[0] },
                    ),
                    ..hc.statics
                },
                usb: usb::InstanceView {
                    queue: hc.usb.queue.push(
                        Action::StoreWord { addr: (base + 64 * q) as u32, value: led },
                    ).push(Action::StoreWord { addr: base, value: link }),
                    ..hc.usb
                },
                ..hc
            })
            &&& hc.statics.link_async(q) == hc.link_async(q).statics
        }),
{
    lemma_qh_link_sum(hc.statics.layout, q);
    lemma_store_part(hc, q, hc.statics.qh[0].horizontal_link@);
}

/// Starting a queue head: the queue head and the sentinel are written back from the cache, linked,
/// and written back again; only then is the async schedule enabled, unless it was enabled before.
pub proof fn lemma_start_async(hc: ControllerView, q: int)
    requires
        hc.wf(),
        1 <= q <= 4,
    ensures
        ({
            let after = hc.start_async(q);
            let base = hc.statics.layout.qh_base;
            let clean_q = Action::CleanInvalidate { addr: (base + 64 * q) as u32, size: 64 };
            let clean_sentinel = Action::CleanInvalidate { addr: base, size: 64 };
            let enabled = hc.usb.regs.usbcmd & 0x20 != 0;
            &&& after.statics == hc.link_async(q).statics
            &&& after.usb.queue == hc.usb.queue + seq![
                clean_q,
                clean_sentinel,
                Action::StoreWord {
                    addr: (base + 64 * q) as u32,
                    value: hc.statics.qh[0].horizontal_link@,
                },
                Action::StoreWord { addr: base, value: (base + 64 * q + 2) as u32 },
                clean_q,
                clean_sentinel,
            ] + (if enabled {
                Seq::empty()
            } else {
                seq![Action::ModifyUsb { reg: usb::Reg::Usbcmd, clear: 0, set: 0x20 }]
            })
            &&& after.usb.addr == hc.usb.addr
            &&& after.usb.regs == (usb::RegisterBlock {
                usbcmd: if enabled {
                    hc.usb.regs.usbcmd
                } else {
                    hc.usb.regs.usbcmd | 0x20
                },
                ..hc.usb.regs
            })
            &&& after == (ControllerView { usb: after.usb, statics: after.statics, ..hc })
        }),
{
    usb::lemma_register_bits();
    lemma_qh_link_sum(hc.statics.layout, q);
    lemma_link_async_effect(hc.clean_qh(q).clean_qh(0), q);
    let after = hc.start_async(q);
    let base = hc.statics.layout.qh_base;
    let clean_q = Action::CleanInvalidate { addr: (base + 64 * q) as u32, size: 64 };
    let clean_sentinel = Action::CleanInvalidate { addr: base, size: 64 };
    let six = seq![
        clean_q,
        clean_sentinel,
        Action::StoreWord {
            addr: (base + 64 * q) as u32,
            value: hc.statics.qh[0].horizontal_link@,
        },
        Action::StoreWord { addr: base, value: (base + 64 * q + 2) as u32 },
        clean_q,
        clean_sentinel,
    ];
    let linked = hc.clean_qh(q).clean_qh(0).link_async(q).clean_qh(q).clean_qh(0);
    assert(linked.usb.queue =~= hc.usb.queue + six);
    assert(hc.usb.queue + six + Seq::<Action>::empty() =~= hc.usb.queue + six);
    assert(linked.usb.regs == hc.usb.regs);
    assert(linked.usb.queue.push(
        Action::ModifyUsb { reg: usb::Reg::Usbcmd, clear: 0, set: 0x20 },
    ) =~= hc.usb.queue + six + seq![
        Action::ModifyUsb { reg: usb::Reg::Usbcmd, clear: 0, set: 0x20 },
    ]);
}

/// Unlinking a queue head from the async schedule: the one of the ring that leads to it (`p`)
/// leads to where it leads; nothing else changes, and it still leads there itself.
pub proof fn lemma_unlink_async_effect(hc: ControllerView, q: int, p: int)
    requires
        hc.statics.schedules_wf(),
        hc.statics.async_ring().contains(q),
        p == 0 || hc.statics.async_ring().contains(p),
        hc.statics.qh[p].horizontal_link@ == hc.statics.layout.qh_base + 64 * q + 2,
    ensures
        ({
            let led = hc.statics.qh[q].horizontal_link@;
            &&& hc.unlink_async(q) == (ControllerView {
                statics: StaticsView {
                    qh: hc.statics.qh.update(
                        p,
                        QueueHead { horizontal_link: VCell(led), ..hc.statics.qh[p] },
                    ),
                    ..hc.statics
                },
                usb: usb::InstanceView {
                    queue: hc.usb.queue.push(
                        Action::StoreWord {
                            addr: (hc.statics.layout.qh_base + 64 * p) as u32,
                            value: led,
                        },
                    ),
                    ..hc.usb
                },
                ..hc
            })
            &&& hc.statics.unlink_async(q) == hc.unlink_async(q).statics
        }),
{
    let s = hc.statics;
    let ring = s.async_ring();
    let m = ring.index_of(q);
    assert(ring[m] == q);
    let k = if p == 0 {
        0
    } else {
        ring.index_of(p) + 1
    };
    if p != 0 {
        assert(ring[k - 1] == p);
    }
    assert(crate::host::links::ring_node(ring, k) == p);
    assert(s.links()[crate::host::links::ring_node(ring, k)] == crate::host::links::qh_link(
        s.layout,
        crate::host::links::ring_node(ring, k + 1),
    ));
    let next = crate::host::links::ring_node(ring, k + 1);
    lemma_qh_link_sum(s.layout, next);
    assert(next == q);
    assert(k == m);
}

/// Stopping a queue head: it is unlinked, the sentinel is written back from the cache, and then
/// the doorbell is rung.
pub proof fn lemma_stop_async(hc: ControllerView, q: int)
    requires
        hc.wf(),
    ensures
        ({
            let after = hc.stop_async(q);
            let unlinked = hc.unlink_async(q);
            &&& after.statics == unlinked.statics
            &&& after.usb.queue == unlinked.usb.queue + seq![
                Action::CleanInvalidate { addr: hc.statics.layout.qh_base, size: 64 },
                Action::ModifyUsb { reg: usb::Reg::Usbcmd, clear: 0, set: 0x40 },
            ]
            &&& after.usb.addr == hc.usb.addr
            &&& after.usb.regs == (usb::RegisterBlock {
                usbcmd: hc.usb.regs.usbcmd | 0x40,
                ..hc.usb.regs
            })
            &&& after == (ControllerView { usb: after.usb, statics: after.statics, ..hc })
        }),
{
    usb::lemma_register_bits();
    let after = hc.stop_async(q);
    assert(after.usb.queue =~= hc.unlink_async(q).usb.queue + seq![
        Action::CleanInvalidate { addr: hc.statics.layout.qh_base, size: 64 },
        Action::ModifyUsb { reg: usb::Reg::Usbcmd, clear: 0, set: 0x40 },
    ]);
}

/// Enabling the async schedule sets bit 5 of USBCMD if it is not set, and does nothing otherwise;
/// the doorbell is bit 6.
pub proof fn lemma_async_bits(hc: ControllerView)
    ensures
        hc.usb.regs.usbcmd & 0x20 != 0 ==> hc.enable_async() == hc,
        hc.usb.regs.usbcmd & 0x20 == 0 ==> hc.enable_async() == (ControllerView {
            usb: usb::InstanceView {
                regs: usb::RegisterBlock {
                    usbcmd: hc.usb.regs.usbcmd | 0x20,
                    ..hc.usb.regs
                },
                queue: hc.usb.queue.push(
                    Action::ModifyUsb { reg: usb::Reg::Usbcmd, clear: 0, set: 0x20 },
                ),
                ..hc.usb
            },
            ..hc
        }),
        hc.ring_doorbell() == (ControllerView {
            usb: usb::InstanceView {
                regs: usb::RegisterBlock {
                    usbcmd: hc.usb.regs.usbcmd | 0x40,
                    ..hc.usb.regs
                },
                queue: hc.usb.queue.push(
                    Action::ModifyUsb { reg: usb::Reg::Usbcmd, clear: 0, set: 0x40 },
                ),
                ..hc.usb
            },
            ..hc
        }),
{
    usb::lemma_register_bits();
}

/// Linking a queue head into the periodic schedule puts it in front: it leads where the frames
/// led, and all frames lead to it. The queue head is stored first.
pub proof fn lemma_link_periodic_effect(hc: ControllerView, q: int)
    requires
        hc.wf(),
        1 <= q <= 4,
    ensures
        ({
            let after = hc.link_periodic(q);
            let base = hc.statics.layout.qh_base;
            let n = hc.usb.queue.len() as int;
            &&& after == (ControllerView {
                statics: StaticsView {
                    qh: hc.statics.qh.update(
                        q,
                        QueueHead {
                            horizontal_link: VCell(hc.statics.frames[0]),
                            ..hc.statics.qh[q]
                        },
                    ),
                    frames: after.statics.frames,
                    ..hc.statics
                },
                usb: usb::InstanceView { queue: after.usb.queue, ..hc.usb },
                ..hc
            })
            &&& after.statics.frames.len() == 32
            &&& forall|i: int|
                0 <= i < 32 ==> #[trigger] after.statics.frames[i] == base + 64 * q + 2
            &&& after.usb.queue.len() == n + 33
            &&& after.usb.queue.take(n) == hc.usb.queue
            &&& after.usb.queue[n] == (Action::StoreWord {
                addr: (base + 64 * q) as u32,
                value: hc.statics.frames[0],
            })
            &&& forall|i: int|
                0 <= i < 32 ==> #[trigger] after.usb.queue[n + 1 + i] == (Action::StoreWord {
                    addr: (hc.statics.layout.frame_list + 4 * i) as u32,
                    value: (base + 64 * q + 2) as u32,
                })
            &&& hc.statics.link_periodic(q) == after.statics
        }),
{
    lemma_qh_link_sum(hc.statics.layout, q);
    let stored = hc.store_link(q, hc.statics.frames[0]);
    lemma_store_part(hc, q, hc.statics.frames[0]);
    lemma_store_frames(stored, crate::host::links::qh_link(hc.statics.layout, q));
    let after = hc.link_periodic(q);
    let n = hc.usb.queue.len() as int;
    assert(stored.usb.queue.len() == n + 1);
    assert(after.usb.queue.take(n + 1) == stored.usb.queue);
    assert(after.usb.queue.take(n) =~= stored.usb.queue.take(n));
    assert(stored.usb.queue.take(n) =~= hc.usb.queue);
    assert(after.usb.queue[n] == after.usb.queue.take(n + 1)[n]);
    assert forall|i: int| 0 <= i < 32 implies #[trigger] after.usb.queue[n + 1 + i] == (
    Action::StoreWord {
        addr: (hc.statics.layout.frame_list + 4 * i) as u32,
        value: (hc.statics.layout.qh_base + 64 * q + 2) as u32,
    }) by {
        assert(after.usb.queue[stored.usb.queue.len() + i] == after.usb.queue[n + 1 + i]);
    }
}

/// Unlinking the first queue head of the periodic schedule makes all frames lead where it leads.
/// Unlinking another one makes the one of the chain that leads to it (`p`) lead where it leads.
/// Nothing else changes.
pub proof fn lemma_unlink_periodic_effect(hc: ControllerView, q: int, p: int)
    requires
        hc.statics.schedules_wf(),
        hc.statics.periodic_chain().contains(q),
    ensures
        ({
            let led = hc.statics.qh[q].horizontal_link@;
            let target = hc.statics.layout.qh_base + 64 * q + 2;
            &&& hc.statics.frames[0] == target ==> hc.unlink_periodic(q) == hc.store_frames(led)
            &&& hc.statics.periodic_chain().contains(p) && hc.statics.qh[p].horizontal_link@
                == target ==> hc.unlink_periodic(q) == (ControllerView {
                statics: StaticsView {
                    qh: hc.statics.qh.update(
                        p,
                        QueueHead { horizontal_link: VCell(led), ..hc.statics.qh[p] },
                    ),
                    ..hc.statics
                },
                usb: usb::InstanceView {
                    queue: hc.usb.queue.push(
                        Action::StoreWord {
                            addr: (hc.statics.layout.qh_base + 64 * p) as u32,
                            value: led,
                        },
                    ),
                    ..hc.usb
                },
                ..hc
            })
            &&& hc.statics.unlink_periodic(q) == hc.unlink_periodic(q).statics
        }),
{
    let s = hc.statics;
    let chain = s.periodic_chain();
    let m = chain.index_of(q);
    assert(chain[m] == q);
    let target = s.layout.qh_base + 64 * q + 2;
    lemma_chain_links(s, chain);
    if s.frames[0] == target {
        assert(chain[0] == q);
    }
    if chain.contains(p) && s.qh[p].horizontal_link@ == target {
        let k = chain.index_of(p);
        assert(chain[k] == p);
        assert(s.qh[chain[k]].horizontal_link@ == target);
        assert(chain[k + 1] == q);
        assert(m == k + 1);
    }
}

} // verus!
