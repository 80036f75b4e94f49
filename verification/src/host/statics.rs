//! Static-lifetime resource pools and DMA receive buffers.

use crate::ehci::{FrameList, QueueHead, TransferDescriptor, FRAME_LIST_LEN, LINK_TERMINATE};
use crate::host::{NUM_QTD, NUM_RECV_BUFS, QH_POOL_LEN};
use vstd::prelude::*;

verus! {

/// The highest address at which the buffer of a qTD may start: its five pages must lie
/// within the 32-bit address space.
pub const MAX_BUFFER_ADDR: u32 = 0xFFFF_BFFF;

// ---------------------------------------------------------------------------
// DmaLayout: where the DMA structures lie
// ---------------------------------------------------------------------------

/// The addresses of the DMA structures.
///
/// The structures of a pool follow one another without gaps.
#[derive(Debug, Clone, Copy, PartialEq, Eq, Structural)]
pub struct DmaLayout {
    /// Address of the first queue head (64-byte aligned).
    pub qh_base: u32,
    /// Address of the first transfer descriptor (32-byte aligned).
    pub qtd_base: u32,
    /// Address of the frame list (4096-byte aligned).
    pub frame_list: u32,
    /// Address of the first receive buffer (32-byte aligned).
    pub recv_base: u32,
}

impl DmaLayout {
    /// Whether the structures are aligned as the controller and the cache require, and end
    /// before the end of the 32-bit address space.
    pub open spec fn wf(self) -> bool {
        &&& self.qh_base % 64 == 0
        &&& self.qh_base + 64 * QH_POOL_LEN < 0x1_0000_0000
        &&& self.qtd_base % 32 == 0
        &&& self.qtd_base + 32 * NUM_QTD < 0x1_0000_0000
        &&& self.frame_list % 4096 == 0
        &&& self.frame_list + 4096 < 0x1_0000_0000
        &&& self.recv_base % 32 == 0
        &&& self.recv_base + 64 * NUM_RECV_BUFS <= MAX_BUFFER_ADDR
    }

    /// The address of a queue head.
    pub open spec fn qh_address(self, i: int) -> u32 {
        (self.qh_base + 64 * i) as u32
    }

    /// The address of a transfer descriptor.
    pub open spec fn qtd_address(self, i: int) -> u32 {
        (self.qtd_base + 32 * i) as u32
    }

    /// The address of a frame list entry.
    pub open spec fn frame_address(self, i: int) -> u32 {
        (self.frame_list + 4 * i) as u32
    }

    /// The address of a receive buffer.
    pub open spec fn recv_address(self, i: int) -> u32 {
        (self.recv_base + 64 * i) as u32
    }

    /// Whether the layout meets the requirements of the controller.
    pub fn is_wf(&self) -> (ok: bool)
        ensures
            ok == self.wf(),
    {
        self.qh_base % 64 == 0 && self.qh_base < 0xFFFF_FEC0 && self.qtd_base % 32 == 0
            && self.qtd_base < 0xFFFF_FE00 && self.frame_list % 4096 == 0 && self.frame_list
            < 0xFFFF_F000 && self.recv_base % 32 == 0 && self.recv_base <= MAX_BUFFER_ADDR - 192
    }
}

// ---------------------------------------------------------------------------
// RecvBuf: DMA-aligned receive buffer
// ---------------------------------------------------------------------------

/// A 32-byte-aligned receive buffer for DMA.
///
/// Each buffer is 64 bytes (2 cache lines). The 32-byte alignment ensures
/// that cache maintenance operations on a receive buffer cannot corrupt
/// adjacent data in the same cache line.
#[derive(Debug, Clone, Copy, PartialEq, Eq)]
pub struct RecvBuf {
    /// Address of the buffer.
    pub addr: u32,
    /// Contents of the buffer.
    pub data: [u8; 64],
}

impl RecvBuf {
    /// Size of a receive buffer in DMA memory, in bytes.
    pub const SIZE: u32 = 64;

    /// Alignment of a receive buffer in DMA memory, in bytes.
    pub const ALIGN: u32 = 32;

    /// Create a zeroed receive buffer that lies at `addr`.
    pub fn new(addr: u32) -> (buf: Self)
        ensures
            buf.addr == addr,
            forall|i: int| 0 <= i < 64 ==> #[trigger] buf.data[i] == 0,
    {
        RecvBuf { addr, data: [0u8;64] }
    }

    /// Address of the start of the buffer.
    pub fn as_ptr(&self) -> (addr: u32)
        ensures
            addr == self.addr,
    {
        self.addr
    }

    /// Length of the buffer.
    pub fn len(&self) -> (len: usize)
        ensures
            len == 64,
            len == self.data@.len(),
    {
        64
    }

    /// Returns `true` if the buffer has zero length (always `false`).
    pub fn is_empty(&self) -> (empty: bool)
        ensures
            empty == (self.data@.len() == 0),
            !empty,
    {
        false
    }

    /// The bytes of the buffer.
    pub fn as_ref(&self) -> (bytes: &[u8])
        ensures
            bytes@ == self.data@,
    {
        self.data.as_slice()
    }

    /// The bytes before `end`.
    pub fn index_to(&self, end: usize) -> (bytes: &[u8])
        requires
            end <= 64,
        ensures
            bytes@ == self.data@.subrange(0, end as int),
    {
        vstd::slice::slice_subrange(self.data.as_slice(), 0, end)
    }

    /// The byte at `idx`.
    pub fn index(&self, idx: usize) -> (byte: &u8)
        requires
            idx < 64,
        ensures
            *byte == self.data@[idx as int],
    {
        &self.data[idx]
    }
}

// ---------------------------------------------------------------------------
// Allocation of qTD slots
// ---------------------------------------------------------------------------

/// The lowest free slot of an allocation bitmap at or after `from`, or its length if all
/// slots from there on are allocated.
pub open spec fn first_free_from(allocated: Seq<bool>, from: int) -> int
    decreases allocated.len() - from,
{
    if from >= allocated.len() {
        allocated.len() as int
    } else if !allocated[from] {
        from
    } else {
        first_free_from(allocated, from + 1)
    }
}

/// The lowest free slot of an allocation bitmap, or its length if all slots are allocated.
pub open spec fn first_free(allocated: Seq<bool>) -> int {
    first_free_from(allocated, 0)
}

/// The allocation bitmap with its lowest free slot allocated.
pub open spec fn take_free(allocated: Seq<bool>) -> Seq<bool> {
    allocated.update(first_free(allocated), true)
}

/// The number of free slots of an allocation bitmap.
pub open spec fn free_count(allocated: Seq<bool>) -> nat
    decreases allocated.len(),
{
    if allocated.len() == 0 {
        0
    } else {
        free_count(allocated.drop_last()) + (if allocated.last() {
            0nat
        } else {
            1nat
        })
    }
}

/// The lowest free slot is free, and no slot below it is.
pub proof fn lemma_first_free(allocated: Seq<bool>, from: int)
    requires
        0 <= from <= allocated.len(),
    ensures
        from <= first_free_from(allocated, from) <= allocated.len(),
        first_free_from(allocated, from) < allocated.len() ==> !allocated[first_free_from(
            allocated,
            from,
        )],
        forall|i: int|
            from <= i < first_free_from(allocated, from) ==> #[trigger] allocated[i],
    decreases allocated.len() - from,
{
    if from < allocated.len() && allocated[from] {
        lemma_first_free(allocated, from + 1);
    }
}

/// Freeing or allocating one slot changes the number of free slots by one.
pub proof fn lemma_free_count_update(allocated: Seq<bool>, i: int)
    requires
        0 <= i < allocated.len(),
    ensures
        allocated[i] ==> free_count(allocated.update(i, false)) == free_count(allocated) + 1,
        !allocated[i] ==> free_count(allocated.update(i, true)) + 1 == free_count(allocated),
    decreases allocated.len(),
{
    let set = allocated.update(i, true);
    let cleared = allocated.update(i, false);
    if i == allocated.len() - 1 {
        assert(set.drop_last() =~= allocated.drop_last());
        assert(cleared.drop_last() =~= allocated.drop_last());
    } else {
        lemma_free_count_update(allocated.drop_last(), i);
        assert(set.drop_last() =~= allocated.drop_last().update(i, true));
        assert(cleared.drop_last() =~= allocated.drop_last().update(i, false));
    }
}

/// There is no free slot exactly if every slot is allocated.
pub proof fn lemma_free_count_zero(allocated: Seq<bool>)
    ensures
        free_count(allocated) == 0 <==> (forall|i: int|
            0 <= i < allocated.len() ==> #[trigger] allocated[i]),
    decreases allocated.len(),
{
    if allocated.len() > 0 {
        let rest = allocated.drop_last();
        lemma_free_count_zero(rest);
        if free_count(allocated) == 0 {
            assert forall|i: int| 0 <= i < allocated.len() implies #[trigger] allocated[i] by {
                if i < rest.len() {
                    assert(rest[i]);
                }
            }
        } else if forall|i: int| 0 <= i < allocated.len() ==> #[trigger] allocated[i] {
            assert forall|i: int| 0 <= i < rest.len() implies #[trigger] rest[i] by {
                assert(allocated[i]);
            }
            assert(allocated[allocated.len() - 1]);
        }
    }
}

/// Allocation succeeds exactly if there is a free slot, and leaves one less.
pub proof fn lemma_take_free(allocated: Seq<bool>)
    ensures
        0 <= first_free(allocated) <= allocated.len(),
        first_free(allocated) < allocated.len() <==> free_count(allocated) > 0,
        first_free(allocated) < allocated.len() ==> !allocated[first_free(allocated)] && free_count(
            take_free(allocated),
        ) + 1 == free_count(allocated),
{
    lemma_first_free(allocated, 0);
    lemma_free_count_zero(allocated);
    if first_free(allocated) < allocated.len() {
        lemma_free_count_update(allocated, first_free(allocated));
    }
}

// ---------------------------------------------------------------------------
// UsbStatics: static resource pools
// ---------------------------------------------------------------------------

/// Static-lifetime resource pools for the USB host controller.
///
/// This struct holds the images of the pre-allocated pools of QHs, qTDs, the periodic
/// frame list, and DMA receive buffers. It is **not** accessed from the
/// interrupt handler, only from async task context.
///
/// # Memory
///
/// All DMA-visible structures must be in normal RAM (not TCM) if using cache management,
/// or in DTCM if bypassing the data cache; `layout` says where they lie.
pub struct UsbStatics {
    /// Where the DMA structures lie.
    pub layout: DmaLayout,
    /// Queue Head storage.
    ///
    /// Index 0 is reserved for the async schedule sentinel.
    /// Index 1 is reserved for the single control pipe (EP0).
    /// Indices 2 and up are for bulk/interrupt pipes.
    pub qh_pool: [QueueHead; 5],
    /// Transfer Descriptor storage.
    pub qtd_pool: [TransferDescriptor; 16],
    /// Periodic frame list (4096-byte aligned).
    pub frame_list: FrameList,
    /// qTD allocation bitmap: `true` means the slot is allocated.
    pub qtd_allocated: [bool; 16],
    /// Receive buffers for interrupt pipes.
    ///
    /// One 64-byte buffer per interrupt pipe slot, 32-byte aligned for cache
    /// line safety. The index matches the slot of the bulk pipe pool.
    pub recv_bufs: [RecvBuf; 3],
}

/// What a [`UsbStatics`] stands for.
#[verifier::ext_equal]
pub struct StaticsView {
    pub layout: DmaLayout,
    pub qh: Seq<QueueHead>,
    pub qtd: Seq<TransferDescriptor>,
    pub frames: Seq<u32>,
    pub allocated: Seq<bool>,
    pub recv: Seq<RecvBuf>,
}

impl View for UsbStatics {
    type V = StaticsView;

    open spec fn view(&self) -> StaticsView {
        StaticsView {
            layout: self.layout,
            qh: self.qh_pool@,
            qtd: self.qtd_pool@,
            frames: self.frame_list@,
            allocated: self.qtd_allocated@,
            recv: self.recv_bufs@,
        }
    }
}

impl UsbStatics {
    /// Whether the DMA structures lie where the controller can use them, and each receive
    /// buffer lies where the layout says.
    pub open spec fn wf(self) -> bool {
        self@.wf()
    }

    /// Create a new `UsbStatics` with all resources free and structures zeroed.
    pub fn new(layout: DmaLayout) -> (statics: Self)
        requires
            layout.wf(),
        ensures
            statics.wf(),
            statics@.layout == layout,
            forall|i: int|
                0 <= i < QH_POOL_LEN ==> #[trigger] statics@.qh[i] == QueueHead::blank(),
            forall|i: int|
                0 <= i < NUM_QTD ==> #[trigger] statics@.qtd[i] == TransferDescriptor::blank(),
            statics@.frames == FrameList::all(LINK_TERMINATE),
            forall|i: int| 0 <= i < NUM_QTD ==> !#[trigger] statics@.allocated[i],
            forall|i: int, j: int|
                0 <= i < NUM_RECV_BUFS && 0 <= j < 64 ==> #[trigger] statics@.recv[i].data[j] == 0,
    {
        let qh = QueueHead::new();
        let qtd = TransferDescriptor::new();
        UsbStatics {
            layout,
            qh_pool: [qh, qh, qh, qh, qh],
            qtd_pool: [
                qtd,
                qtd,
                qtd,
                qtd,
                qtd,
                qtd,
                qtd,
                qtd,
                qtd,
                qtd,
                qtd,
                qtd,
                qtd,
                qtd,
                qtd,
                qtd,
            ],
            frame_list: FrameList::new(),
            qtd_allocated: [false;16],
            recv_bufs: [
                RecvBuf::new(layout.recv_base),
                RecvBuf::new(layout.recv_base + 64),
                RecvBuf::new(layout.recv_base + 128),
            ],
        }
    }

    /// Get the address of a QH from the pool.
    pub fn qh_ptr(&self, index: usize) -> (addr: u32)
        requires
            self.wf(),
            index < QH_POOL_LEN,
        ensures
            addr == self@.layout.qh_address(index as int),
            addr == self@.layout.qh_base + 64 * index,
            addr % 64 == 0,
    {
        self.layout.qh_base + 64 * index as u32
    }

    /// Get the address of a qTD from the pool.
    pub fn qtd_ptr(&self, index: usize) -> (addr: u32)
        requires
            self.wf(),
            index < NUM_QTD,
        ensures
            addr == self@.layout.qtd_address(index as int),
            addr == self@.layout.qtd_base + 32 * index,
            addr % 32 == 0,
    {
        self.layout.qtd_base + 32 * index as u32
    }
}

impl StaticsView {
    /// Whether the pools have their sizes, the layout suits the controller, and each receive
    /// buffer lies where the layout says.
    pub open spec fn wf(self) -> bool {
        &&& self.layout.wf()
        &&& self.qh.len() == QH_POOL_LEN
        &&& self.qtd.len() == NUM_QTD
        &&& self.frames.len() == FRAME_LIST_LEN
        &&& self.allocated.len() == NUM_QTD
        &&& self.recv.len() == NUM_RECV_BUFS
        &&& forall|i: int|
            0 <= i < NUM_RECV_BUFS ==> (#[trigger] self.recv[i]).addr == self.layout.recv_address(i)
    }

    /// With another queue head at the pool index `i`.
    pub open spec fn with_qh(self, i: int, qh: QueueHead) -> Self {
        StaticsView { qh: self.qh.update(i, qh), ..self }
    }

    /// With another horizontal link in the queue head with pool index `i`.
    pub open spec fn with_link(self, i: int, link: u32) -> Self {
        self.with_qh(i, self.qh[i].with_link(link))
    }

    /// With another descriptor at the pool index `i`.
    pub open spec fn with_qtd(self, i: int, qtd: TransferDescriptor) -> Self {
        StaticsView { qtd: self.qtd.update(i, qtd), ..self }
    }

    /// With the link `link` in all frame list entries.
    pub open spec fn with_frames(self, link: u32) -> Self {
        StaticsView { frames: FrameList::all(link), ..self }
    }

    /// With the descriptor slot `i` allocated.
    pub open spec fn with_allocated(self, i: int) -> Self {
        StaticsView { allocated: self.allocated.update(i, true), ..self }
    }

    /// With the descriptor slot `i` free, and its descriptor blank.
    pub open spec fn with_freed(self, i: int) -> Self {
        StaticsView {
            allocated: self.allocated.update(i, false),
            qtd: self.qtd.update(i, TransferDescriptor::blank()),
            ..self
        }
    }
}

} // verus!
