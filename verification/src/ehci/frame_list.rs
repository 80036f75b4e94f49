//! Periodic frame list.

use crate::ehci::LINK_TERMINATE;
use crate::vcell::VCell;
use vstd::prelude::*;

verus! {

/// Number of entries in the periodic frame list.
///
/// The i.MX RT controller supports 8, 16, 32, 64, 128, 256, 512, or 1024 entries;
/// 32 entries balance memory and scheduling granularity. Each entry corresponds to
/// one USB frame (1 ms at FS/LS).
pub const FRAME_LIST_LEN: usize = 32;

/// The periodic frame list: an array of link pointers indexed by frame number.
///
/// Each entry is either [`LINK_TERMINATE`] (no transfer scheduled for that frame)
/// or a link pointer to a QH chain for interrupt endpoints.
#[derive(Debug, Clone, Copy, PartialEq, Eq)]
pub struct FrameList {
    /// Frame list entries.
    pub entries: [VCell<u32>; 32],
}

impl FrameList {
    /// Size of the frame list in DMA memory, in bytes (a whole page).
    pub const SIZE: u32 = 4096;

    /// Alignment of the frame list in DMA memory, in bytes.
    pub const ALIGN: u32 = 4096;

    /// The links that the entries hold.
    pub open spec fn view(self) -> Seq<u32> {
        Seq::new(FRAME_LIST_LEN as nat, |i: int| self.entries[i]@)
    }

    /// The entries of a frame list that hold the link `link`, all of them.
    pub open spec fn all(link: u32) -> Seq<u32> {
        Seq::new(FRAME_LIST_LEN as nat, |i: int| link)
    }

    /// Create a frame list with all entries terminated (no scheduled transfers).
    pub fn new() -> (list: Self)
        ensures
            list@ == Self::all(LINK_TERMINATE),
    {
        let mut list = FrameList { entries: [VCell(0u32);32] };
        let mut i: usize = 0;
        while i < FRAME_LIST_LEN
            invariant
                i <= FRAME_LIST_LEN,
                forall|j: int| 0 <= j < i ==> (#[trigger] list.entries[j])@ == LINK_TERMINATE,
            decreases FRAME_LIST_LEN - i,
        {
            list.entries[i].write(LINK_TERMINATE);
            i = i + 1;
        }
        list
    }
}

impl Default for FrameList {
    fn default() -> (list: Self)
        ensures
            list@ == FrameList::all(LINK_TERMINATE),
    {
        Self::new()
    }
}

/// The frame list has 32 entries of four bytes in a page of its own; when all of them are made
/// the same, each one holds the link.
pub proof fn lemma_all_frames(list: FrameList, link: u32)
    ensures
        FRAME_LIST_LEN == 32,
        FrameList::SIZE == 4096,
        FrameList::ALIGN == 4096,
        FrameList::all(link).len() == 32,
        forall|i: int| 0 <= i < 32 ==> #[trigger] FrameList::all(link)[i] == link,
        list@.len() == 32,
        forall|i: int| 0 <= i < 32 ==> #[trigger] list@[i] == list.entries[i]@,
{
}

} // verus!
