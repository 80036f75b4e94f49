//! Link pointer type field values (bits \[2:1\]).

use vstd::prelude::*;

verus! {

/// Isochronous Transfer Descriptor (iTD).
pub const ITD: u32 = 0b00 << 1;

/// Queue Head (QH).
pub const QH: u32 = 0b01 << 1;

/// Split Transaction Isochronous Transfer Descriptor (siTD).
pub const SITD: u32 = 0b10 << 1;

/// Frame Span Traversal Node (FSTN).
pub const FSTN: u32 = 0b11 << 1;

} // verus!
