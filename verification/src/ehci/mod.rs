//! EHCI data structures for DMA-based USB transfers.
//!
//! This module defines the Queue Head (QH) and Queue Element Transfer Descriptor
//! (qTD) structures used by the EHCI controller's DMA engine, the words that they
//! are made of, and the periodic frame list.
//!
//! # Alignment requirements
//!
//! - **QH**: 64-byte aligned, so that no two QHs straddle a 64-byte block.
//! - **qTD**: 32-byte aligned, which is also the Cortex-M7 cache line size.
//! - **Frame list**: 4096-byte aligned (page-aligned).
//!
//! The values here are the driver's images of those structures. Where each of them
//! lies in memory is given by a [`DmaLayout`](crate::host::DmaLayout), which keeps to
//! these alignments.

use vstd::prelude::*;

/// Periodic frame list.
pub mod frame_list;
/// Link pointer type field values (bits \[2:1\]).
pub mod link_type;
/// Queue Head (QH).
pub mod qh;
/// Queue Element Transfer Descriptor (qTD).
pub mod qtd;

pub use frame_list::{FrameList, FRAME_LIST_LEN};
pub use qh::{
    qh_capabilities, qh_characteristics, QueueHead, QH_FLAG_REMOVING, QH_FLAG_USED,
};
pub use qtd::{
    qtd_token, qtd_token_bytes_remaining, TransferDescriptor, QTD_MAX_TRANSFER_SIZE,
    QTD_TOKEN_ACTIVE, QTD_TOKEN_BABBLE, QTD_TOKEN_BUFFER_ERR, QTD_TOKEN_ERROR_MASK,
    QTD_TOKEN_HALTED, QTD_TOKEN_IOC, QTD_TOKEN_MISSED_UFRAME, QTD_TOKEN_PING_ERR,
    QTD_TOKEN_SPLIT_STATE, QTD_TOKEN_STATUS_MASK, QTD_TOKEN_XACT_ERR,
};

verus! {

// ---------------------------------------------------------------------------
// Link pointers
// ---------------------------------------------------------------------------

/// Terminate bit: indicates an invalid (end-of-list) pointer.
pub const LINK_TERMINATE: u32 = 1 << 0;

/// The word of a link pointer: the address with its low five bits cleared, and
/// the type in their place.
pub open spec fn link_pointer_word(addr: u32, typ: u32) -> u32 {
    (addr & !0x1Fu32) | typ
}

/// The 32-byte-aligned address in a link pointer.
pub open spec fn link_address_word(link: u32) -> u32 {
    link & !0x1Fu32
}

/// Whether the terminate bit is set.
pub open spec fn link_terminates(link: u32) -> bool {
    link & LINK_TERMINATE != 0
}

/// Build a link pointer from a 32-byte-aligned physical address and a type.
///
/// The low 5 bits of `addr` are replaced with `typ`.
#[verifier::when_used_as_spec(link_pointer_word)]
pub fn link_pointer(addr: u32, typ: u32) -> (link: u32)
    ensures
        link == link_pointer_word(addr, typ),
        typ < 32 ==> link == addr - addr % 32 + typ,
{
    proof {
        lemma_link_sum(addr, typ, 0);
    }
    (addr & !0x1F) | typ
}

/// Extract the 32-byte-aligned address from a link pointer.
#[verifier::when_used_as_spec(link_address_word)]
pub fn link_address(link: u32) -> (addr: u32)
    ensures
        addr == link_address_word(link),
        addr == link - link % 32,
{
    proof {
        lemma_link_sum(0, 0, link);
    }
    link & !0x1F
}

/// Returns `true` if the terminate bit is set.
#[verifier::when_used_as_spec(link_terminates)]
pub fn link_is_terminate(link: u32) -> (terminate: bool)
    ensures
        terminate == link_terminates(link),
        terminate == (link % 2 == 1),
{
    proof {
        lemma_link_sum(0, 0, link);
    }
    link & LINK_TERMINATE != 0
}

/// A link to a 32-byte-aligned address leads back to that address, carries its
/// type in the low bits, and terminates only if the type says so.
pub proof fn lemma_link_round_trip(addr: u32, typ: u32)
    requires
        addr % 32 == 0,
        typ < 32,
    ensures
        link_address(link_pointer(addr, typ)) == addr,
        link_pointer(addr, typ) & 0x1F == typ,
        link_is_terminate(link_pointer(addr, typ)) == (typ % 2 == 1),
{
    assert(((addr & !0x1Fu32) | typ) & !0x1Fu32 == addr && ((addr & !0x1Fu32) | typ) & 0x1F == typ
        && (((addr & !0x1Fu32) | typ) & LINK_TERMINATE != 0) == (typ % 2 == 1)) by (bit_vector)
        requires
            addr % 32 == 0,
            typ < 32,
    ;
}

/// What a link pointer is, as a number: a 32-byte-aligned address and below it the type. The
/// terminate bit makes it odd.
pub proof fn lemma_link_sum(addr: u32, typ: u32, link: u32)
    ensures
        typ < 32 ==> link_pointer(addr, typ) == 32 * (addr as int / 32) + typ,
        link_address(link) == 32 * (link as int / 32),
        link_is_terminate(link) <==> link % 2 == 1,
{
    assert((typ < 32 ==> ((addr & !0x1Fu32) | typ) == addr - addr % 32 + typ) && (link & !0x1Fu32)
        == link - link % 32 && ((link & LINK_TERMINATE != 0) == (link % 2 == 1))) by (bit_vector);
}

/// The codes that the controller knows for directions, speeds, and the types of links.
pub proof fn lemma_codes()
    ensures
        PID_OUT == 0,
        PID_IN == 1,
        PID_SETUP == 2,
        SPEED_FULL == 0,
        SPEED_LOW == 1,
        SPEED_HIGH == 2,
        link_type::ITD == 0,
        link_type::QH == 2,
        link_type::SITD == 4,
        link_type::FSTN == 6,
        QH_FLAG_USED == 1,
        QH_FLAG_REMOVING == 2,
{
    assert(link_type::ITD == 0 && link_type::QH == 2 && link_type::SITD == 4 && link_type::FSTN == 6
        && QH_FLAG_USED == 1 && QH_FLAG_REMOVING == 2) by (bit_vector);
}

/// Links to two different 32-byte-aligned addresses differ.
pub proof fn lemma_link_injective(a: u32, b: u32, typ: u32)
    requires
        a % 32 == 0,
        b % 32 == 0,
        typ < 32,
        link_pointer(a, typ) == link_pointer(b, typ),
    ensures
        a == b,
{
    lemma_link_round_trip(a, typ);
    lemma_link_round_trip(b, typ);
}

// ---------------------------------------------------------------------------
// PID codes and endpoint speed codes
// ---------------------------------------------------------------------------

/// PID code for OUT token (host to device).
pub const PID_OUT: u32 = 0;

/// PID code for IN token (device to host).
pub const PID_IN: u32 = 1;

/// PID code for SETUP token (control transfers).
pub const PID_SETUP: u32 = 2;

/// Full Speed (12 Mbps).
pub const SPEED_FULL: u32 = 0;

/// Low Speed (1.5 Mbps).
pub const SPEED_LOW: u32 = 1;

/// High Speed (480 Mbps).
pub const SPEED_HIGH: u32 = 2;

} // verus!
