//! Queue Element Transfer Descriptor (qTD), EHCI section 3.5.

use crate::ehci::LINK_TERMINATE;
use crate::vcell::VCell;
use vstd::prelude::*;

verus! {

// ---------------------------------------------------------------------------
// Token word
// ---------------------------------------------------------------------------

/// Active bit: set by software, cleared by controller on completion.
pub const QTD_TOKEN_ACTIVE: u32 = 1 << 7;

/// Halted bit: set by controller on error or STALL.
pub const QTD_TOKEN_HALTED: u32 = 1 << 6;

/// Data buffer error (overrun or underrun).
pub const QTD_TOKEN_BUFFER_ERR: u32 = 1 << 5;

/// Babble detected.
pub const QTD_TOKEN_BABBLE: u32 = 1 << 4;

/// Transaction error (timeout, CRC, bad PID, etc.).
pub const QTD_TOKEN_XACT_ERR: u32 = 1 << 3;

/// Missed micro-frame (split transaction).
pub const QTD_TOKEN_MISSED_UFRAME: u32 = 1 << 2;

/// Split transaction state.
pub const QTD_TOKEN_SPLIT_STATE: u32 = 1 << 1;

/// Ping state / error indicator.
pub const QTD_TOKEN_PING_ERR: u32 = 1 << 0;

/// Interrupt On Complete: generates an interrupt when this qTD completes.
pub const QTD_TOKEN_IOC: u32 = 1 << 15;

/// Mask for the status byte (bits \[7:0\]).
pub const QTD_TOKEN_STATUS_MASK: u32 = 0xFF;

/// Mask for all error bits (excludes Active).
pub const QTD_TOKEN_ERROR_MASK: u32 = QTD_TOKEN_HALTED | QTD_TOKEN_BUFFER_ERR | QTD_TOKEN_BABBLE
    | QTD_TOKEN_XACT_ERR | QTD_TOKEN_MISSED_UFRAME;

/// Bit offset for PID code in the token word.
const QTD_TOKEN_PID_SHIFT: u32 = 8;

/// Bit offset for error counter in the token word.
const QTD_TOKEN_CERR_SHIFT: u32 = 10;

/// Bit offset for total bytes to transfer in the token word.
const QTD_TOKEN_TOTAL_BYTES_SHIFT: u32 = 16;

/// Bit offset for data toggle in the token word.
const QTD_TOKEN_DT_SHIFT: u32 = 31;

/// Maximum transfer size per qTD (EHCI limits `total_bytes` to 0x4FFF = 20479 bytes).
pub const QTD_MAX_TRANSFER_SIZE: u32 = 0x4FFF;

/// The token word: Active, the PID, three retries, the byte count, the data toggle,
/// and the interrupt-on-complete bit, each at its place.
pub open spec fn qtd_token_word(pid: u32, total_bytes: u32, data_toggle: bool, ioc: bool) -> u32 {
    0x80u32 | (pid << 8) | (3u32 << 10) | (total_bytes << 16) | ((if data_toggle {
        1u32
    } else {
        0u32
    }) << 31) | (if ioc {
        0x8000u32
    } else {
        0u32
    })
}

/// The number of bytes that a token word says are still to be transferred.
pub open spec fn token_bytes_remaining(token: u32) -> u32 {
    token / 0x1_0000 % 0x8000
}

/// Build a qTD token word.
///
/// # Arguments
/// - `pid`: [`PID_OUT`](crate::ehci::PID_OUT), [`PID_IN`](crate::ehci::PID_IN), or
///   [`PID_SETUP`](crate::ehci::PID_SETUP)
/// - `total_bytes`: number of bytes to transfer (max [`QTD_MAX_TRANSFER_SIZE`])
/// - `data_toggle`: `true` for DATA1, `false` for DATA0
/// - `ioc`: interrupt on complete
#[verifier::when_used_as_spec(qtd_token_word)]
pub fn qtd_token(pid: u32, total_bytes: u32, data_toggle: bool, ioc: bool) -> (token: u32)
    ensures
        token == qtd_token_word(pid, total_bytes, data_toggle, ioc),
        pid < 4 && total_bytes < 0x8000 ==> token == 0x80 + 0x100 * pid + 0xC00 + (if ioc {
            0x8000int
        } else {
            0
        }) + 0x1_0000 * total_bytes + (if data_toggle {
            0x8000_0000int
        } else {
            0
        }),
        token == 0x80u32 | (pid << 8) | (3u32 << 10) | (total_bytes << 16) | ((if data_toggle {
            1u32
        } else {
            0u32
        }) << 31) | (if ioc {
            0x8000u32
        } else {
            0u32
        }),
{
    let dt: u32 = if data_toggle {
        1u32
    } else {
        0u32
    };
    let ioc_bit: u32 = if ioc {
        QTD_TOKEN_IOC
    } else {
        0
    };
    proof {
        lemma_token_bits();
        if pid < 4 {
            lemma_token_sum(pid, total_bytes, data_toggle, ioc);
        }
    }
    QTD_TOKEN_ACTIVE | (pid << QTD_TOKEN_PID_SHIFT) | (3 << QTD_TOKEN_CERR_SHIFT)
    // three retries before halting
     | (total_bytes << QTD_TOKEN_TOTAL_BYTES_SHIFT) | (dt << QTD_TOKEN_DT_SHIFT) | ioc_bit
}

/// Extract the remaining `total_bytes` from a token word.
#[verifier::when_used_as_spec(token_bytes_remaining)]
pub fn qtd_token_bytes_remaining(token: u32) -> (bytes: u32)
    ensures
        bytes == token_bytes_remaining(token),
        bytes == token / 0x1_0000 % 0x8000,
        bytes < 0x8000,
{
    proof {
        lemma_bytes_remaining(token);
    }
    (token >> QTD_TOKEN_TOTAL_BYTES_SHIFT) & 0x7FFF
}

/// Where the status and control bits of a token word are, and which of them are errors.
pub proof fn lemma_token_bits()
    ensures
        QTD_TOKEN_ACTIVE == 0x80,
        QTD_TOKEN_HALTED == 0x40,
        QTD_TOKEN_BUFFER_ERR == 0x20,
        QTD_TOKEN_BABBLE == 0x10,
        QTD_TOKEN_XACT_ERR == 0x08,
        QTD_TOKEN_MISSED_UFRAME == 0x04,
        QTD_TOKEN_SPLIT_STATE == 0x02,
        QTD_TOKEN_PING_ERR == 0x01,
        QTD_TOKEN_IOC == 0x8000,
        QTD_TOKEN_STATUS_MASK == 0xFF,
        QTD_TOKEN_ERROR_MASK == 0x7C,
        QTD_MAX_TRANSFER_SIZE == 20479,
        LINK_TERMINATE == 1,
{
    assert(QTD_TOKEN_ACTIVE == 0x80 && QTD_TOKEN_HALTED == 0x40 && QTD_TOKEN_BUFFER_ERR == 0x20
        && QTD_TOKEN_BABBLE == 0x10 && QTD_TOKEN_XACT_ERR == 0x08 && QTD_TOKEN_MISSED_UFRAME == 0x04
        && QTD_TOKEN_SPLIT_STATE == 0x02 && QTD_TOKEN_PING_ERR == 0x01 && QTD_TOKEN_IOC == 0x8000
        && QTD_TOKEN_ERROR_MASK == 0x7C && LINK_TERMINATE == 1) by (bit_vector);
}

/// A token built for a PID code is the sum of its fields: Active, the PID, three retries, the
/// interrupt bit, the byte count, and the data toggle. The byte count has 15 bits; the next
/// higher bit of what is asked for falls on the data toggle.
pub proof fn lemma_token_sum(pid: u32, total_bytes: u32, data_toggle: bool, ioc: bool)
    requires
        pid < 4,
    ensures
        qtd_token(pid, total_bytes, data_toggle, ioc) == 0x80 + 0x100 * pid + 0xC00 + (if ioc {
            0x8000int
        } else {
            0
        }) + 0x1_0000 * (total_bytes as int % 0x8000) + (if data_toggle || total_bytes as int
            / 0x8000 % 2 == 1 {
            0x8000_0000int
        } else {
            0
        }),
{
    let dt: u32 = if data_toggle {
        1u32
    } else {
        0u32
    };
    let ioc_bit: u32 = if ioc {
        0x8000u32
    } else {
        0u32
    };
    let top: u32 = if dt == 1 || total_bytes / 0x8000 % 2 == 1 {
        1u32
    } else {
        0u32
    };
    assert((0x80u32 | (pid << 8) | (3u32 << 10) | (total_bytes << 16) | (dt << 31) | ioc_bit)
        == 0x80 + 0x100 * pid + 0xC00 + ioc_bit + 0x1_0000 * (total_bytes % 0x8000) + 0x8000_0000
        * top) by (bit_vector)
        requires
            pid < 4,
            dt < 2,
            ioc_bit == 0 || ioc_bit == 0x8000,
            top == (if dt == 1 || total_bytes / 0x8000 % 2 == 1 {
                1u32
            } else {
                0u32
            }),
    ;
}

/// The byte count of a token word is in its bits 30:16, whatever its other bits are.
pub proof fn lemma_bytes_remaining(token: u32)
    ensures
        qtd_token_bytes_remaining(token) == (token >> 16) & 0x7FFF,
        qtd_token_bytes_remaining(token) == token as int / 0x1_0000 % 0x8000,
{
    assert((token >> 16) & 0x7FFF == token / 0x1_0000 % 0x8000) by (bit_vector);
}

/// A token built for a PID code and a byte count within the limit is Active and
/// shows no error; the byte count, PID, retry count, toggle, and interrupt bit can all
/// be read back from it.
pub proof fn lemma_qtd_token_fields(pid: u32, total_bytes: u32, data_toggle: bool, ioc: bool)
    requires
        pid < 4,
        total_bytes < 0x8000,
    ensures
        ({
            let token = qtd_token(pid, total_bytes, data_toggle, ioc);
            &&& token & QTD_TOKEN_ACTIVE != 0
            &&& token & QTD_TOKEN_ERROR_MASK == 0
            &&& (token >> 8) & 3 == pid
            &&& (token >> 10) & 3 == 3
            &&& qtd_token_bytes_remaining(token) == total_bytes
            &&& (token & QTD_TOKEN_IOC != 0) == ioc
            &&& (token >> 31 == 1) == data_toggle
        }),
{
    let dt: u32 = if data_toggle {
        1u32
    } else {
        0u32
    };
    let ioc_bit: u32 = if ioc {
        0x8000u32
    } else {
        0u32
    };
    let token = 0x80u32 | (pid << 8) | (3u32 << 10) | (total_bytes << 16) | (dt << 31) | ioc_bit;
    assert(token & QTD_TOKEN_ACTIVE != 0 && token & QTD_TOKEN_ERROR_MASK == 0 && (token >> 8) & 3
        == pid && (token >> 10) & 3 == 3 && token / 0x1_0000 % 0x8000 == total_bytes && (token
        & QTD_TOKEN_IOC != 0) == (ioc_bit == 0x8000) && token >> 31 == dt) by (bit_vector)
        requires
            token == 0x80u32 | (pid << 8) | (3u32 << 10) | (total_bytes << 16) | (dt << 31)
                | ioc_bit,
            pid < 4,
            total_bytes < 0x8000,
            dt < 2,
            ioc_bit == 0 || ioc_bit == 0x8000,
    ;
}

/// A token built for a PID code is Active, shows no error, and interrupts on completion exactly
/// if asked to, whatever the byte count.
pub proof fn lemma_qtd_token_active(pid: u32, total_bytes: u32, data_toggle: bool, ioc: bool)
    requires
        pid < 4,
    ensures
        qtd_token(pid, total_bytes, data_toggle, ioc) & QTD_TOKEN_ACTIVE != 0,
        qtd_token(pid, total_bytes, data_toggle, ioc) & QTD_TOKEN_ERROR_MASK == 0,
        qtd_token(pid, total_bytes, data_toggle, ioc) & QTD_TOKEN_HALTED == 0,
        (qtd_token(pid, total_bytes, data_toggle, ioc) & QTD_TOKEN_IOC != 0) == ioc,
{
    let dt: u32 = if data_toggle {
        1u32
    } else {
        0u32
    };
    let ioc_bit: u32 = if ioc {
        0x8000u32
    } else {
        0u32
    };
    let token = 0x80u32 | (pid << 8) | (3u32 << 10) | (total_bytes << 16) | (dt << 31) | ioc_bit;
    assert(token & QTD_TOKEN_ACTIVE != 0 && token & QTD_TOKEN_ERROR_MASK == 0 && token
        & QTD_TOKEN_HALTED == 0 && (token & QTD_TOKEN_IOC != 0) == (ioc_bit == 0x8000))
        by (bit_vector)
        requires
            token == 0x80u32 | (pid << 8) | (3u32 << 10) | (total_bytes << 16) | (dt << 31)
                | ioc_bit,
            pid < 4,
            dt < 2,
            ioc_bit == 0 || ioc_bit == 0x8000,
    ;
}

// ---------------------------------------------------------------------------
// Descriptor
// ---------------------------------------------------------------------------

/// Queue Element Transfer Descriptor (qTD).
///
/// Describes a single data transfer phase. Multiple qTDs are chained via
/// [`next`](Self::next) pointers to form a transfer. The EHCI controller processes
/// them in order, updating the [`token`](Self::token) field as it goes.
///
/// | Word | Field | Description |
/// |------|-------|-------------|
/// | 0 | `next` | Next qTD pointer (T-bit terminates) |
/// | 1 | `alt_next` | Alternate next qTD (used on short packet) |
/// | 2 | `token` | Status, PID, error count, bytes, data toggle, IOC |
/// | 3-7 | `buffer[5]` | Buffer page pointers (4K-aligned, `buffer[0]` has byte offset) |
#[derive(Debug, Clone, Copy, PartialEq, Eq)]
pub struct TransferDescriptor {
    /// Next qTD pointer. Set [`LINK_TERMINATE`] to end the chain.
    pub next: VCell<u32>,
    /// Alternate next qTD pointer, followed by the controller on a short packet.
    pub alt_next: VCell<u32>,
    /// qTD token: status, PID code, error count, total bytes, data toggle, IOC.
    pub token: VCell<u32>,
    /// Buffer page pointer list: `buffer[0]` is the starting physical address (any
    /// alignment), the others are the addresses of the following page boundaries.
    pub buffer: [VCell<u32>; 5],
}

impl TransferDescriptor {
    /// Size of a qTD in DMA memory, in bytes.
    pub const SIZE: u32 = 32;

    /// Alignment of a qTD in DMA memory, in bytes.
    pub const ALIGN: u32 = 32;

    /// A descriptor with all fields 0 and both links terminated.
    pub open spec fn blank() -> Self {
        TransferDescriptor {
            next: VCell(LINK_TERMINATE),
            alt_next: VCell(LINK_TERMINATE),
            token: VCell(0),
            buffer: [VCell(0u32), VCell(0u32), VCell(0u32), VCell(0u32), VCell(0u32)],
        }
    }

    /// The descriptor of one transfer phase from the address `data` on, followed by no
    /// other: page pointer `i` is that of the `i`-th page after the one that holds `data`.
    pub open spec fn phase(token: u32, data: u32) -> Self {
        let page = data - data % 4096;
        TransferDescriptor {
            next: VCell(LINK_TERMINATE),
            alt_next: VCell(LINK_TERMINATE),
            token: VCell(token),
            buffer: [
                VCell(data),
                VCell((page + 0x1000) as u32),
                VCell((page + 0x2000) as u32),
                VCell((page + 0x3000) as u32),
                VCell((page + 0x4000) as u32),
            ],
        }
    }

    /// This descriptor, followed by the one at the address `next`.
    pub open spec fn followed_by(self, next: u32) -> Self {
        TransferDescriptor { next: VCell(next), ..self }
    }

    /// Whether this descriptor describes one transfer phase from the address `data` on,
    /// followed by no other.
    pub open spec fn describes(self, token: u32, data: u32) -> bool {
        &&& self.next@ == LINK_TERMINATE
        &&& self.alt_next@ == LINK_TERMINATE
        &&& self.token@ == token
        &&& self.buffer[0]@ == data
        &&& forall|i: int|
            1 <= i < 5 ==> (#[trigger] self.buffer[i])@ == data - data % 4096 + 4096 * i
    }

    /// Create a zeroed-out transfer descriptor (all fields 0, terminated).
    pub fn new() -> (qtd: Self)
        ensures
            qtd == Self::blank(),
    {
        let qtd = TransferDescriptor {
            next: VCell::new(LINK_TERMINATE),
            alt_next: VCell::new(LINK_TERMINATE),
            token: VCell::new(0),
            buffer: [VCell(0u32), VCell(0u32), VCell(0u32), VCell(0u32), VCell(0u32)],
        };
        assert(qtd.buffer =~= Self::blank().buffer);
        qtd
    }

    /// Initialise this qTD for a transfer.
    ///
    /// # Arguments
    /// - `token`: pre-built token word (use [`qtd_token`])
    /// - `data`: physical address of the data buffer (or 0 for zero-length)
    /// - `_len`: transfer length in bytes (must match `total_bytes` in token)
    ///
    /// The five buffer pages must lie within the 32-bit address space.
    pub fn init(&mut self, token: u32, data: u32, _len: u32)
        requires
            data <= 0xFFFF_BFFF,
        ensures
            *final(self) == Self::phase(token, data),
            final(self).describes(token, data),
            final(self).next@ == 1,
            final(self).alt_next@ == 1,
            final(self).token@ == token,
            final(self).buffer[0]@ == data,
            forall|i: int|
                1 <= i < 5 ==> (#[trigger] final(self).buffer[i])@ == 4096 * (data as int / 4096
                    + i),
    {
        proof {
            lemma_token_bits();
        }
        self.next.write(LINK_TERMINATE);
        self.alt_next.write(LINK_TERMINATE);
        self.token.write(token);
        self.buffer[0].write(data);
        proof {
            assert(data & !0xFFFu32 == data - data % 4096) by (bit_vector);
        }
        let mut i: usize = 1;
        while i < 5
            invariant
                1 <= i <= 5,
                data <= 0xFFFF_BFFF,
                data & !0xFFFu32 == data - data % 4096,
                self.next@ == LINK_TERMINATE,
                self.alt_next@ == LINK_TERMINATE,
                self.token@ == token,
                self.buffer[0]@ == data,
                forall|j: int|
                    1 <= j < i ==> (#[trigger] self.buffer[j])@ == data - data % 4096 + 4096 * j,
            decreases 5 - i,
        {
            self.buffer[i].write((data & !0xFFF) + (i as u32) * 4096);
            i = i + 1;
        }
        assert(self.buffer =~= Self::phase(token, data).buffer);
    }

    /// Returns `true` if the controller has cleared the Active bit (transfer complete).
    pub fn is_complete(&self) -> (complete: bool)
        ensures
            complete == (self.token@ & QTD_TOKEN_ACTIVE == 0),
    {
        self.token.read() & QTD_TOKEN_ACTIVE == 0
    }

    /// Returns `true` if any error bits are set in the token.
    pub fn has_error(&self) -> (error: bool)
        ensures
            error == (self.token@ & QTD_TOKEN_ERROR_MASK != 0),
    {
        self.token.read() & QTD_TOKEN_ERROR_MASK != 0
    }

    /// Returns the remaining bytes to transfer (decremented by the controller).
    pub fn bytes_remaining(&self) -> (bytes: u32)
        ensures
            bytes == qtd_token_bytes_remaining(self.token@),
    {
        qtd_token_bytes_remaining(self.token.read())
    }
}

impl Default for TransferDescriptor {
    fn default() -> (qtd: Self)
        ensures
            qtd == TransferDescriptor::blank(),
    {
        Self::new()
    }
}

/// The buffer pages of a descriptor are consecutive: each pointer but the first is
/// page-aligned, and one page after the one before it.
pub proof fn lemma_buffer_pages_consecutive(qtd: TransferDescriptor, token: u32, data: u32, i: int)
    requires
        qtd.describes(token, data),
        1 <= i < 5,
    ensures
        qtd.buffer[i]@ % 4096 == 0,
        qtd.buffer[i]@ as int / 4096 == qtd.buffer[0]@ as int / 4096 + i,
{
}

/// The error mask holds every error bit, and not the Active bit: setting or clearing
/// Active neither makes nor hides an error.
pub proof fn lemma_error_mask(token: u32)
    ensures
        QTD_TOKEN_ERROR_MASK & QTD_TOKEN_ACTIVE == 0,
        token & QTD_TOKEN_ERROR_MASK != 0 <==> (token & QTD_TOKEN_HALTED != 0 || token
            & QTD_TOKEN_BUFFER_ERR != 0 || token & QTD_TOKEN_BABBLE != 0 || token
            & QTD_TOKEN_XACT_ERR != 0 || token & QTD_TOKEN_MISSED_UFRAME != 0),
        (token | QTD_TOKEN_ACTIVE) & QTD_TOKEN_ERROR_MASK == token & QTD_TOKEN_ERROR_MASK,
{
    assert(QTD_TOKEN_ERROR_MASK & QTD_TOKEN_ACTIVE == 0 && (token & QTD_TOKEN_ERROR_MASK != 0 <==> (
    token & QTD_TOKEN_HALTED != 0 || token & QTD_TOKEN_BUFFER_ERR != 0 || token
        & QTD_TOKEN_BABBLE != 0 || token & QTD_TOKEN_XACT_ERR != 0 || token
        & QTD_TOKEN_MISSED_UFRAME != 0)) && (token | QTD_TOKEN_ACTIVE) & QTD_TOKEN_ERROR_MASK
        == token & QTD_TOKEN_ERROR_MASK) by (bit_vector);
}

/// A descriptor for a transfer phase holds its token and the address of its first byte as they
/// were given; its other page pointers are those of the pages that follow, and it leads to no
/// other descriptor.
pub proof fn lemma_phase(token: u32, data: u32)
    requires
        data <= 0xFFFF_BFFF,
    ensures
        ({
            let qtd = TransferDescriptor::phase(token, data);
            &&& qtd.next@ == 1
            &&& qtd.alt_next@ == 1
            &&& qtd.token@ == token
            &&& qtd.buffer[0]@ == data
            &&& forall|i: int|
                1 <= i < 5 ==> (#[trigger] qtd.buffer[i])@ == 4096 * (data as int / 4096 + i)
        }),
{
    lemma_token_bits();
}

/// A blank descriptor is inactive, points to no data, and leads to no other descriptor.
pub proof fn lemma_blank()
    ensures
        TransferDescriptor::blank().next@ == 1,
        TransferDescriptor::blank().alt_next@ == 1,
        TransferDescriptor::blank().token@ == 0,
        forall|i: int|
            0 <= i < 5 ==> (#[trigger] TransferDescriptor::blank().buffer[i])@ == 0,
{
    lemma_token_bits();
}

/// Chaining a descriptor to another changes where it leads, and nothing else of it.
pub proof fn lemma_followed_by(qtd: TransferDescriptor, next: u32)
    ensures
        qtd.followed_by(next).next@ == next,
        qtd.followed_by(next).alt_next == qtd.alt_next,
        qtd.followed_by(next).token == qtd.token,
        qtd.followed_by(next).buffer == qtd.buffer,
{
}

} // verus!
