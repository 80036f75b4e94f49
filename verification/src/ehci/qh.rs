//! Queue Head (QH), EHCI section 3.6.

use crate::ehci::{
    link_pointer, link_type, LINK_TERMINATE, QTD_TOKEN_HALTED, SPEED_HIGH,
};
use crate::vcell::VCell;
use vstd::prelude::*;

verus! {

// QH software flag bits
/// The QH slot is currently allocated (in use).
pub const QH_FLAG_USED: u8 = 1 << 0;

/// The QH has been unlinked and is awaiting async advance doorbell.
pub const QH_FLAG_REMOVING: u8 = 1 << 1;

// ---------------------------------------------------------------------------
// QH endpoint characteristics (word 1), EHCI section 3.6.2
// ---------------------------------------------------------------------------

/// Bit offset for device address in characteristics word.
const QH_CHAR_ADDR_SHIFT: u32 = 0;

/// Bit offset for endpoint number in characteristics word.
const QH_CHAR_ENDPT_SHIFT: u32 = 8;

/// Bit offset for endpoint speed in characteristics word.
const QH_CHAR_SPEED_SHIFT: u32 = 12;

/// Data toggle control bit: 1 = use DT from qTD, 0 = use DT from QH overlay.
const QH_CHAR_DTC_SHIFT: u32 = 14;

/// Head of reclamation list flag.
const QH_CHAR_HEAD_SHIFT: u32 = 15;

/// Bit offset for maximum packet size in characteristics word.
const QH_CHAR_MAX_PKT_SHIFT: u32 = 16;

/// Control endpoint flag: must be set for FS/LS control endpoints.
const QH_CHAR_CTRL_EP_SHIFT: u32 = 27;

/// Bit offset for NAK count reload in characteristics word.
const QH_CHAR_NAK_RL_SHIFT: u32 = 28;

/// One for `true`, zero for `false`.
pub open spec fn bit(b: bool) -> u32 {
    if b {
        1u32
    } else {
        0u32
    }
}

/// The endpoint characteristics word: each field at its place, the control endpoint
/// flag set for control endpoints that are not High Speed, and a NAK reload of 15.
pub open spec fn qh_characteristics_word(
    address: u8,
    endpoint: u8,
    speed: u32,
    max_packet_size: u16,
    is_control: bool,
    is_head: bool,
) -> u32 {
    (address as u32) << 0 | (endpoint as u32) << 8 | speed << 12 | bit(is_control) << 14 | bit(
        is_head,
    ) << 15 | (max_packet_size as u32) << 16 | bit(is_control && speed != SPEED_HIGH) << 27
        | 15u32 << 28
}

/// Build the QH endpoint characteristics word (word 1).
///
/// # Arguments
/// - `address`: USB device address (0-127)
/// - `endpoint`: endpoint number (0-15)
/// - `speed`: [`SPEED_FULL`](crate::ehci::SPEED_FULL),
///   [`SPEED_LOW`](crate::ehci::SPEED_LOW), or [`SPEED_HIGH`]
/// - `max_packet_size`: maximum packet size (0-1024)
/// - `is_control`: `true` for control endpoints (enables DTC and control EP flag for FS/LS)
/// - `is_head`: `true` if this is the head of the async reclamation list
#[verifier::when_used_as_spec(qh_characteristics_word)]
pub fn qh_characteristics(
    address: u8,
    endpoint: u8,
    speed: u32,
    max_packet_size: u16,
    is_control: bool,
    is_head: bool,
) -> (word: u32)
    ensures
        word == qh_characteristics_word(
            address,
            endpoint,
            speed,
            max_packet_size,
            is_control,
            is_head,
        ),
        address < 0x80 && endpoint < 0x10 && speed < 4 && max_packet_size < 0x800 ==> word
            == address + 0x100 * endpoint + 0x1000 * speed + 0x4000 * bit(is_control) + 0x8000
            * bit(is_head) + 0x1_0000 * max_packet_size + 0x800_0000 * bit(
            is_control && speed != SPEED_HIGH,
        ) + 0xF000_0000,
        word == (address as u32) << 0 | (endpoint as u32) << 8 | speed << 12 | (if is_control {
            1u32
        } else {
            0u32
        }) << 14 | (if is_head {
            1u32
        } else {
            0u32
        }) << 15 | (max_packet_size as u32) << 16 | (if is_control && speed != 2 {
            1u32
        } else {
            0u32
        }) << 27 | 15u32 << 28,
{
    let dtc: u32 = if is_control {
        1u32
    } else {
        0u32
    };
    let ctrl_ep: u32 = if is_control && speed != SPEED_HIGH {
        1u32
    } else {
        0u32
    };
    let head: u32 = if is_head {
        1u32
    } else {
        0u32
    };
    proof {
        if address < 0x80 && endpoint < 0x10 && speed < 4 && max_packet_size < 0x800 {
            lemma_characteristics_sum(
                address,
                endpoint,
                speed,
                max_packet_size,
                is_control,
                is_head,
            );
        }
    }
    (address as u32) << QH_CHAR_ADDR_SHIFT | (endpoint as u32) << QH_CHAR_ENDPT_SHIFT | speed
        << QH_CHAR_SPEED_SHIFT | dtc << QH_CHAR_DTC_SHIFT | head << QH_CHAR_HEAD_SHIFT | (
    max_packet_size as u32) << QH_CHAR_MAX_PKT_SHIFT | ctrl_ep << QH_CHAR_CTRL_EP_SHIFT | 15u32
        << QH_CHAR_NAK_RL_SHIFT
}

// ---------------------------------------------------------------------------
// QH endpoint capabilities (word 2), EHCI section 3.6.2
// ---------------------------------------------------------------------------

/// Bit offset for interrupt schedule mask (S-mask) in capabilities word.
const QH_CAP_SMASK_SHIFT: u32 = 0;

/// Bit offset for split completion mask (C-mask) in capabilities word.
const QH_CAP_CMASK_SHIFT: u32 = 8;

/// Bit offset for hub address in capabilities word.
const QH_CAP_HUB_ADDR_SHIFT: u32 = 16;

/// Bit offset for hub port number in capabilities word.
const QH_CAP_HUB_PORT_SHIFT: u32 = 23;

/// Bit offset for high-bandwidth pipe multiplier in capabilities word.
const QH_CAP_MULT_SHIFT: u32 = 30;

/// The endpoint capabilities word: each field at its place.
pub open spec fn qh_capabilities_word(
    smask: u8,
    cmask: u8,
    hub_addr: u8,
    hub_port: u8,
    mult: u8,
) -> u32 {
    (smask as u32) << 0 | (cmask as u32) << 8 | (hub_addr as u32) << 16 | (hub_port as u32) << 23
        | (mult as u32) << 30
}

/// Build the QH endpoint capabilities word (word 2).
///
/// # Arguments
/// - `smask`: interrupt schedule mask (micro-frame bitmask, 0 for async)
/// - `cmask`: split completion mask (0 for non-split or async)
/// - `hub_addr`: hub address for split transactions (0 if not behind a hub)
/// - `hub_port`: hub port for split transactions (0 if not behind a hub)
/// - `mult`: high-bandwidth multiplier (1 for most transfers)
#[verifier::when_used_as_spec(qh_capabilities_word)]
pub fn qh_capabilities(smask: u8, cmask: u8, hub_addr: u8, hub_port: u8, mult: u8) -> (word: u32)
    ensures
        word == qh_capabilities_word(smask, cmask, hub_addr, hub_port, mult),
        hub_addr < 0x80 && hub_port < 0x80 && mult < 4 ==> word == smask + 0x100 * cmask + 0x1_0000
            * hub_addr + 0x80_0000 * hub_port + 0x4000_0000 * mult,
        word == (smask as u32) << 0 | (cmask as u32) << 8 | (hub_addr as u32) << 16 | (
        hub_port as u32) << 23 | (mult as u32) << 30,
{
    proof {
        if hub_addr < 0x80 && hub_port < 0x80 && mult < 4 {
            lemma_capabilities_sum(smask, cmask, hub_addr, hub_port, mult);
        }
    }
    (smask as u32) << QH_CAP_SMASK_SHIFT | (cmask as u32) << QH_CAP_CMASK_SHIFT | (hub_addr as u32)
        << QH_CAP_HUB_ADDR_SHIFT | (hub_port as u32) << QH_CAP_HUB_PORT_SHIFT | (mult as u32)
        << QH_CAP_MULT_SHIFT
}

// ---------------------------------------------------------------------------
// Queue head
// ---------------------------------------------------------------------------

/// Queue Head (QH).
///
/// Describes an endpoint and contains an overlay area (embedded qTD) for the
/// currently-executing transfer. QHs are linked into the async schedule (circular
/// list for control/bulk) or the periodic schedule (for interrupt endpoints).
///
/// | Word | Field | Description |
/// |------|-------|-------------|
/// | 0 | `horizontal_link` | Next QH in the schedule (circular for async) |
/// | 1 | `characteristics` | Device address, endpoint, speed, max packet size |
/// | 2 | `capabilities` | Hub/port (split transactions), interrupt schedule mask |
/// | 3 | `current_qtd` | Pointer to current qTD (managed by controller) |
/// | 4-11 | `overlay` | Transfer overlay: embedded qTD (managed by controller) |
/// | 12-15 | (software) | Driver-private fields (not seen by hardware) |
#[derive(Debug, Clone, Copy, PartialEq, Eq)]
pub struct QueueHead {
    /// Horizontal link pointer: next QH in the schedule.
    pub horizontal_link: VCell<u32>,
    /// Endpoint characteristics (word 1), built with [`qh_characteristics`].
    pub characteristics: VCell<u32>,
    /// Endpoint capabilities (word 2), built with [`qh_capabilities`].
    pub capabilities: VCell<u32>,
    /// Current qTD pointer (word 3), managed by the controller.
    pub current_qtd: VCell<u32>,
    /// Overlay: next qTD pointer (word 4).
    pub overlay_next: VCell<u32>,
    /// Overlay: alternate next qTD pointer (word 5).
    pub overlay_alt_next: VCell<u32>,
    /// Overlay: qTD token (word 6).
    pub overlay_token: VCell<u32>,
    /// Overlay: buffer page pointers (words 7-11).
    pub overlay_buffer: [VCell<u32>; 5],
    /// Software: which qTD is currently attached (for completion tracking).
    pub attached_qtd: VCell<u32>,
    /// Software: original buffer address (for cache maintenance on completion).
    pub attached_buffer: VCell<u32>,
    /// Software: packed byte with status flags ([`QH_FLAG_USED`], [`QH_FLAG_REMOVING`]).
    pub sw_flags: VCell<u8>,
    /// Software: cached PID direction for this endpoint.
    pub sw_pid: VCell<u8>,
    /// Software: polling interval in frames (interrupt endpoints).
    pub sw_interval_ms: VCell<u8>,
    /// Software: reserved padding to fill to 64 bytes.
    pub pad: [u8; 5],
}

impl QueueHead {
    /// Size of a QH in DMA memory, in bytes.
    pub const SIZE: u32 = 64;

    /// Alignment of a QH in DMA memory, in bytes.
    pub const ALIGN: u32 = 64;

    /// Byte offset of the horizontal link in a QH.
    pub const HORIZONTAL_LINK_OFFSET: u32 = 0;

    /// Byte offset of the overlay's next qTD pointer in a QH.
    pub const OVERLAY_NEXT_OFFSET: u32 = 16;

    /// Byte offset of the status flags in a QH.
    pub const SW_FLAGS_OFFSET: u32 = 56;

    /// A queue head with all fields 0 and every link terminated.
    pub open spec fn blank() -> Self {
        QueueHead {
            horizontal_link: VCell(LINK_TERMINATE),
            characteristics: VCell(0),
            capabilities: VCell(0),
            current_qtd: VCell(0),
            overlay_next: VCell(LINK_TERMINATE),
            overlay_alt_next: VCell(LINK_TERMINATE),
            overlay_token: VCell(0),
            overlay_buffer: [VCell(0u32), VCell(0u32), VCell(0u32), VCell(0u32), VCell(0u32)],
            attached_qtd: VCell(0),
            attached_buffer: VCell(0),
            sw_flags: VCell(0),
            sw_pid: VCell(0),
            sw_interval_ms: VCell(0),
            pad: [0u8, 0u8, 0u8, 0u8, 0u8],
        }
    }

    /// This queue head, in use for an endpoint: linked to nothing, its overlay halted,
    /// and nothing attached. Of what it held before, only the padding stays.
    pub open spec fn as_endpoint(self, characteristics: u32, capabilities: u32) -> Self {
        QueueHead {
            characteristics: VCell(characteristics),
            capabilities: VCell(capabilities),
            overlay_token: VCell(QTD_TOKEN_HALTED),
            sw_flags: VCell(QH_FLAG_USED),
            pad: self.pad,
            ..Self::blank()
        }
    }

    /// This queue head, at the address `addr`, as the async schedule sentinel: the head
    /// of the reclamation list, linked to itself, its overlay halted.
    pub open spec fn as_sentinel(self, addr: u32) -> Self {
        QueueHead {
            horizontal_link: VCell(link_pointer(addr, link_type::QH)),
            characteristics: VCell(qh_characteristics(0, 0, SPEED_HIGH, 0, false, true)),
            capabilities: VCell(qh_capabilities(0, 0, 0, 0, 1)),
            current_qtd: VCell(0),
            overlay_next: VCell(LINK_TERMINATE),
            overlay_alt_next: VCell(LINK_TERMINATE),
            overlay_token: VCell(QTD_TOKEN_HALTED),
            ..self
        }
    }

    /// This queue head, with the qTD at `qtd_addr` to execute next and its overlay
    /// token cleared.
    pub open spec fn with_qtd(self, qtd_addr: u32) -> Self {
        QueueHead {
            attached_qtd: VCell(qtd_addr),
            overlay_next: VCell(qtd_addr),
            overlay_token: VCell(0),
            ..self
        }
    }

    /// This queue head, with another successor in its schedule.
    pub open spec fn with_link(self, link: u32) -> Self {
        QueueHead { horizontal_link: VCell(link), ..self }
    }

    /// Create a zeroed-out queue head (terminated, inactive).
    pub fn new() -> (qh: Self)
        ensures
            qh == Self::blank(),
    {
        let qh = QueueHead {
            horizontal_link: VCell::new(LINK_TERMINATE),
            characteristics: VCell::new(0),
            capabilities: VCell::new(0),
            current_qtd: VCell::new(0),
            overlay_next: VCell::new(LINK_TERMINATE),
            overlay_alt_next: VCell::new(LINK_TERMINATE),
            overlay_token: VCell::new(0),
            overlay_buffer: [VCell(0u32), VCell(0u32), VCell(0u32), VCell(0u32), VCell(0u32)],
            attached_qtd: VCell::new(0),
            attached_buffer: VCell::new(0),
            sw_flags: VCell::new(0),
            sw_pid: VCell::new(0),
            sw_interval_ms: VCell::new(0),
            pad: [0u8, 0u8, 0u8, 0u8, 0u8],
        };
        assert(qh.overlay_buffer =~= Self::blank().overlay_buffer);
        assert(qh.pad =~= Self::blank().pad);
        qh
    }

    /// Initialise this QH as the async schedule sentinel (head of reclamation list).
    ///
    /// The sentinel QH points to itself (circular list) and has its overlay halted
    /// so the controller never tries to execute it. This is required by EHCI section 4.8.
    /// `self_addr` is the address of this QH in DMA memory.
    pub fn init_sentinel(&mut self, self_addr: u32)
        ensures
            *final(self) == old(self).as_sentinel(self_addr),
    {
        self.horizontal_link.write(link_pointer(self_addr, link_type::QH));
        // Mark as head of reclamation list, no real endpoint
        self.characteristics.write(qh_characteristics(0, 0, SPEED_HIGH, 0, false, true));
        self.capabilities.write(qh_capabilities(0, 0, 0, 0, 1));
        self.current_qtd.write(0);
        // Halt the overlay so the controller skips this QH
        self.overlay_token.write(QTD_TOKEN_HALTED);
        self.overlay_next.write(LINK_TERMINATE);
        self.overlay_alt_next.write(LINK_TERMINATE);
    }

    /// Initialise this QH for an endpoint.
    ///
    /// # Arguments
    /// - `characteristics`: built with [`qh_characteristics`]
    /// - `capabilities`: built with [`qh_capabilities`]
    ///
    /// The overlay is set to halted (no active transfer). The caller should
    /// link the first qTD via [`attach_qtd`](Self::attach_qtd) after this.
    pub fn init_endpoint(&mut self, characteristics: u32, capabilities: u32)
        ensures
            *final(self) == old(self).as_endpoint(characteristics, capabilities),
    {
        self.horizontal_link.write(LINK_TERMINATE);
        self.characteristics.write(characteristics);
        self.capabilities.write(capabilities);
        self.current_qtd.write(0);
        self.overlay_next.write(LINK_TERMINATE);
        self.overlay_alt_next.write(LINK_TERMINATE);
        self.overlay_token.write(QTD_TOKEN_HALTED);
        self.overlay_buffer = [VCell(0u32), VCell(0u32), VCell(0u32), VCell(0u32), VCell(0u32)];
        self.attached_qtd.write(0);
        self.attached_buffer.write(0);
        self.sw_flags.write(QH_FLAG_USED);
        self.sw_pid.write(0);
        self.sw_interval_ms.write(0);
        assert(self.overlay_buffer =~= Self::blank().overlay_buffer);
    }

    /// Attach a qTD to this QH for execution.
    ///
    /// Writes the qTD address into the overlay's `next` pointer and clears
    /// the halted status so the controller will pick it up.
    pub fn attach_qtd(&mut self, qtd_addr: u32)
        ensures
            *final(self) == old(self).with_qtd(qtd_addr),
    {
        self.attached_qtd.write(qtd_addr);
        // Write the qTD pointer into the overlay's next field
        self.overlay_next.write(qtd_addr);
        // Clear halt to let the controller fetch the qTD
        self.overlay_token.write(0);
    }

    /// Re-attach a qTD to this QH after it completes (interrupt pipe re-arm).
    ///
    /// Unlike [`QueueHead::attach_qtd`], this does **not** clear `overlay_token`, preserving
    /// the data toggle managed by the controller (`DTC = 0` mode). Used to
    /// re-arm an interrupt endpoint after each received packet.
    pub fn reattach_qtd_preserve_toggle(&mut self, qtd_addr: u32)
        ensures
            *final(self) == (QueueHead { overlay_next: VCell(qtd_addr), ..*old(self) }),
    {
        self.overlay_next.write(qtd_addr);
    }

    /// Set the data toggle bit in the QH overlay without disturbing other overlay fields.
    ///
    /// Used to initialize the hardware-managed toggle (DTC=0) before a bulk transfer.
    /// Must be called after [`attach_qtd`](Self::attach_qtd) (which clears overlay_token
    /// to 0) and before the cache clean / schedule link.
    pub fn set_overlay_toggle(&mut self, toggle: bool)
        ensures
            *final(self) == (QueueHead {
                overlay_token: VCell(
                    with_toggle(old(self).overlay_token@, toggle),
                ),
                ..*old(self)
            }),
    {
        let t: u32 = self.overlay_token.read();
        self.overlay_token.write(
            if toggle {
                t | (1 << 31)
            } else {
                t & !(1u32 << 31)
            },
        );
    }

    /// Link this QH into the async schedule after `prev`.
    ///
    /// Inserts `self`, which lies at `self_addr`, between `prev` and whatever `prev`
    /// currently points to.
    pub fn link_after(&mut self, self_addr: u32, prev: &mut QueueHead)
        ensures
            *final(self) == old(self).with_link(old(prev).horizontal_link@),
            *final(prev) == old(prev).with_link(link_pointer(self_addr, link_type::QH)),
    {
        // self -> prev's old successor
        self.horizontal_link.write(prev.horizontal_link.read());
        // prev -> self
        prev.horizontal_link.write(link_pointer(self_addr, link_type::QH));
    }
}

impl Default for QueueHead {
    fn default() -> (qh: Self)
        ensures
            qh == QueueHead::blank(),
    {
        Self::new()
    }
}

/// A token word with its data toggle bit (bit 31) set to `toggle`.
pub open spec fn with_toggle(token: u32, toggle: bool) -> u32 {
    if toggle {
        token | (1u32 << 31)
    } else {
        token & !(1u32 << 31)
    }
}

/// Setting the data toggle of a token leaves its other 31 bits alone, and the toggle can be
/// read back.
pub proof fn lemma_toggle(token: u32, toggle: bool)
    ensures
        (with_toggle(token, toggle) & (1u32 << 31) != 0) == toggle,
        with_toggle(token, toggle) % 0x8000_0000 == token % 0x8000_0000,
{
    lemma_toggle_value(token, toggle);
}

/// As a number, a token with its data toggle set is its lower 31 bits and the toggle above them;
/// the toggle of any token is its top bit.
pub proof fn lemma_toggle_value(token: u32, toggle: bool)
    ensures
        with_toggle(token, toggle) == token as int % 0x8000_0000 + (if toggle {
            0x8000_0000int
        } else {
            0
        }),
        token & (1u32 << 31) != 0 <==> token >= 0x8000_0000,
        with_toggle(token, toggle) & (1u32 << 31) != 0 <==> toggle,
{
    assert((token | (1u32 << 31)) == token % 0x8000_0000 + 0x8000_0000 && (token & !(1u32 << 31))
        == token % 0x8000_0000 && (token & (1u32 << 31) != 0 <==> token >= 0x8000_0000) && (token
        | (1u32 << 31)) & (1u32 << 31) != 0 && (token & !(1u32 << 31)) & (1u32 << 31) == 0)
        by (bit_vector);
}

/// The fields of an endpoint characteristics word can be read back; the data toggle control
/// bit marks a control endpoint, and the control endpoint flag one that is not High Speed.
pub proof fn lemma_characteristics_fields(
    address: u8,
    endpoint: u8,
    speed: u32,
    max_packet_size: u16,
    is_control: bool,
    is_head: bool,
)
    requires
        address < 0x80,
        endpoint < 0x10,
        speed < 4,
        max_packet_size < 0x800,
    ensures
        ({
            let word = qh_characteristics(
                address,
                endpoint,
                speed,
                max_packet_size,
                is_control,
                is_head,
            );
            &&& word & 0x7F == address
            &&& (word >> 8) & 0xF == endpoint
            &&& (word >> 12) & 3 == speed
            &&& (word >> 14) & 1 == bit(is_control)
            &&& (word >> 15) & 1 == bit(is_head)
            &&& (word >> 16) & 0x7FF == max_packet_size
            &&& (word >> 27) & 1 == bit(is_control && speed != SPEED_HIGH)
            &&& (word >> 28) & 0xF == 15
        }),
{
    let a = address as u32;
    let e = endpoint as u32;
    let m = max_packet_size as u32;
    let dtc = bit(is_control);
    let head = bit(is_head);
    let ctrl = bit(is_control && speed != SPEED_HIGH);
    let word = a << 0 | e << 8 | speed << 12 | dtc << 14 | head << 15 | m << 16 | ctrl << 27 | 15u32
        << 28;
    assert(word & 0x7F == a && (word >> 8) & 0xF == e && (word >> 12) & 3 == speed && (word >> 14)
        & 1 == dtc && (word >> 15) & 1 == head && (word >> 16) & 0x7FF == m && (word >> 27) & 1
        == ctrl && (word >> 28) & 0xF == 15) by (bit_vector)
        requires
            word == a << 0 | e << 8 | speed << 12 | dtc << 14 | head << 15 | m << 16 | ctrl << 27
                | 15u32 << 28,
            a < 0x80,
            e < 0x10,
            speed < 4,
            m < 0x800,
            dtc < 2,
            head < 2,
            ctrl < 2,
    ;
}

/// The fields of an endpoint capabilities word can be read back.
pub proof fn lemma_capabilities_fields(
    smask: u8,
    cmask: u8,
    hub_addr: u8,
    hub_port: u8,
    mult: u8,
)
    requires
        hub_addr < 0x80,
        hub_port < 0x80,
        mult < 4,
    ensures
        ({
            let word = qh_capabilities(smask, cmask, hub_addr, hub_port, mult);
            &&& word & 0xFF == smask
            &&& (word >> 8) & 0xFF == cmask
            &&& (word >> 16) & 0x7F == hub_addr
            &&& (word >> 23) & 0x7F == hub_port
            &&& (word >> 30) & 3 == mult
        }),
{
    let s = smask as u32;
    let c = cmask as u32;
    let h = hub_addr as u32;
    let p = hub_port as u32;
    let m = mult as u32;
    let word = s << 0 | c << 8 | h << 16 | p << 23 | m << 30;
    assert(word & 0xFF == s && (word >> 8) & 0xFF == c && (word >> 16) & 0x7F == h && (word >> 23)
        & 0x7F == p && (word >> 30) & 3 == m) by (bit_vector)
        requires
            word == s << 0 | c << 8 | h << 16 | p << 23 | m << 30,
            s < 0x100,
            c < 0x100,
            h < 0x80,
            p < 0x80,
            m < 4,
    ;
}

/// An endpoint characteristics word is the sum of its fields: the device address, the endpoint
/// number, the speed code, the data toggle control bit (control endpoints take the toggle from
/// the qTD), the head flag, the packet size, the control endpoint flag (control endpoints that
/// are not High Speed), and a NAK reload of 15.
pub proof fn lemma_characteristics_sum(
    address: u8,
    endpoint: u8,
    speed: u32,
    max_packet_size: u16,
    is_control: bool,
    is_head: bool,
)
    requires
        address < 0x80,
        endpoint < 0x10,
        speed < 4,
        max_packet_size < 0x800,
    ensures
        qh_characteristics(address, endpoint, speed, max_packet_size, is_control, is_head)
            == address + 0x100 * endpoint + 0x1000 * speed + (if is_control {
            0x4000int
        } else {
            0
        }) + (if is_head {
            0x8000int
        } else {
            0
        }) + 0x1_0000 * max_packet_size + (if is_control && speed != 2 {
            0x800_0000int
        } else {
            0
        }) + 0xF000_0000,
{
    let a = address as u32;
    let e = endpoint as u32;
    let m = max_packet_size as u32;
    let dtc = bit(is_control);
    let head = bit(is_head);
    let ctrl = bit(is_control && speed != SPEED_HIGH);
    assert((a << 0 | e << 8 | speed << 12 | dtc << 14 | head << 15 | m << 16 | ctrl << 27 | 15u32
        << 28) == a + 0x100 * e + 0x1000 * speed + 0x4000 * dtc + 0x8000 * head + 0x1_0000 * m
        + 0x800_0000 * ctrl + 0xF000_0000) by (bit_vector)
        requires
            a < 0x80,
            e < 0x10,
            speed < 4,
            m < 0x800,
            dtc < 2,
            head < 2,
            ctrl < 2,
    ;
}

/// An endpoint capabilities word is the sum of its fields.
pub proof fn lemma_capabilities_sum(smask: u8, cmask: u8, hub_addr: u8, hub_port: u8, mult: u8)
    requires
        hub_addr < 0x80,
        hub_port < 0x80,
        mult < 4,
    ensures
        qh_capabilities(smask, cmask, hub_addr, hub_port, mult) == smask + 0x100 * cmask + 0x1_0000
            * hub_addr + 0x80_0000 * hub_port + 0x4000_0000 * mult,
{
    let s = smask as u32;
    let c = cmask as u32;
    let h = hub_addr as u32;
    let p = hub_port as u32;
    let m = mult as u32;
    assert((s << 0 | c << 8 | h << 16 | p << 23 | m << 30) == s + 0x100 * c + 0x1_0000 * h
        + 0x80_0000 * p + 0x4000_0000 * m) by (bit_vector)
        requires
            s < 0x100,
            c < 0x100,
            h < 0x80,
            p < 0x80,
            m < 4,
    ;
}

/// A queue head that was set up for an endpoint holds the two words that describe the endpoint,
/// is marked as used, and is not executed yet: its overlay is halted, and it leads neither to a
/// qTD nor to another queue head.
pub proof fn lemma_endpoint(qh: QueueHead, characteristics: u32, capabilities: u32)
    ensures
        ({
            let set_up = qh.as_endpoint(characteristics, capabilities);
            &&& set_up.horizontal_link@ == 1
            &&& set_up.characteristics@ == characteristics
            &&& set_up.capabilities@ == capabilities
            &&& set_up.current_qtd@ == 0
            &&& set_up.overlay_next@ == 1
            &&& set_up.overlay_alt_next@ == 1
            &&& set_up.overlay_token@ == 0x40
            &&& forall|i: int| 0 <= i < 5 ==> (#[trigger] set_up.overlay_buffer[i])@ == 0
            &&& set_up.attached_qtd@ == 0
            &&& set_up.attached_buffer@ == 0
            &&& set_up.sw_flags@ == 1
            &&& set_up.sw_pid@ == 0
            &&& set_up.sw_interval_ms@ == 0
            &&& set_up.pad == qh.pad
        }),
{
    crate::ehci::qtd::lemma_token_bits();
    crate::ehci::lemma_codes();
}

/// The sentinel leads to itself, is the head of the reclamation list, describes a High Speed
/// endpoint 0 of device 0, and is never executed: its overlay is halted and leads to no qTD. What
/// the controller does not look at stays as it was.
pub proof fn lemma_sentinel(qh: QueueHead, addr: u32)
    requires
        addr % 32 == 0,
    ensures
        ({
            let sentinel = qh.as_sentinel(addr);
            &&& sentinel.horizontal_link@ == addr + 2
            &&& sentinel.characteristics@ == 0xF000_A000
            &&& sentinel.capabilities@ == 0x4000_0000
            &&& sentinel.current_qtd@ == 0
            &&& sentinel.overlay_next@ == 1
            &&& sentinel.overlay_alt_next@ == 1
            &&& sentinel.overlay_token@ == 0x40
            &&& sentinel.overlay_buffer == qh.overlay_buffer
            &&& sentinel.attached_qtd == qh.attached_qtd
            &&& sentinel.attached_buffer == qh.attached_buffer
            &&& sentinel.sw_flags == qh.sw_flags
            &&& sentinel.sw_pid == qh.sw_pid
            &&& sentinel.sw_interval_ms == qh.sw_interval_ms
            &&& sentinel.pad == qh.pad
        }),
{
    crate::ehci::qtd::lemma_token_bits();
    crate::ehci::lemma_codes();
    crate::ehci::lemma_link_sum(addr, link_type::QH, 0);
    lemma_characteristics_sum(0, 0, SPEED_HIGH, 0, false, true);
    lemma_capabilities_sum(0, 0, 0, 0, 1);
}

/// Attaching a qTD makes it the next one to execute, with a cleared overlay token, and changes
/// neither the endpoint nor the place of the queue head in its schedule; linking changes that
/// place only.
pub proof fn lemma_attached(qh: QueueHead, addr: u32)
    ensures
        ({
            let attached = qh.with_qtd(addr);
            &&& attached.overlay_next@ == addr
            &&& attached.attached_qtd@ == addr
            &&& attached.overlay_token@ == 0
            &&& attached == (QueueHead {
                overlay_next: attached.overlay_next,
                attached_qtd: attached.attached_qtd,
                overlay_token: attached.overlay_token,
                ..qh
            })
        }),
        qh.with_link(addr).horizontal_link@ == addr,
        qh.with_link(addr) == (QueueHead { horizontal_link: VCell(addr), ..qh }),
{
}

/// A new queue head is unused, describes no endpoint, and leads nowhere.
pub proof fn lemma_blank_qh()
    ensures
        ({
            let qh = QueueHead::blank();
            &&& qh.horizontal_link@ == 1
            &&& qh.characteristics@ == 0
            &&& qh.capabilities@ == 0
            &&& qh.current_qtd@ == 0
            &&& qh.overlay_next@ == 1
            &&& qh.overlay_alt_next@ == 1
            &&& qh.overlay_token@ == 0
            &&& forall|i: int| 0 <= i < 5 ==> (#[trigger] qh.overlay_buffer[i])@ == 0
            &&& qh.attached_qtd@ == 0
            &&& qh.attached_buffer@ == 0
            &&& qh.sw_flags@ == 0
            &&& qh.sw_pid@ == 0
            &&& qh.sw_interval_ms@ == 0
            &&& forall|i: int| 0 <= i < 5 ==> #[trigger] qh.pad[i] == 0
        }),
{
    crate::ehci::qtd::lemma_token_bits();
}

} // verus!
