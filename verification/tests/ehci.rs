//! EHCI data structures.

use core::mem;
use imxrt_usbh::ehci::{
    link_address, link_is_terminate, link_pointer, link_type, qh_capabilities, qh_characteristics,
    qtd_token, qtd_token_bytes_remaining, FrameList, QueueHead, TransferDescriptor,
    FRAME_LIST_LEN, LINK_TERMINATE, PID_IN, PID_OUT, PID_SETUP, QH_FLAG_USED,
    QTD_MAX_TRANSFER_SIZE, QTD_TOKEN_ACTIVE, QTD_TOKEN_BABBLE, QTD_TOKEN_BUFFER_ERR,
    QTD_TOKEN_ERROR_MASK, QTD_TOKEN_HALTED, QTD_TOKEN_IOC, QTD_TOKEN_MISSED_UFRAME,
    QTD_TOKEN_STATUS_MASK, QTD_TOKEN_XACT_ERR, SPEED_FULL, SPEED_HIGH, SPEED_LOW,
};

// -----------------------------------------------------------------------
// Link pointer helpers
// -----------------------------------------------------------------------

#[test]
fn link_pointer_constructs_qh_link() {
    let addr: u32 = 0x2000_0040; // 64-byte aligned
    let lp = link_pointer(addr, link_type::QH);
    assert_eq!(link_address(lp), addr);
    assert!(!link_is_terminate(lp));
    // type bits [2:1] = 0b01 for QH
    assert_eq!(lp & 0b110, link_type::QH);
}

#[test]
fn link_pointer_masks_low_bits() {
    // Address with low bits set - they should be masked off.
    let lp = link_pointer(0x2000_001F, link_type::ITD);
    assert_eq!(link_address(lp), 0x2000_0000);
    assert_eq!(lp & 0b110, link_type::ITD);
}

#[test]
fn link_terminate_detected() {
    assert!(link_is_terminate(LINK_TERMINATE));
    assert!(link_is_terminate(0xFFFF_FFFF));
    assert!(!link_is_terminate(0x2000_0000 | link_type::QH));
}

#[test]
fn link_pointer_all_types() {
    let addr: u32 = 0x2000_0020;
    assert_eq!(link_pointer(addr, link_type::ITD) & 0b110, link_type::ITD);
    assert_eq!(link_pointer(addr, link_type::QH) & 0b110, link_type::QH);
    assert_eq!(link_pointer(addr, link_type::SITD) & 0b110, link_type::SITD);
    assert_eq!(link_pointer(addr, link_type::FSTN) & 0b110, link_type::FSTN);
}

// -----------------------------------------------------------------------
// qTD token builder
// -----------------------------------------------------------------------

#[test]
fn qtd_token_out_64_bytes_data0_no_ioc() {
    let tok = qtd_token(PID_OUT, 64, false, false);
    // Active bit set
    assert_ne!(tok & QTD_TOKEN_ACTIVE, 0);
    // PID = OUT (0) at bits [9:8]
    assert_eq!((tok >> 8) & 0x3, PID_OUT);
    // CERR = 3 at bits [11:10]
    assert_eq!((tok >> 10) & 0x3, 3);
    // total_bytes = 64 at bits [30:16]
    assert_eq!(qtd_token_bytes_remaining(tok), 64);
    // DT = 0 at bit 31
    assert_eq!(tok >> 31, 0);
    // IOC not set
    assert_eq!(tok & QTD_TOKEN_IOC, 0);
}

#[test]
fn qtd_token_in_512_bytes_data1_ioc() {
    let tok = qtd_token(PID_IN, 512, true, true);
    assert_ne!(tok & QTD_TOKEN_ACTIVE, 0);
    assert_eq!((tok >> 8) & 0x3, PID_IN);
    assert_eq!(qtd_token_bytes_remaining(tok), 512);
    assert_eq!(tok >> 31, 1); // DT = 1
    assert_ne!(tok & QTD_TOKEN_IOC, 0);
}

#[test]
fn qtd_token_setup_8_bytes() {
    let tok = qtd_token(PID_SETUP, 8, false, false);
    assert_eq!((tok >> 8) & 0x3, PID_SETUP);
    assert_eq!(qtd_token_bytes_remaining(tok), 8);
}

#[test]
fn qtd_token_zero_length() {
    let tok = qtd_token(PID_IN, 0, false, true);
    assert_eq!(qtd_token_bytes_remaining(tok), 0);
    assert_ne!(tok & QTD_TOKEN_IOC, 0);
}

#[test]
fn qtd_token_max_transfer() {
    let tok = qtd_token(PID_IN, QTD_MAX_TRANSFER_SIZE, false, false);
    assert_eq!(qtd_token_bytes_remaining(tok), QTD_MAX_TRANSFER_SIZE);
}

#[test]
fn qtd_token_bytes_remaining_extracts_correctly() {
    // Manually construct a token with known total_bytes
    let bytes: u32 = 1234;
    let tok = bytes << 16 | QTD_TOKEN_ACTIVE;
    assert_eq!(qtd_token_bytes_remaining(tok), 1234);
}

// -----------------------------------------------------------------------
// QH Characteristics builder
// -----------------------------------------------------------------------

#[test]
fn qh_char_control_endpoint_full_speed() {
    let ch = qh_characteristics(1, 0, SPEED_FULL, 64, true, false);
    // Device address = 1 at bits [6:0]
    assert_eq!(ch & 0x7F, 1);
    // Endpoint = 0 at bits [11:8]
    assert_eq!((ch >> 8) & 0xF, 0);
    // Speed = FULL at bits [13:12]
    assert_eq!((ch >> 12) & 0x3, SPEED_FULL);
    // DTC = 1 at bit 14 (control endpoint)
    assert_eq!((ch >> 14) & 1, 1);
    // Head = 0 at bit 15
    assert_eq!((ch >> 15) & 1, 0);
    // Max packet = 64 at bits [26:16]
    assert_eq!((ch >> 16) & 0x7FF, 64);
    // Control EP flag = 1 at bit 27 (FS control)
    assert_eq!((ch >> 27) & 1, 1);
    // NAK RL = 15 at bits [31:28]
    assert_eq!((ch >> 28) & 0xF, 15);
}

#[test]
fn qh_char_bulk_high_speed() {
    let ch = qh_characteristics(5, 2, SPEED_HIGH, 512, false, false);
    assert_eq!(ch & 0x7F, 5); // address
    assert_eq!((ch >> 8) & 0xF, 2); // endpoint
    assert_eq!((ch >> 12) & 0x3, SPEED_HIGH); // speed
    assert_eq!((ch >> 14) & 1, 0); // DTC=0 (not control)
    assert_eq!((ch >> 16) & 0x7FF, 512); // max packet
    assert_eq!((ch >> 27) & 1, 0); // control EP flag = 0 (HS)
}

#[test]
fn qh_char_control_high_speed_no_ctrl_flag() {
    // HS control endpoint: DTC=1 but control EP flag should be 0
    let ch = qh_characteristics(1, 0, SPEED_HIGH, 64, true, false);
    assert_eq!((ch >> 14) & 1, 1); // DTC=1 (control)
    assert_eq!((ch >> 27) & 1, 0); // ctrl_ep flag = 0 (HS doesn't set it)
}

#[test]
fn qh_char_head_of_reclamation() {
    let ch = qh_characteristics(0, 0, SPEED_HIGH, 0, false, true);
    assert_eq!((ch >> 15) & 1, 1); // head flag
}

#[test]
fn qh_char_low_speed_control() {
    let ch = qh_characteristics(3, 0, SPEED_LOW, 8, true, false);
    assert_eq!((ch >> 12) & 0x3, SPEED_LOW);
    assert_eq!((ch >> 27) & 1, 1); // LS control -> ctrl_ep flag set
    assert_eq!((ch >> 16) & 0x7FF, 8);
}

// -----------------------------------------------------------------------
// QH Capabilities builder
// -----------------------------------------------------------------------

#[test]
fn qh_cap_async_no_split() {
    let cap = qh_capabilities(0, 0, 0, 0, 1);
    assert_eq!(cap & 0xFF, 0); // smask = 0
    assert_eq!((cap >> 8) & 0xFF, 0); // cmask = 0
    assert_eq!((cap >> 16) & 0x7F, 0); // hub addr = 0
    assert_eq!((cap >> 23) & 0x7F, 0); // hub port = 0
    assert_eq!((cap >> 30) & 0x3, 1); // mult = 1
}

#[test]
fn qh_cap_interrupt_with_split() {
    let cap = qh_capabilities(0x04, 0x1C, 7, 1, 1);
    assert_eq!(cap & 0xFF, 0x04); // smask
    assert_eq!((cap >> 8) & 0xFF, 0x1C); // cmask
    assert_eq!((cap >> 16) & 0x7F, 7); // hub addr
    assert_eq!((cap >> 23) & 0x7F, 1); // hub port
    assert_eq!((cap >> 30) & 0x3, 1); // mult
}

#[test]
fn qh_cap_high_bandwidth_mult() {
    let cap = qh_capabilities(0, 0, 0, 0, 3);
    assert_eq!((cap >> 30) & 0x3, 3);
}

// -----------------------------------------------------------------------
// TransferDescriptor
// -----------------------------------------------------------------------

#[test]
fn td_new_is_terminated() {
    let td = TransferDescriptor::new();
    assert_eq!(td.next.read(), LINK_TERMINATE);
    assert_eq!(td.alt_next.read(), LINK_TERMINATE);
    assert_eq!(td.token.read(), 0);
    for buf in &td.buffer {
        assert_eq!(buf.read(), 0);
    }
}

#[test]
fn td_default_matches_new() {
    let a = TransferDescriptor::new();
    let b = TransferDescriptor::default();
    assert_eq!(a.next.read(), b.next.read());
    assert_eq!(a.alt_next.read(), b.alt_next.read());
    assert_eq!(a.token.read(), b.token.read());
}

#[test]
fn td_size_and_alignment() {
    assert_eq!(TransferDescriptor::SIZE, 32);
    assert_eq!(TransferDescriptor::ALIGN, 32);
    assert_eq!(mem::size_of::<TransferDescriptor>(), 32);
}

#[test]
fn td_init_sets_fields() {
    let mut td = TransferDescriptor::new();
    let buffer: u32 = 0x2020_0040;
    let tok = qtd_token(PID_IN, 64, true, true);

    td.init(tok, buffer, 64);

    assert_eq!(td.next.read(), LINK_TERMINATE);
    assert_eq!(td.alt_next.read(), LINK_TERMINATE);
    assert_eq!(td.token.read(), tok);
    assert_eq!(td.buffer[0].read(), buffer);
}

#[test]
fn td_is_complete_when_active_cleared() {
    let mut td = TransferDescriptor::new();
    td.token.write(QTD_TOKEN_ACTIVE);
    assert!(!td.is_complete());

    td.token.write(0); // active cleared
    assert!(td.is_complete());
}

#[test]
fn td_has_error_flags() {
    let mut td = TransferDescriptor::new();
    td.token.write(0);
    assert!(!td.has_error());

    td.token.write(QTD_TOKEN_HALTED);
    assert!(td.has_error());

    td.token.write(QTD_TOKEN_BABBLE);
    assert!(td.has_error());

    td.token.write(QTD_TOKEN_XACT_ERR);
    assert!(td.has_error());
}

#[test]
fn td_bytes_remaining() {
    let mut td = TransferDescriptor::new();
    let tok = qtd_token(PID_IN, 256, false, false);
    td.token.write(tok);
    assert_eq!(td.bytes_remaining(), 256);

    // Simulate controller decrementing bytes
    td.token.write(tok & !(0x7FFF << 16) | (128 << 16));
    assert_eq!(td.bytes_remaining(), 128);
}

// -----------------------------------------------------------------------
// QueueHead
// -----------------------------------------------------------------------

#[test]
fn qh_new_is_terminated() {
    let qh = QueueHead::new();
    assert_eq!(qh.horizontal_link.read(), LINK_TERMINATE);
    assert_eq!(qh.characteristics.read(), 0);
    assert_eq!(qh.capabilities.read(), 0);
    assert_eq!(qh.current_qtd.read(), 0);
    assert_eq!(qh.overlay_next.read(), LINK_TERMINATE);
    assert_eq!(qh.overlay_alt_next.read(), LINK_TERMINATE);
    assert_eq!(qh.overlay_token.read(), 0);
    assert_eq!(qh.sw_flags.read(), 0);
}

#[test]
fn qh_default_matches_new() {
    let a = QueueHead::new();
    let b = QueueHead::default();
    assert_eq!(a.horizontal_link.read(), b.horizontal_link.read());
    assert_eq!(a.characteristics.read(), b.characteristics.read());
    assert_eq!(a.overlay_token.read(), b.overlay_token.read());
}

#[test]
fn qh_size_and_alignment() {
    assert_eq!(QueueHead::SIZE, 64);
    assert_eq!(QueueHead::ALIGN, 64);
    assert_eq!(mem::size_of::<QueueHead>(), 64);
}

#[test]
fn qh_init_endpoint_sets_used_flag() {
    let mut qh = QueueHead::new();
    let ch = qh_characteristics(1, 0, SPEED_FULL, 64, true, false);
    let cap = qh_capabilities(0, 0, 0, 0, 1);
    qh.init_endpoint(ch, cap);

    assert_eq!(qh.characteristics.read(), ch);
    assert_eq!(qh.capabilities.read(), cap);
    assert_eq!(qh.overlay_token.read(), QTD_TOKEN_HALTED);
    assert_ne!(qh.sw_flags.read() & QH_FLAG_USED, 0);
}

#[test]
fn qh_attach_qtd_clears_halt() {
    let mut qh = QueueHead::new();
    let ch = qh_characteristics(1, 1, SPEED_HIGH, 512, false, false);
    qh.init_endpoint(ch, qh_capabilities(0, 0, 0, 0, 1));
    assert_ne!(qh.overlay_token.read() & QTD_TOKEN_HALTED, 0);

    let td: u32 = 0x2020_0100;
    qh.attach_qtd(td);
    assert_eq!(qh.overlay_next.read(), td);
    assert_eq!(qh.overlay_token.read(), 0); // halt cleared
}

#[test]
fn qh_set_overlay_toggle() {
    let mut qh = QueueHead::new();
    qh.overlay_token.write(0);

    qh.set_overlay_toggle(true);
    assert_eq!(qh.overlay_token.read() >> 31, 1);

    qh.set_overlay_toggle(false);
    assert_eq!(qh.overlay_token.read() >> 31, 0);
}

// -----------------------------------------------------------------------
// FrameList
// -----------------------------------------------------------------------

#[test]
fn frame_list_new_all_terminated() {
    let fl = FrameList::new();
    for entry in &fl.entries {
        assert!(link_is_terminate(entry.read()));
    }
}

#[test]
fn frame_list_default_matches_new() {
    let fl = FrameList::default();
    for entry in &fl.entries {
        assert!(link_is_terminate(entry.read()));
    }
}

#[test]
fn frame_list_length() {
    assert_eq!(FRAME_LIST_LEN, 32);
}

#[test]
fn frame_list_size_and_alignment() {
    assert_eq!(FrameList::SIZE, 4096);
    assert_eq!(FrameList::ALIGN, 4096);
}

// -----------------------------------------------------------------------
// Constants sanity checks
// -----------------------------------------------------------------------

#[test]
fn error_mask_covers_all_error_bits() {
    assert_ne!(QTD_TOKEN_ERROR_MASK & QTD_TOKEN_HALTED, 0);
    assert_ne!(QTD_TOKEN_ERROR_MASK & QTD_TOKEN_BUFFER_ERR, 0);
    assert_ne!(QTD_TOKEN_ERROR_MASK & QTD_TOKEN_BABBLE, 0);
    assert_ne!(QTD_TOKEN_ERROR_MASK & QTD_TOKEN_XACT_ERR, 0);
    assert_ne!(QTD_TOKEN_ERROR_MASK & QTD_TOKEN_MISSED_UFRAME, 0);
    // Active bit should NOT be in error mask
    assert_eq!(QTD_TOKEN_ERROR_MASK & QTD_TOKEN_ACTIVE, 0);
}

#[test]
fn status_mask_covers_full_byte() {
    assert_eq!(QTD_TOKEN_STATUS_MASK, 0xFF);
}

#[test]
fn pid_codes_are_distinct() {
    assert_ne!(PID_OUT, PID_IN);
    assert_ne!(PID_IN, PID_SETUP);
    assert_ne!(PID_OUT, PID_SETUP);
}

#[test]
fn speed_codes_are_distinct() {
    assert_ne!(SPEED_FULL, SPEED_LOW);
    assert_ne!(SPEED_LOW, SPEED_HIGH);
    assert_ne!(SPEED_FULL, SPEED_HIGH);
}

// ---------------------------------------------------------------------------
// Further cases
// ---------------------------------------------------------------------------

#[test]
fn words_have_their_exact_values() {
    assert_eq!(link_pointer(0x2020_0040, link_type::QH), 0x2020_0042);
    assert_eq!(qtd_token(PID_SETUP, 8, false, false), 0x0008_0E80);
    assert_eq!(qtd_token(PID_IN, 18, true, false), 0x8012_0D80);
    assert_eq!(qtd_token(PID_OUT, 0, true, true), 0x8000_8C80);
    assert_eq!(qh_characteristics(1, 0, SPEED_FULL, 64, true, false), 0xF840_4001);
    assert_eq!(qh_capabilities(0x01, 0, 0, 0, 1), 0x4000_0001);
}

#[test]
fn td_buffer_pages_follow_one_another() {
    let mut td = TransferDescriptor::new();
    td.init(qtd_token(PID_OUT, 100, false, true), 0x2020_1F80, 100);
    assert_eq!(td.buffer[0].read(), 0x2020_1F80);
    assert_eq!(td.buffer[1].read(), 0x2020_2000);
    assert_eq!(td.buffer[2].read(), 0x2020_3000);
    assert_eq!(td.buffer[3].read(), 0x2020_4000);
    assert_eq!(td.buffer[4].read(), 0x2020_5000);
    // The last buffer whose pages end with the address space
    td.init(0, 0xFFFF_BFFF, 0);
    assert_eq!(td.buffer[4].read(), 0xFFFF_F000);
}

#[test]
fn qh_sentinel_leads_to_itself() {
    let mut qh = QueueHead::new();
    qh.init_sentinel(0x2020_0040);
    assert_eq!(link_address(qh.horizontal_link.read()), 0x2020_0040);
    assert!(!link_is_terminate(qh.horizontal_link.read()));
    assert_eq!((qh.characteristics.read() >> 15) & 1, 1);
    assert_eq!(qh.overlay_token.read(), QTD_TOKEN_HALTED);
    assert_eq!(qh.overlay_next.read(), LINK_TERMINATE);
}

#[test]
fn qh_link_after_inserts() {
    let mut first = QueueHead::new();
    first.init_sentinel(0x2020_0000);
    let mut second = QueueHead::new();
    second.link_after(0x2020_0040, &mut first);
    assert_eq!(link_address(first.horizontal_link.read()), 0x2020_0040);
    assert_eq!(link_address(second.horizontal_link.read()), 0x2020_0000);
}

#[test]
fn qh_reattach_keeps_the_overlay_token() {
    let mut qh = QueueHead::new();
    qh.overlay_token.write(0x8000_0000);
    qh.reattach_qtd_preserve_toggle(0x2020_0100);
    assert_eq!(qh.overlay_next.read(), 0x2020_0100);
    assert_eq!(qh.overlay_token.read(), 0x8000_0000);
    assert_eq!(qh.attached_qtd.read(), 0);
}
