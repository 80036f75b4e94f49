//! Schedules, qTD slots, and transfers.

use imxrt_usbh::action::Action;
use imxrt_usbh::ehci::{
    link_address, qtd_token, qtd_token_bytes_remaining, TransferDescriptor, LINK_TERMINATE, PID_IN,
    PID_OUT, PID_SETUP, QTD_TOKEN_ACTIVE, QTD_TOKEN_BABBLE, QTD_TOKEN_BUFFER_ERR,
    QTD_TOKEN_HALTED, QTD_TOKEN_IOC, QTD_TOKEN_MISSED_UFRAME, QTD_TOKEN_XACT_ERR,
};
use imxrt_usbh::host::controller::InitStage;
use imxrt_usbh::host::futures::{AsyncAdvanceWait, TransferComplete};
use imxrt_usbh::host::transfer::Stage;
use imxrt_usbh::host::{
    Buffer, BulkTransfer, ControlTransfer, DataPhase, DmaLayout, ImxrtHostController,
    InterruptPacket, Pipe, Poll, SetupPacket, Step, TransferExtras, TransferType, UsbError,
    UsbPools, UsbStatics, WakerId, NUM_QTD,
};
use imxrt_usbh::ral::{usb, usbphy};

const LAYOUT: DmaLayout = DmaLayout {
    qh_base: 0x2020_0000,
    qtd_base: 0x2020_0200,
    frame_list: 0x2020_1000,
    recv_base: 0x2020_0400,
};

const SETUP_ADDR: u32 = 0x2020_2000;

const GET_DESCRIPTOR: SetupPacket = SetupPacket {
    bmRequestType: 0x80,
    bRequest: 6,
    wValue: 0x0100,
    wIndex: 0,
    wLength: 8,
};

/// A controller that is initialised, with a Full Speed device.
fn controller(pools: &UsbPools) -> ImxrtHostController<'_> {
    let mut hc = ImxrtHostController::new(
        usb::Instance::from_ral(0x402E_0200, usb::RegisterBlock::zeroed()),
        usbphy::Instance::from_ral(0x400D_A000),
        UsbStatics::new(LAYOUT),
        pools,
        false,
    );
    hc.init(InitStage::HostMode);
    hc.usb.regs.portsc1 = 0x0000_1805;
    hc.usb.queue.clear();
    hc
}

fn bulk_pipe(pools: &UsbPools) -> Pipe<'_> {
    Pipe::new(pools.bulk_pipes.try_alloc().unwrap(), 1)
}

/// The pool indices of the queue heads that the async schedule visits after the sentinel.
fn async_ring(hc: &ImxrtHostController<'_>) -> Vec<usize> {
    let mut ring = Vec::new();
    let mut index = 0;
    loop {
        let addr = link_address(hc.statics.qh_pool[index].horizontal_link.read());
        index = ((addr - LAYOUT.qh_base) / 64) as usize;
        if index == 0 {
            return ring;
        }
        ring.push(index);
    }
}

fn chain(hc: &mut ImxrtHostController<'_>) -> String {
    hc.log_periodic_chain().into_iter().collect()
}

fn allocated(hc: &ImxrtHostController<'_>) -> usize {
    hc.statics.qtd_allocated.iter().filter(|a| **a).count()
}

fn set_token(hc: &mut ImxrtHostController<'_>, qtd: usize, token: u32) {
    hc.statics.qtd_pool[qtd].token.write(token);
}

fn start_control<'p>(
    hc: &mut ImxrtHostController<'p>,
    data_phase: DataPhase,
) -> Result<ControlTransfer, UsbError> {
    hc.start_control_transfer(
        0,
        TransferExtras::Normal,
        64,
        &GET_DESCRIPTOR,
        SETUP_ADDR,
        data_phase,
    )
}

/// Take a control transfer that is complete to its result.
fn finish_control(
    hc: &mut ImxrtHostController<'_>,
    transfer: ControlTransfer,
) -> Result<usize, UsbError> {
    assert_eq!(transfer.waker(), WakerId::Pipe(0));
    let transfer = match transfer.step(hc) {
        Step::Again(transfer) => transfer,
        other => panic!("{:?}", other),
    };
    assert_eq!(transfer.waker(), WakerId::AsyncAdvance);
    hc.usb.regs.usbsts |= usb::USBSTS_AAI;
    let transfer = match transfer.step(hc) {
        Step::Again(transfer) => transfer,
        other => panic!("{:?}", other),
    };
    assert_eq!(hc.usb.regs.usbsts & usb::USBSTS_AAI, 0);
    transfer.prepare(hc);
    match transfer.step(hc) {
        Step::Done(result) => result,
        other => panic!("{:?}", other),
    }
}

fn finish_bulk(
    hc: &mut ImxrtHostController<'_>,
    transfer: BulkTransfer<'_>,
) -> (Result<usize, UsbError>, bool) {
    let transfer = match transfer.step(hc) {
        Step::Again(transfer) => transfer,
        _ => panic!("not complete"),
    };
    assert_eq!(transfer.waker(), WakerId::AsyncAdvance);
    hc.usb.regs.usbsts |= usb::USBSTS_AAI;
    let transfer = match transfer.step(hc) {
        Step::Again(transfer) => transfer,
        _ => panic!("not acknowledged"),
    };
    transfer.prepare(hc);
    match transfer.step(hc) {
        Step::Done(result) => result,
        _ => panic!("not stopped"),
    }
}

// ---------------------------------------------------------------------------
// qTD slots
// ---------------------------------------------------------------------------

#[test]
fn qtd_slots_are_allocated_lowest_first() {
    let pools = UsbPools::new();
    let mut hc = controller(&pools);
    let mut slots: Vec<_> = (0..NUM_QTD).map(|_| hc.alloc_qtd().unwrap()).collect();
    assert!(slots.iter().enumerate().all(|(i, slot)| slot.index() == i));
    assert!(hc.alloc_qtd().is_none());

    set_token(&mut hc, 5, 0x1234);
    let slot = slots.remove(5);
    hc.free_qtd(slot);
    assert_eq!(hc.statics.qtd_pool[5], TransferDescriptor::new());
    assert_eq!(
        hc.usb.queue.pop(),
        Some(Action::StoreQtd { index: 5, qtd: TransferDescriptor::new() })
    );
    assert_eq!(hc.alloc_qtd().unwrap().index(), 5);
    assert!(hc.alloc_qtd().is_none());
}

// ---------------------------------------------------------------------------
// Schedules
// ---------------------------------------------------------------------------

#[test]
fn async_schedule_links_after_the_sentinel() {
    let pools = UsbPools::new();
    let mut hc = controller(&pools);
    assert!(async_ring(&hc).is_empty());
    hc.link_qh_to_async_schedule(2);
    hc.link_qh_to_async_schedule(1);
    hc.usb.queue.clear();
    hc.link_qh_to_async_schedule(4);
    assert_eq!(async_ring(&hc), vec![4, 1, 2]);
    assert_eq!(
        hc.usb.queue,
        vec![
            Action::StoreWord { addr: 0x2020_0100, value: 0x2020_0042 },
            Action::StoreWord { addr: 0x2020_0000, value: 0x2020_0102 },
        ]
    );
}

#[test]
fn async_schedule_unlinks_from_anywhere() {
    for q in 1..=4 {
        let pools = UsbPools::new();
        let mut hc = controller(&pools);
        for linked in 1..=4 {
            hc.link_qh_to_async_schedule(linked);
        }
        hc.unlink_qh_from_async_schedule(q);
        let rest: Vec<usize> = (1..=4).rev().filter(|i| *i != q).collect();
        assert_eq!(async_ring(&hc), rest);

        // What is not in the schedule is left alone
        hc.usb.queue.clear();
        hc.unlink_qh_from_async_schedule(q);
        assert_eq!(async_ring(&hc), rest);
        assert!(hc.usb.queue.is_empty());
    }
}

#[test]
fn async_link_then_unlink_restores() {
    let pools = UsbPools::new();
    let mut hc = controller(&pools);
    hc.link_qh_to_async_schedule(3);
    hc.link_qh_to_async_schedule(1);
    assert_eq!(async_ring(&hc), vec![1, 3]);
    hc.unlink_qh_from_async_schedule(1);
    assert_eq!(async_ring(&hc), vec![3]);
}

#[test]
fn periodic_schedule_links_in_front() {
    let pools = UsbPools::new();
    let mut hc = controller(&pools);
    assert_eq!(chain(&mut hc), "[empty]");
    assert!(hc.usb.queue.is_empty());
    hc.link_qh_to_periodic_schedule(3);
    hc.link_qh_to_periodic_schedule(2);
    assert_eq!(hc.usb.queue.len(), 66);
    assert_eq!(
        hc.usb.queue[65],
        Action::StoreWord { addr: 0x2020_107C, value: 0x2020_0082 }
    );
    assert!(hc.statics.frame_list.entries.iter().all(|e| e.read() == 0x2020_0082));
    hc.usb.queue.clear();
    assert_eq!(chain(&mut hc), "QH2->QH3");
    assert_eq!(
        hc.usb.queue,
        vec![
            Action::CleanInvalidate { addr: 0x2020_0080, size: 64 },
            Action::CleanInvalidate { addr: 0x2020_00C0, size: 64 },
        ]
    );
}

#[test]
fn broken_periodic_schedules_are_described_too() {
    let pools = UsbPools::new();
    let mut hc = controller(&pools);
    hc.link_qh_to_periodic_schedule(3);
    hc.link_qh_to_periodic_schedule(2);

    // A circle, and the sentinel
    hc.statics.qh_pool[3].horizontal_link.write(0x2020_0082);
    assert!(hc.can_log_periodic_chain());
    assert_eq!(chain(&mut hc), "QH2->QH3->QH2->QH3->QH2");
    hc.statics.qh_pool[3].horizontal_link.write(0x2020_0002);
    hc.statics.qh_pool[0].horizontal_link.write(LINK_TERMINATE);
    assert_eq!(chain(&mut hc), "QH2->QH3->QH0");

    // Frames that differ: the first is described
    hc.statics.frame_list.entries[7].write(LINK_TERMINATE);
    assert_eq!(chain(&mut hc), "QH2->QH3->QH0");

    // A link out of the pool
    hc.statics.qh_pool[3].horizontal_link.write(0x2020_0142);
    assert!(!hc.can_log_periodic_chain());
}

#[test]
fn pipe_that_is_not_polled_can_be_released() {
    let pools = UsbPools::new();
    let mut hc = controller(&pools);
    let pipe = hc.try_alloc_interrupt_pipe(7, TransferExtras::Normal, 1, 8, 10).ok().unwrap();
    hc.unlink_qh_from_periodic_schedule(2);
    pipe.release(&mut hc);
    assert_eq!(chain(&mut hc), "[empty]");
    assert_eq!(allocated(&hc), 0);
}

#[test]
fn periodic_schedule_unlinks_from_anywhere() {
    let rest = ["QH4->QH3->QH2", "QH4->QH3->QH1", "QH4->QH2->QH1", "QH3->QH2->QH1"];
    for q in 1..=4 {
        let pools = UsbPools::new();
        let mut hc = controller(&pools);
        for linked in 1..=4 {
            hc.link_qh_to_periodic_schedule(linked);
        }
        assert_eq!(chain(&mut hc), "QH4->QH3->QH2->QH1");
        hc.unlink_qh_from_periodic_schedule(q);
        assert_eq!(chain(&mut hc), rest[q - 1]);
        hc.usb.queue.clear();
        hc.unlink_qh_from_periodic_schedule(q);
        assert!(hc.usb.queue.is_empty());
    }
}

#[test]
fn periodic_schedule_becomes_empty_again() {
    let pools = UsbPools::new();
    let mut hc = controller(&pools);
    hc.link_qh_to_periodic_schedule(2);
    hc.unlink_qh_from_periodic_schedule(2);
    assert_eq!(chain(&mut hc), "[empty]");
    assert!(hc.statics.frame_list.entries.iter().all(|e| e.read() == LINK_TERMINATE));
}

// ---------------------------------------------------------------------------
// Completion
// ---------------------------------------------------------------------------

#[test]
fn qtd_errors_are_mapped() {
    let map = ImxrtHostController::map_qtd_error;
    assert_eq!(map(QTD_TOKEN_HALTED), UsbError::Stall);
    assert_eq!(map(QTD_TOKEN_HALTED | QTD_TOKEN_BABBLE), UsbError::Overflow);
    assert_eq!(map(QTD_TOKEN_HALTED | QTD_TOKEN_BUFFER_ERR), UsbError::Overflow);
    assert_eq!(
        map(QTD_TOKEN_HALTED | QTD_TOKEN_BABBLE | QTD_TOKEN_XACT_ERR),
        UsbError::Overflow
    );
    assert_eq!(map(QTD_TOKEN_HALTED | QTD_TOKEN_XACT_ERR), UsbError::ProtocolError);
    assert_eq!(map(QTD_TOKEN_MISSED_UFRAME), UsbError::Timeout);
    assert_eq!(map(QTD_TOKEN_XACT_ERR), UsbError::ProtocolError);
    assert_eq!(map(0), UsbError::ProtocolError);
}

#[test]
fn transfer_completion_looks_at_all_tokens() {
    let pools = UsbPools::new();
    let mut hc = controller(&pools);
    let complete = TransferComplete {
        status_qtd_index: 3,
        data_qtd_index: Some(7),
        qh_index: 2,
        waker_index: 1,
    };
    complete.prepare(&mut hc);
    assert_eq!(
        core::mem::take(&mut hc.usb.queue),
        vec![
            Action::CleanInvalidate { addr: 0x2020_0260, size: 32 },
            Action::CleanInvalidate { addr: 0x2020_02E0, size: 32 },
            Action::CleanInvalidate { addr: 0x2020_0080, size: 64 },
        ]
    );

    // In progress
    set_token(&mut hc, 3, QTD_TOKEN_ACTIVE);
    set_token(&mut hc, 7, QTD_TOKEN_ACTIVE);
    assert_eq!(complete.poll(&mut hc), Poll::Pending);
    assert_eq!(
        core::mem::take(&mut hc.usb.queue),
        vec![Action::ModifyUsb { reg: usb::Reg::Usbintr, clear: 0, set: 0x000C_0003 }]
    );

    // The data qTD halted: the status qTD is never reached
    set_token(&mut hc, 7, QTD_TOKEN_HALTED | QTD_TOKEN_BABBLE);
    assert_eq!(complete.poll(&mut hc), Poll::Ready(Err(UsbError::Overflow)));

    // The overlay halted: it says why
    hc.statics.qh_pool[2].overlay_token.write(QTD_TOKEN_HALTED);
    assert_eq!(complete.poll(&mut hc), Poll::Ready(Err(UsbError::Stall)));
    hc.statics.qh_pool[2].overlay_token.write(0);

    // Complete, with an error in the data phase, in the status phase, and without
    set_token(&mut hc, 3, 0);
    set_token(&mut hc, 7, QTD_TOKEN_XACT_ERR);
    assert_eq!(complete.poll(&mut hc), Poll::Ready(Err(UsbError::ProtocolError)));
    set_token(&mut hc, 3, QTD_TOKEN_MISSED_UFRAME);
    assert_eq!(complete.poll(&mut hc), Poll::Ready(Err(UsbError::Timeout)));
    set_token(&mut hc, 3, 0);
    set_token(&mut hc, 7, 0);
    assert_eq!(complete.poll(&mut hc), Poll::Ready(Ok(())));
    assert!(hc.usb.queue.is_empty());
}

#[test]
fn async_advance_is_acknowledged_once() {
    let pools = UsbPools::new();
    let mut hc = controller(&pools);
    assert_eq!(AsyncAdvanceWait.poll(&mut hc), Poll::Pending);
    assert_eq!(hc.usb.regs.usbintr, usb::USBINTR_AAE);
    hc.usb.regs.usbsts = usb::USBSTS_AAI | usb::USBSTS_UI;
    assert_eq!(AsyncAdvanceWait.poll(&mut hc), Poll::Ready(()));
    assert_eq!(hc.usb.regs.usbsts, usb::USBSTS_UI);
    assert_eq!(AsyncAdvanceWait.poll(&mut hc), Poll::Pending);
}

// ---------------------------------------------------------------------------
// Control transfers
// ---------------------------------------------------------------------------

#[test]
fn control_in_builds_three_qtds() {
    let pools = UsbPools::new();
    let mut hc = controller(&pools);
    let buf = Buffer { addr: 0x2020_3000, len: 18 };
    let transfer = start_control(&mut hc, DataPhase::In(buf)).unwrap();
    assert_eq!(transfer.stage, Stage::Running);
    // Capped to wLength
    assert_eq!(transfer.data_len, 8);

    let qtd = &hc.statics.qtd_pool;
    assert_eq!(qtd[0].token.read(), qtd_token(PID_SETUP, 8, false, false));
    assert_eq!(qtd[0].buffer[0].read(), SETUP_ADDR);
    assert_eq!(qtd[0].next.read(), 0x2020_0220);
    assert_eq!(qtd[1].token.read(), qtd_token(PID_IN, 8, true, false));
    assert_eq!(qtd[1].buffer[0].read(), 0x2020_3000);
    assert_eq!(qtd[1].next.read(), 0x2020_0240);
    assert_eq!(qtd[2].token.read(), qtd_token(PID_OUT, 0, true, true));
    assert_eq!(qtd[2].buffer[0].read(), 0);
    assert_eq!(qtd[2].next.read(), LINK_TERMINATE);

    let qh = hc.statics.qh_pool[1];
    assert_eq!(qh.characteristics.read(), 0xF840_4000);
    assert_eq!(qh.capabilities.read(), 0x4000_0000);
    assert_eq!(qh.overlay_next.read(), 0x2020_0200);
    assert_eq!(qh.overlay_token.read(), 0);
    assert_eq!(async_ring(&hc), vec![1]);
    assert_eq!(hc.usb.regs.usbcmd, usb::USBCMD_ASE);

    // Stores come before the cache maintenance, and all of it before linking
    let kinds: Vec<u32> = hc
        .usb
        .queue
        .iter()
        .map(|action| match action {
            Action::StoreQh { index: 1, .. } => 1,
            Action::StoreQtd { index, .. } => 10 + *index as u32,
            Action::CleanInvalidate { addr, .. } => *addr,
            Action::StoreWord { addr, .. } => *addr,
            Action::ModifyUsb { reg: usb::Reg::Usbcmd, clear: 0, set } => *set,
            _ => 0,
        })
        .collect();
    assert_eq!(
        kinds,
        vec![
            1,
            10,
            11,
            12,
            1,
            SETUP_ADDR,
            0x2020_0200,
            0x2020_0220,
            0x2020_0240,
            0x2020_0040,
            0x2020_0000,
            0x2020_0040,
            0x2020_0000,
            0x2020_0040,
            0x2020_0000,
            0x20,
        ]
    );
}

#[test]
fn control_in_yields_the_bytes_received() {
    let pools = UsbPools::new();
    let mut hc = controller(&pools);
    let buf = Buffer { addr: 0x2020_3000, len: 18 };
    let transfer = start_control(&mut hc, DataPhase::In(buf)).unwrap();
    assert_eq!(allocated(&hc), 3);

    // Still running
    let transfer = match transfer.step(&mut hc) {
        Step::Wait(transfer) => transfer,
        other => panic!("{:?}", other),
    };

    // The device sent 5 of 8 bytes
    set_token(&mut hc, 0, 0);
    set_token(&mut hc, 1, 3 << 16);
    set_token(&mut hc, 2, 0);
    hc.usb.queue.clear();
    assert_eq!(finish_control(&mut hc, transfer), Ok(5));
    assert!(async_ring(&hc).is_empty());
    assert_eq!(allocated(&hc), 0);
    assert_eq!(hc.statics.qh_pool[1].sw_flags.read(), 0);
    // Of the queue head, the flags alone are stored
    assert!(hc.usb.queue.contains(&Action::StoreByte { addr: 0x2020_0078, byte: 0 }));
    assert!(!hc.usb.queue.iter().any(|action| matches!(action, Action::StoreQh { .. })));
    assert_eq!(
        hc.usb.queue[..3],
        [
            Action::StoreWord { addr: 0x2020_0000, value: 0x2020_0002 },
            Action::CleanInvalidate { addr: 0x2020_0000, size: 64 },
            Action::ModifyUsb { reg: usb::Reg::Usbcmd, clear: 0, set: 0x40 },
        ]
    );
    // The buffer and the data qTD are made visible before the result is taken
    assert!(hc.usb.queue.contains(&Action::CleanInvalidate { addr: 0x2020_3000, size: 18 }));
}

#[test]
fn control_out_sends_all_bytes() {
    let pools = UsbPools::new();
    let mut hc = controller(&pools);
    let buf = Buffer { addr: 0x2020_3000, len: 18 };
    let transfer = start_control(&mut hc, DataPhase::Out(buf)).unwrap();
    // Not capped
    assert_eq!(hc.statics.qtd_pool[1].token.read(), qtd_token(PID_OUT, 18, true, false));
    assert_eq!(hc.statics.qtd_pool[2].token.read(), qtd_token(PID_IN, 0, true, true));
    assert!(hc.usb.queue.contains(&Action::CleanInvalidate { addr: 0x2020_3000, size: 18 }));
    for i in 0..3 {
        set_token(&mut hc, i, 0);
    }
    assert_eq!(finish_control(&mut hc, transfer), Ok(18));
}

#[test]
fn control_without_data_uses_two_qtds() {
    let pools = UsbPools::new();
    let mut hc = controller(&pools);
    let transfer = start_control(&mut hc, DataPhase::NoData).unwrap();
    assert_eq!(allocated(&hc), 2);
    assert_eq!(hc.statics.qtd_pool[0].next.read(), 0x2020_0220);
    assert_eq!(hc.statics.qtd_pool[1].token.read(), qtd_token(PID_IN, 0, true, true));
    set_token(&mut hc, 0, 0);
    set_token(&mut hc, 1, 0);
    assert_eq!(finish_control(&mut hc, transfer), Ok(0));
    assert_eq!(allocated(&hc), 0);
}

#[test]
fn control_error_frees_everything() {
    let pools = UsbPools::new();
    let mut hc = controller(&pools);
    let buf = Buffer { addr: 0x2020_3000, len: 8 };
    let transfer = start_control(&mut hc, DataPhase::In(buf)).unwrap();
    // The setup phase halted; the status qTD stays active
    hc.statics.qh_pool[1].overlay_token.write(QTD_TOKEN_HALTED | QTD_TOKEN_XACT_ERR);
    assert_eq!(finish_control(&mut hc, transfer), Err(UsbError::ProtocolError));
    assert!(async_ring(&hc).is_empty());
    assert_eq!(allocated(&hc), 0);
}

#[test]
fn control_waits_for_the_doorbell() {
    let pools = UsbPools::new();
    let mut hc = controller(&pools);
    let transfer = start_control(&mut hc, DataPhase::NoData).unwrap();
    set_token(&mut hc, 1, 0);
    let transfer = match transfer.step(&mut hc) {
        Step::Again(transfer) => transfer,
        other => panic!("{:?}", other),
    };
    assert_eq!(transfer.stage, Stage::Stopping(Ok(())));
    match transfer.step(&mut hc) {
        Step::Wait(transfer) => assert_eq!(transfer.stage, Stage::Stopping(Ok(()))),
        other => panic!("{:?}", other),
    }
    // The slots are still held
    assert_eq!(allocated(&hc), 2);
}

#[test]
fn control_speed_follows_the_port_and_the_preamble() {
    let speeds = [(0, 0), (1, 1), (2, 2), (3, 0)];
    for (pspd, speed) in speeds {
        let pools = UsbPools::new();
        let mut hc = controller(&pools);
        hc.usb.regs.portsc1 = 0x0000_1805 | (pspd << 26);
        start_control(&mut hc, DataPhase::NoData).unwrap();
        assert_eq!((hc.statics.qh_pool[1].characteristics.read() >> 12) & 3, speed);
    }
    let pools = UsbPools::new();
    let mut hc = controller(&pools);
    hc.start_control_transfer(
        3,
        TransferExtras::WithPreamble,
        8,
        &GET_DESCRIPTOR,
        SETUP_ADDR,
        DataPhase::NoData,
    )
    .unwrap();
    assert_eq!(hc.statics.qh_pool[1].characteristics.read(), 0xF808_5003);
}

#[test]
fn control_fails_without_free_qtds() {
    for free in 0..4 {
        let pools = UsbPools::new();
        let mut hc = controller(&pools);
        let _taken: Vec<_> = (0..NUM_QTD - free).map(|_| hc.alloc_qtd().unwrap()).collect();
        let buf = Buffer { addr: 0x2020_3000, len: 8 };
        let result = start_control(&mut hc, DataPhase::In(buf));
        if free < 3 {
            assert_eq!(result, Err(UsbError::AllPipesInUse));
            assert_eq!(allocated(&hc), NUM_QTD - free);
            assert!(async_ring(&hc).is_empty());
        } else {
            assert!(result.is_ok());
            assert_eq!(allocated(&hc), NUM_QTD);
        }
    }
}

#[test]
fn control_length_zero_asks_for_the_whole_buffer() {
    let pools = UsbPools::new();
    let mut hc = controller(&pools);
    let setup = SetupPacket { wLength: 0, ..GET_DESCRIPTOR };
    let buf = Buffer { addr: 0x2020_3000, len: 18 };
    let transfer = hc
        .start_control_transfer(
            0,
            TransferExtras::Normal,
            64,
            &setup,
            SETUP_ADDR,
            DataPhase::In(buf),
        )
        .unwrap();
    assert_eq!(transfer.data_len, 18);
    assert_eq!(qtd_token_bytes_remaining(hc.statics.qtd_pool[1].token.read()), 18);
}

// ---------------------------------------------------------------------------
// Bulk transfers
// ---------------------------------------------------------------------------

fn start_bulk<'p>(
    hc: &mut ImxrtHostController<'p>,
    pools: &'p UsbPools,
    len: usize,
    is_in: bool,
    transfer_type: TransferType,
    toggle: bool,
) -> Result<BulkTransfer<'p>, UsbError> {
    let data = Buffer { addr: 0x2020_3000, len };
    hc.start_bulk_transfer(bulk_pipe(pools), 5, 2, 64, data, is_in, transfer_type, toggle)
}

#[test]
fn bulk_in_yields_bytes_and_toggle() {
    let pools = UsbPools::new();
    let mut hc = controller(&pools);
    let transfer =
        start_bulk(&mut hc, &pools, 512, true, TransferType::VariableSize, true).ok().unwrap();
    assert_eq!(transfer.waker(), WakerId::Pipe(1));
    assert!(transfer.zlp_slot.is_none());
    assert_eq!(async_ring(&hc), vec![2]);
    let qh = hc.statics.qh_pool[2];
    assert_eq!(qh.characteristics.read(), 0xF040_0205);
    assert_eq!(qh.overlay_token.read(), 0x8000_0000);
    assert_eq!(hc.statics.qtd_pool[0].token.read(), qtd_token(PID_IN, 512, false, true));

    // 100 bytes are missing; the next packet is DATA0
    set_token(&mut hc, 0, 100 << 16);
    hc.statics.qh_pool[2].overlay_token.write(0);
    hc.usb.queue.clear();
    assert_eq!(finish_bulk(&mut hc, transfer), (Ok(412), false));
    assert_eq!(
        hc.usb.queue[..2],
        [
            Action::Invalidate { addr: 0x2020_3000, size: 512 },
            Action::CleanInvalidate { addr: 0x2020_0200, size: 32 },
        ]
    );
    assert_eq!(allocated(&hc), 0);
    assert!(async_ring(&hc).is_empty());
}

#[test]
fn bulk_toggle_is_kept_on_error() {
    let pools = UsbPools::new();
    let mut hc = controller(&pools);
    let transfer =
        start_bulk(&mut hc, &pools, 64, true, TransferType::FixedSize, false).ok().unwrap();
    assert_eq!(hc.statics.qh_pool[2].overlay_token.read(), 0);
    set_token(&mut hc, 0, QTD_TOKEN_HALTED);
    hc.statics.qh_pool[2].overlay_token.write(0x8000_0000 | QTD_TOKEN_HALTED);
    assert_eq!(finish_bulk(&mut hc, transfer), (Err(UsbError::Stall), true));
    assert_eq!(allocated(&hc), 0);
}

#[test]
fn bulk_in_never_yields_less_than_nothing() {
    let pools = UsbPools::new();
    let mut hc = controller(&pools);
    let transfer =
        start_bulk(&mut hc, &pools, 10, true, TransferType::FixedSize, false).ok().unwrap();
    set_token(&mut hc, 0, 11 << 16);
    assert_eq!(finish_bulk(&mut hc, transfer).0, Ok(0));
}

#[test]
fn bulk_out_sends_a_zero_length_packet_where_needed() {
    let cases = [
        (64, TransferType::VariableSize, true),
        (128, TransferType::VariableSize, true),
        (100, TransferType::VariableSize, false),
        (0, TransferType::VariableSize, false),
        (128, TransferType::FixedSize, false),
    ];
    for (len, transfer_type, zlp) in cases {
        let pools = UsbPools::new();
        let mut hc = controller(&pools);
        let transfer = start_bulk(&mut hc, &pools, len, false, transfer_type, false).ok().unwrap();
        let data = hc.statics.qtd_pool[0];
        assert_eq!(transfer.zlp_slot.is_some(), zlp);
        assert_eq!(data.token.read() & QTD_TOKEN_IOC == 0, zlp);
        if zlp {
            assert_eq!(data.next.read(), 0x2020_0220);
            assert_eq!(hc.statics.qtd_pool[1].token.read(), qtd_token(PID_OUT, 0, false, true));
            set_token(&mut hc, 1, 0);
        } else {
            assert_eq!(data.next.read(), LINK_TERMINATE);
        }
        set_token(&mut hc, 0, 0);
        assert_eq!(finish_bulk(&mut hc, transfer).0, Ok(len));
        assert_eq!(allocated(&hc), 0);
    }
}

#[test]
fn bulk_packets_are_512_bytes_at_high_speed() {
    let pools = UsbPools::new();
    let mut hc = controller(&pools);
    hc.usb.regs.portsc1 = 0x0800_1805;
    let transfer =
        start_bulk(&mut hc, &pools, 128, false, TransferType::VariableSize, false).ok().unwrap();
    assert_eq!((hc.statics.qh_pool[2].characteristics.read() >> 16) & 0x7FF, 512);
    // 128 bytes are a short packet then
    assert!(transfer.zlp_slot.is_none());
}

#[test]
fn bulk_fails_without_free_qtds() {
    let pools = UsbPools::new();
    let mut hc = controller(&pools);
    let mut taken: Vec<_> = (0..NUM_QTD).map(|_| hc.alloc_qtd().unwrap()).collect();
    let result = start_bulk(&mut hc, &pools, 64, false, TransferType::VariableSize, false);
    assert_eq!(result.err(), Some(UsbError::AllPipesInUse));
    hc.free_qtd(taken.pop().unwrap());
    // One is not enough for data and a zero-length packet
    let result = start_bulk(&mut hc, &pools, 64, false, TransferType::VariableSize, false);
    assert_eq!(result.err(), Some(UsbError::AllPipesInUse));
    assert_eq!(allocated(&hc), NUM_QTD - 1);
    let result = start_bulk(&mut hc, &pools, 63, false, TransferType::VariableSize, false);
    assert!(result.is_ok());
}

#[test]
fn transfers_run_side_by_side() {
    let pools = UsbPools::new();
    let mut hc = controller(&pools);
    let control = start_control(&mut hc, DataPhase::NoData).unwrap();
    let first =
        start_bulk(&mut hc, &pools, 64, true, TransferType::FixedSize, false).ok().unwrap();
    let second =
        start_bulk(&mut hc, &pools, 64, true, TransferType::FixedSize, false).ok().unwrap();
    assert_eq!(async_ring(&hc), vec![3, 2, 1]);
    assert_eq!((first.data_slot.index(), second.data_slot.index()), (2, 3));

    set_token(&mut hc, 2, 0);
    assert_eq!(finish_bulk(&mut hc, first).0, Ok(64));
    assert_eq!(async_ring(&hc), vec![3, 1]);
    set_token(&mut hc, 1, 0);
    assert_eq!(finish_control(&mut hc, control), Ok(0));
    assert_eq!(async_ring(&hc), vec![3]);
    set_token(&mut hc, 3, 0);
    assert_eq!(finish_bulk(&mut hc, second).0, Ok(64));
    assert!(async_ring(&hc).is_empty());
}

// ---------------------------------------------------------------------------
// Interrupt pipes
// ---------------------------------------------------------------------------

#[test]
fn pipes_come_from_their_pools() {
    let pools = UsbPools::new();
    let control = pools.control_pipes.try_alloc().unwrap();
    assert_eq!(Pipe::new(control, 0).which(), 0);
    let first = bulk_pipe(&pools);
    let second = bulk_pipe(&pools);
    let third = bulk_pipe(&pools);
    assert_eq!((first.which(), second.which(), third.which()), (1, 2, 3));
    assert!(pools.bulk_pipes.try_alloc().is_none());
    drop(second);
    assert_eq!(bulk_pipe(&pools).which(), 2);
}

#[test]
fn interrupt_pipe_is_polled_in_every_frame() {
    let pools = UsbPools::new();
    let mut hc = controller(&pools);
    let pipe = hc
        .try_alloc_interrupt_pipe(7, TransferExtras::WithPreamble, 1, 8, 10)
        .ok()
        .unwrap();
    assert_eq!(pipe.waker(), WakerId::Pipe(1));
    assert_eq!((pipe.qh_index, pipe.recv_buf_idx, pipe.qtd_slot.index()), (2, 0, 0));
    let qh = hc.statics.qh_pool[2];
    // No NAK reload, Low Speed, endpoint 1 of device 7
    assert_eq!(qh.characteristics.read(), 0x0008_1107);
    assert_eq!(qh.capabilities.read(), 0x4000_0001);
    assert_eq!(qh.overlay_next.read(), 0x2020_0200);
    assert_eq!(hc.statics.qtd_pool[0].token.read(), qtd_token(PID_IN, 8, false, true));
    assert_eq!(hc.statics.qtd_pool[0].buffer[0].read(), 0x2020_0400);
    assert_eq!(chain(&mut hc), "QH2");
}

#[test]
fn interrupt_pipe_speed_follows_the_port() {
    for (pspd, speed) in [(0, 0), (1, 1), (2, 2), (3, 2)] {
        let pools = UsbPools::new();
        let mut hc = controller(&pools);
        hc.usb.regs.portsc1 = 0x0000_1805 | (pspd << 26);
        hc.try_alloc_interrupt_pipe(7, TransferExtras::Normal, 1, 8, 10).ok().unwrap();
        assert_eq!((hc.statics.qh_pool[2].characteristics.read() >> 12) & 3, speed);
    }
}

#[test]
fn interrupt_pipes_run_out() {
    let pools = UsbPools::new();
    let mut hc = controller(&pools);
    let mut pipes = Vec::new();
    for i in 0..3 {
        let pipe = hc.try_alloc_interrupt_pipe(7, TransferExtras::Normal, i, 8, 10).ok().unwrap();
        pipes.push(pipe);
    }
    assert_eq!(chain(&mut hc), "QH4->QH3->QH2");
    let result = hc.try_alloc_interrupt_pipe(7, TransferExtras::Normal, 4, 8, 10);
    assert_eq!(result.err(), Some(UsbError::AllPipesInUse));

    // A pipe that is released can be had again
    hc.usb.queue.clear();
    pipes.remove(1).release(&mut hc);
    assert_eq!(
        hc.usb.queue,
        vec![
            Action::StoreWord { addr: 0x2020_0100, value: 0x2020_0082 },
            Action::Delay { cycles: 1_200_000 },
            Action::StoreByte { addr: 0x2020_00F8, byte: 0 },
            Action::StoreQtd { index: 1, qtd: TransferDescriptor::new() },
        ]
    );
    assert_eq!(chain(&mut hc), "QH4->QH2");
    assert_eq!(allocated(&hc), 2);
    let pipe = hc.try_alloc_interrupt_pipe(7, TransferExtras::Normal, 4, 8, 10).ok().unwrap();
    assert_eq!(pipe.pipe.which(), 2);
    assert_eq!(chain(&mut hc), "QH3->QH4->QH2");
}

#[test]
fn interrupt_pipe_hands_out_packets_and_rearms() {
    let pools = UsbPools::new();
    let mut hc = controller(&pools);
    let pipe = hc.try_alloc_interrupt_pipe(7, TransferExtras::Normal, 1, 8, 10).ok().unwrap();
    assert_eq!(pipe.poll_next(&mut hc), Poll::Pending);

    // A packet of 3 bytes; the controller advances the buffer and the toggle
    hc.statics.recv_bufs[0].data[..5].copy_from_slice(&[1, 2, 3, 4, 5]);
    set_token(&mut hc, 0, 5 << 16);
    hc.statics.qtd_pool[0].buffer[0].write(0x2020_0403);
    hc.statics.qh_pool[2].overlay_token.write(0x8000_0000);
    hc.statics.qh_pool[2].overlay_next.write(LINK_TERMINATE);
    hc.usb.queue.clear();
    let mut data = [0; 64];
    data[..3].copy_from_slice(&[1, 2, 3]);
    assert_eq!(
        pipe.poll_next(&mut hc),
        Poll::Ready(Some(InterruptPacket { address: 7, endpoint: 1, size: 3, data }))
    );
    assert_eq!(hc.statics.qtd_pool[0].token.read(), qtd_token(PID_IN, 8, false, true));
    assert_eq!(hc.statics.qtd_pool[0].buffer[0].read(), 0x2020_0400);
    assert_eq!(hc.statics.qh_pool[2].overlay_token.read(), 0x8000_0000);
    assert_eq!(
        hc.usb.queue[1..],
        [
            Action::StoreWord { addr: 0x2020_0090, value: 0x2020_0200 },
            Action::ModifyUsb { reg: usb::Reg::Usbintr, clear: 0, set: 0x000C_0003 },
        ]
    );
    assert_eq!(pipe.poll_next(&mut hc), Poll::Pending);
}

#[test]
fn interrupt_packets_fit_their_buffer() {
    let pools = UsbPools::new();
    let mut hc = controller(&pools);
    let pipe = hc.try_alloc_interrupt_pipe(7, TransferExtras::Normal, 1, 512, 10).ok().unwrap();
    hc.statics.recv_bufs[0].data = [0xAA; 64];
    set_token(&mut hc, 0, 12 << 16);
    match pipe.poll_next(&mut hc) {
        Poll::Ready(Some(packet)) => {
            assert_eq!(packet.size, 64);
            assert_eq!(packet.data, [0xAA; 64]);
        }
        other => panic!("{:?}", other),
    }
    // More left than was asked for
    set_token(&mut hc, 0, 513 << 16);
    match pipe.poll_next(&mut hc) {
        Poll::Ready(Some(packet)) => {
            assert_eq!(packet.size, 0);
            assert_eq!(packet.data, [0; 64]);
        }
        other => panic!("{:?}", other),
    }
}

#[test]
fn interrupt_pipe_ends_when_halted() {
    let pools = UsbPools::new();
    let mut hc = controller(&pools);
    let pipe = hc.try_alloc_interrupt_pipe(7, TransferExtras::Normal, 1, 8, 10).ok().unwrap();
    set_token(&mut hc, 0, QTD_TOKEN_HALTED);
    hc.usb.queue.clear();
    assert_eq!(pipe.poll_next(&mut hc), Poll::Ready(None));
    // Not re-armed; device detection is woken by the next port change
    assert_eq!(hc.statics.qtd_pool[0].token.read(), QTD_TOKEN_HALTED);
    assert_eq!(
        hc.usb.queue,
        vec![Action::ModifyUsb { reg: usb::Reg::Usbintr, clear: 0, set: usb::USBINTR_PCE }]
    );
    assert_eq!(pipe.poll_next(&mut hc), Poll::Ready(None));
}

#[test]
fn pipe_is_taken_before_a_qtd_is_needed() {
    let pools = UsbPools::new();
    let mut hc = controller(&pools);
    // All qTDs are in use, and there are pipes nevertheless
    let _taken: Vec<_> = (0..NUM_QTD).map(|_| hc.alloc_qtd().unwrap()).collect();
    let pipes: Vec<_> = (0..3).map(|_| hc.try_alloc_pipe().unwrap()).collect();
    assert!(pipes.iter().map(|pipe| pipe.which()).eq(1..=3));
    assert!(hc.try_alloc_pipe().is_none());
    // They are bulk pipes: the control pipe is still there
    assert!(pools.control_pipes.try_alloc().is_some());
}

// ---------------------------------------------------------------------------
// Reading the schedules back
// ---------------------------------------------------------------------------

#[test]
fn schedules_are_read_back() {
    let pools = UsbPools::new();
    let mut hc = controller(&pools);
    assert_eq!(hc.statics.async_schedule(), Some(vec![]));
    assert_eq!(hc.statics.periodic_schedule(), Some(vec![]));
    hc.link_qh_to_async_schedule(1);
    hc.link_qh_to_async_schedule(3);
    hc.link_qh_to_periodic_schedule(2);
    hc.link_qh_to_periodic_schedule(4);
    assert_eq!(hc.statics.async_schedule(), Some(vec![3, 1]));
    assert_eq!(hc.statics.periodic_schedule(), Some(vec![4, 2]));
    assert!(hc.statics.has_schedules());
    assert!(hc.statics.is_running(1) && !hc.statics.is_running(2));
}

#[test]
fn broken_schedules_are_found() {
    let pools = UsbPools::new();
    let mut hc = controller(&pools);
    hc.link_qh_to_async_schedule(1);
    hc.link_qh_to_periodic_schedule(2);

    // A queue head that leads to itself, or nowhere
    hc.statics.qh_pool[1].horizontal_link.write(0x2020_0042);
    assert_eq!(hc.statics.async_schedule(), None);
    hc.statics.qh_pool[1].horizontal_link.write(LINK_TERMINATE);
    assert_eq!(hc.statics.async_schedule(), None);
    assert!(!hc.statics.has_schedules());
    hc.statics.qh_pool[1].horizontal_link.write(0x2020_0002);
    assert!(hc.statics.has_schedules());

    // A chain into the async schedule, in a loop, and frames that differ
    hc.statics.qh_pool[2].horizontal_link.write(0x2020_0002);
    assert_eq!(hc.statics.periodic_schedule(), None);
    hc.statics.qh_pool[2].horizontal_link.write(0x2020_0082);
    assert_eq!(hc.statics.periodic_schedule(), None);
    hc.statics.qh_pool[2].horizontal_link.write(LINK_TERMINATE);
    hc.statics.frame_list.entries[31].write(LINK_TERMINATE);
    assert_eq!(hc.statics.periodic_schedule(), None);

    // Before initialization there is no ring
    assert_eq!(UsbStatics::new(LAYOUT).async_schedule(), None);
}

// ---------------------------------------------------------------------------
// Transfers that are given up
// ---------------------------------------------------------------------------

#[test]
fn transfers_that_are_given_up_free_their_slots() {
    let pools = UsbPools::new();
    let mut hc = controller(&pools);
    let buf = Buffer { addr: 0x2020_3000, len: 8 };
    let control = start_control(&mut hc, DataPhase::In(buf)).unwrap();
    let bulk =
        start_bulk(&mut hc, &pools, 64, false, TransferType::VariableSize, false).ok().unwrap();
    assert_eq!(allocated(&hc), 5);
    assert!(control.is_held(&hc) && bulk.is_held(&hc));
    hc.usb.queue.clear();
    control.abandon(&mut hc);
    let blank = TransferDescriptor::new();
    assert_eq!(
        hc.usb.queue,
        vec![
            Action::StoreQtd { index: 2, qtd: blank },
            Action::StoreQtd { index: 1, qtd: blank },
            Action::StoreQtd { index: 0, qtd: blank },
        ]
    );
    // The queue heads are left as they are
    assert_eq!(async_ring(&hc), vec![2, 1]);
    assert_eq!(allocated(&hc), 2);
    bulk.abandon(&mut hc);
    assert_eq!(async_ring(&hc), vec![2, 1]);
    assert_eq!(allocated(&hc), 0);
    // The pipe is free again
    assert_eq!(hc.try_alloc_pipe().unwrap().which(), 1);
}

#[test]
fn transfers_that_are_stopping_can_be_given_up() {
    let pools = UsbPools::new();
    let mut hc = controller(&pools);
    let control = start_control(&mut hc, DataPhase::NoData).unwrap();
    set_token(&mut hc, 1, 0);
    let control = match control.step(&mut hc) {
        Step::Again(control) => control,
        other => panic!("{:?}", other),
    };
    hc.usb.queue.clear();
    control.abandon(&mut hc);
    assert_eq!(hc.usb.queue.len(), 2);
    assert_eq!(allocated(&hc), 0);
}

#[test]
fn steps_are_refused_out_of_order() {
    let pools = UsbPools::new();
    let mut hc = controller(&pools);
    let buf = Buffer { addr: 0x2020_3000, len: 8 };
    let mut control = start_control(&mut hc, DataPhase::In(buf)).unwrap();
    assert!(control.can_step(&hc));
    hc.unlink_qh_from_async_schedule(1);
    assert!(!control.can_step(&hc));
    control.stage = Stage::Stopped(Ok(()));
    assert!(control.can_step(&hc));
    // More left than was asked for
    set_token(&mut hc, 1, 9 << 16);
    assert!(!control.can_step(&hc));
    set_token(&mut hc, 1, 8 << 16);
    assert!(control.can_step(&hc));
    hc.statics.qtd_allocated[2] = false;
    assert!(!control.is_held(&hc));

    let bulk = start_bulk(&mut hc, &pools, 64, true, TransferType::FixedSize, false).ok().unwrap();
    assert!(bulk.can_step(&hc));
    hc.unlink_qh_from_async_schedule(2);
    assert!(bulk.is_held(&hc) && !bulk.can_step(&hc));

    let pipe = hc.try_alloc_interrupt_pipe(7, TransferExtras::Normal, 1, 8, 10).ok().unwrap();
    assert!(pipe.is_held(&hc));
    hc.statics.qtd_allocated[pipe.qtd_slot.index()] = false;
    assert!(!pipe.is_held(&hc));
}
