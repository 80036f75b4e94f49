//! Controller initialization, the root port, device detection, and interrupts.

use imxrt_ral::usb as ral_usb;
use imxrt_ral::usbphy as ral_phy;
use imxrt_usbh::action::Action;
use imxrt_usbh::ehci::{FrameList, LINK_TERMINATE, QTD_TOKEN_HALTED};
use imxrt_usbh::host::controller::InitStage;
use imxrt_usbh::host::{
    DeviceStatus, DmaLayout, Imxrt1062DeviceDetect, ImxrtHostController, Poll, RecvBuf, UsbError,
    UsbPools, UsbShared, UsbSpeed, UsbStatics, NUM_QH, NUM_QTD,
};
use imxrt_usbh::ral::{usb, usbphy};

const LAYOUT: DmaLayout = DmaLayout {
    qh_base: 0x2020_0000,
    qtd_base: 0x2020_0200,
    frame_list: 0x2020_1000,
    recv_base: 0x2020_0400,
};

fn controller(pools: &UsbPools, hub_support: bool) -> ImxrtHostController<'_> {
    ImxrtHostController::new(
        usb::Instance::from_ral(0x402E_0200, usb::RegisterBlock::zeroed()),
        usbphy::Instance::from_ral(0x400D_A000),
        UsbStatics::new(LAYOUT),
        pools,
        hub_support,
    )
}

fn take_queue(hc: &mut ImxrtHostController<'_>) -> Vec<Action> {
    core::mem::take(&mut hc.usb.queue)
}

fn write_usb(reg: usb::Reg, value: u32) -> Action {
    Action::WriteUsb { reg, value }
}

fn set_usb(reg: usb::Reg, set: u32) -> Action {
    Action::ModifyUsb { reg, clear: 0, set }
}

fn write_phy(phy: usbphy::Reg, value: u32) -> Action {
    Action::WritePhy { phy, value }
}

#[test]
fn statics_start_free_and_zeroed() {
    let statics = UsbStatics::new(LAYOUT);
    assert_eq!(statics.qh_pool.len(), NUM_QH + 1);
    assert_eq!(statics.qtd_pool.len(), NUM_QTD);
    assert_eq!(statics.qh_ptr(0), 0x2020_0000);
    assert_eq!(statics.qh_ptr(4), 0x2020_0100);
    assert_eq!(statics.qtd_ptr(0), 0x2020_0200);
    assert_eq!(statics.qtd_ptr(15), 0x2020_03E0);
    assert!(statics.qtd_allocated.iter().all(|allocated| !allocated));
    assert!(statics.qtd_pool.iter().all(|qtd| qtd.token.read() == 0));
    assert_eq!(statics.frame_list, FrameList::new());
    assert_eq!(statics.recv_bufs[0].as_ptr(), 0x2020_0400);
    assert_eq!(statics.recv_bufs[2].as_ptr(), 0x2020_0480);
}

#[test]
fn layout_must_be_aligned() {
    assert!(LAYOUT.is_wf());
    assert!(!DmaLayout { qh_base: 0x2020_0020, ..LAYOUT }.is_wf());
    assert!(!DmaLayout { qtd_base: 0x2020_0210, ..LAYOUT }.is_wf());
    assert!(!DmaLayout { frame_list: 0x2020_0800, ..LAYOUT }.is_wf());
    assert!(!DmaLayout { recv_base: 0x2020_0404, ..LAYOUT }.is_wf());
    assert!(!DmaLayout { qh_base: 0xFFFF_FFC0, ..LAYOUT }.is_wf());
    assert!(!DmaLayout { recv_base: 0xFFFF_BFE0, ..LAYOUT }.is_wf());
}

#[test]
fn recv_buf_is_64_zero_bytes() {
    let buf = RecvBuf::new(0x2020_0400);
    assert_eq!(buf.as_ptr(), 0x2020_0400);
    assert_eq!(buf.len(), 64);
    assert!(!buf.is_empty());
    assert_eq!(buf.as_ref(), &[0u8; 64][..]);
    assert_eq!(*buf.index(63), 0);
    let mut filled = buf;
    filled.data[..3].copy_from_slice(&[1, 2, 3]);
    assert_eq!(filled.index_to(4), &[1, 2, 3, 0][..]);
    assert!(filled.index_to(0).is_empty());
    assert_eq!(RecvBuf::SIZE, 64);
    assert_eq!(RecvBuf::ALIGN, 32);
}

#[test]
fn init_resets_first() {
    let pools = UsbPools::new();
    let mut hc = controller(&pools, false);
    hc.usb.regs.usbcmd = 0x0008_0000;
    assert_eq!(hc.init(InitStage::Reset), InitStage::HostMode);
    assert_eq!(
        take_queue(&mut hc),
        vec![
            write_phy(usbphy::Reg::CtrlSet, 0x8000_0000),
            write_phy(usbphy::Reg::CtrlClr, 0xC000_0000),
            write_phy(usbphy::Reg::CtrlSet, 0x0000_C000),
            write_phy(usbphy::Reg::Pwd, 0),
            set_usb(usb::Reg::Usbcmd, 2),
        ]
    );
}

#[test]
fn init_waits_for_the_reset() {
    let pools = UsbPools::new();
    let mut hc = controller(&pools, false);
    hc.usb.regs.usbcmd = usb::USBCMD_RST;
    assert_eq!(hc.init(InitStage::HostMode), InitStage::HostMode);
    assert!(hc.usb.queue.is_empty());
}

#[test]
fn init_sets_up_host_mode_and_schedules() {
    let pools = UsbPools::new();
    let mut hc = controller(&pools, false);
    assert_eq!(hc.init(InitStage::HostMode), InitStage::Run);
    let sentinel = hc.statics.qh_pool[0];
    assert_eq!(
        take_queue(&mut hc),
        vec![
            write_usb(usb::Reg::Usbmode, 3),
            write_usb(usb::Reg::Sbuscfg, 1),
            Action::StoreQh { index: 0, qh: sentinel },
            write_usb(usb::Reg::Asynclistaddr, 0x2020_0000),
            write_usb(usb::Reg::Deviceaddr, 0x2020_1000),
            write_usb(usb::Reg::Frindex, 0),
            write_usb(usb::Reg::Usbintr, 0),
        ]
    );
    assert_eq!(sentinel.horizontal_link.read(), 0x2020_0002);
    assert_eq!(sentinel.overlay_token.read(), QTD_TOKEN_HALTED);
    assert_eq!(hc.statics.frame_list.entries[0].read(), LINK_TERMINATE);
}

#[test]
fn init_runs_and_powers_the_port() {
    let pools = UsbPools::new();
    let mut hc = controller(&pools, false);
    hc.usb.regs.usbsts = 0x0000_1084;
    assert_eq!(hc.init(InitStage::Run), InitStage::Port);
    assert_eq!(
        take_queue(&mut hc),
        vec![
            write_usb(usb::Reg::Usbsts, 0x0000_1084),
            write_usb(usb::Reg::Usbcmd, 0x0001_8B15),
        ]
    );
    // Status is cleared by a write of one; the halted bit is read-only
    assert_eq!(hc.usb.regs.usbsts, 0x0000_1000);

    // The connect status change is pending, and stays so
    hc.usb.regs.portsc1 = 0x1000_0803 | usb::PORTSC1_CSC;
    assert_eq!(hc.init(InitStage::Port), InitStage::Done);
    assert_eq!(
        take_queue(&mut hc),
        vec![
            write_usb(usb::Reg::Portsc1, 0x1000_1801),
            write_usb(usb::Reg::Usbintr, 0x000C_0037),
        ]
    );
    assert_eq!(hc.usb.regs.portsc1, 0x1000_1803);

    assert_eq!(hc.init(InitStage::Done), InitStage::Done);
    assert!(hc.usb.queue.is_empty());
}

#[test]
fn init_forces_full_speed_with_hub_support() {
    let pools = UsbPools::new();
    let mut hc = controller(&pools, true);
    hc.init(InitStage::Port);
    assert_eq!(hc.usb.queue[0], write_usb(usb::Reg::Portsc1, 0x0100_1000));
}

#[test]
fn port_reset_keeps_the_change_bits() {
    let pools = UsbPools::new();
    let mut hc = controller(&pools, false);
    // PEC, OCC, and CSC are pending
    hc.usb.regs.portsc1 = 0x0000_182F;
    hc.reset_root_port(true);
    assert_eq!(take_queue(&mut hc), vec![write_usb(usb::Reg::Portsc1, 0x0000_1905)]);
    assert_eq!(hc.usb.regs.portsc1, 0x0000_192F);
    hc.reset_root_port(false);
    assert_eq!(take_queue(&mut hc), vec![write_usb(usb::Reg::Portsc1, 0x0000_1805)]);
    assert_eq!(hc.usb.regs.portsc1, 0x0000_182F);
    assert_eq!(ImxrtHostController::PORTSC1_W1C_MASK, 0x6A);
}

#[test]
fn port_status_shows_the_speed() {
    let pools = UsbPools::new();
    let mut hc = controller(&pools, false);
    assert_eq!(hc.device_status(), DeviceStatus::Absent);
    let cases = [
        (0, UsbSpeed::Full12),
        (1, UsbSpeed::Low1_5),
        (2, UsbSpeed::High480),
        (3, UsbSpeed::Full12),
    ];
    for (pspd, speed) in cases {
        hc.usb.regs.portsc1 = 0x0000_1801 | (pspd << 26);
        assert_eq!(hc.port_speed(), pspd);
        assert_eq!(hc.device_status(), DeviceStatus::Present(speed));
    }
}

#[test]
fn device_detect_reports_connect_and_disconnect() {
    let pools = UsbPools::new();
    let mut hc = controller(&pools, false);
    let mut detect = hc.device_detect();
    assert_eq!(detect, Imxrt1062DeviceDetect { status: DeviceStatus::Absent });

    // Nothing connected yet
    assert_eq!(detect.poll_next(&mut hc), Poll::Pending);
    assert_eq!(take_queue(&mut hc), vec![set_usb(usb::Reg::Usbintr, usb::USBINTR_PCE)]);

    // Full Speed before the port is reset
    hc.usb.regs.portsc1 = 0x0000_1801;
    assert_eq!(detect.poll_next(&mut hc), Poll::Ready(DeviceStatus::Present(UsbSpeed::Full12)));
    assert_eq!(
        take_queue(&mut hc),
        vec![
            write_phy(usbphy::Reg::CtrlClr, usbphy::CTRL_ENHOSTDISCONDETECT),
            set_usb(usb::Reg::Usbintr, usb::USBINTR_PCE),
        ]
    );

    // High Speed after it: no event, but the disconnect detector is turned on
    hc.usb.regs.portsc1 = 0x0800_1805;
    assert_eq!(detect.poll_next(&mut hc), Poll::Pending);
    assert_eq!(
        take_queue(&mut hc),
        vec![
            write_phy(usbphy::Reg::CtrlSet, usbphy::CTRL_ENHOSTDISCONDETECT),
            set_usb(usb::Reg::Usbintr, usb::USBINTR_PCE),
        ]
    );
    assert_eq!(detect.status, DeviceStatus::Present(UsbSpeed::High480));

    // No change: no event
    assert_eq!(detect.poll_next(&mut hc), Poll::Pending);
    assert_eq!(take_queue(&mut hc), vec![set_usb(usb::Reg::Usbintr, usb::USBINTR_PCE)]);

    // Disconnected
    hc.usb.regs.portsc1 = 0x0000_1000;
    assert_eq!(detect.poll_next(&mut hc), Poll::Ready(DeviceStatus::Absent));
    assert_eq!(
        take_queue(&mut hc),
        vec![
            write_phy(usbphy::Reg::CtrlClr, usbphy::CTRL_ENHOSTDISCONDETECT),
            set_usb(usb::Reg::Usbintr, usb::USBINTR_PCE),
        ]
    );

    // A device that is at High Speed from the start
    hc.usb.regs.portsc1 = 0x0800_1805;
    assert_eq!(detect.poll_next(&mut hc), Poll::Ready(DeviceStatus::Present(UsbSpeed::High480)));
    assert_eq!(hc.usb.queue[0], write_phy(usbphy::Reg::CtrlSet, 2));
}

#[test]
fn irq_wakes_and_masks() {
    let mut shared = UsbShared::new();
    assert!(!shared.device_waker());
    assert!(!shared.async_advance_waker());
    assert!((0..5).all(|i| !shared.pipe_waker(i)));

    let mut regs = usb::RegisterBlock::zeroed();
    regs.usbsts = usb::USBSTS_PCI | usb::USBSTS_AAI;
    regs.usbintr = 0x000C_0037;
    let usb = shared.on_usb_irq(0x402E_0200, regs);
    assert_eq!(usb.addr, 0x402E_0200);
    // The acknowledgement of the doorbell is not cleared
    assert_eq!(
        usb.queue,
        vec![
            write_usb(usb::Reg::Usbsts, 0x04),
            Action::ModifyUsb { reg: usb::Reg::Usbintr, clear: 0x24, set: 0 },
        ]
    );
    assert_eq!(usb.regs.usbintr, 0x000C_0013);
    assert_eq!(usb.regs.usbsts, usb::USBSTS_AAI);
    assert!(shared.device_waker());
    assert!(shared.async_advance_waker());
    assert!(!shared.pipe_waker(0));
}

#[test]
fn irq_wakes_all_pipes_on_completion_and_error() {
    for bit in [usb::USBSTS_UI, usb::USBSTS_UEI, usb::USBSTS_UAI, usb::USBSTS_UPI] {
        let mut shared = UsbShared::new();
        let mut usb = usb::Instance::from_ral(0x402E_0200, usb::RegisterBlock::zeroed());
        usb.regs.usbsts = bit;
        usb.regs.usbintr = 0x000C_0037;
        shared.on_irq(&mut usb);
        assert!((0..5).all(|i| shared.pipe_waker(i)));
        assert!(!shared.device_waker());
        assert!(!shared.async_advance_waker());
        assert_eq!(usb.regs.usbsts, 0);
        assert_eq!(usb.regs.usbintr, 0x000C_0037 & !bit);
    }
}

#[test]
fn polls_enable_what_the_handler_masked() {
    let pools = UsbPools::new();
    let mut hc = controller(&pools, false);
    hc.reenable_transfer_interrupts();
    assert_eq!(hc.usb.regs.usbintr, 0x000C_0003);
    hc.reenable_port_change_interrupt();
    assert_eq!(hc.usb.regs.usbintr, 0x000C_0007);
    hc.reenable_async_advance_interrupt();
    assert_eq!(hc.usb.regs.usbintr, 0x000C_0027);
}

#[test]
fn errors_have_names() {
    let names = [
        (UsbError::Stall, "Stall"),
        (UsbError::Timeout, "Timeout"),
        (UsbError::Overflow, "Overflow"),
        (UsbError::BitStuffError, "BitStuffError"),
        (UsbError::CrcError, "CrcError"),
        (UsbError::DataSeqError, "DataSeqError"),
        (UsbError::BufferTooSmall, "BufferTooSmall"),
        (UsbError::AllPipesInUse, "AllPipesInUse"),
        (UsbError::ProtocolError, "ProtocolError"),
        (UsbError::TooManyDevices, "TooManyDevices"),
        (UsbError::NoSuchEndpoint, "NoSuchEndpoint"),
    ];
    for (error, name) in names {
        assert_eq!(ImxrtHostController::usb_error_str(&error), name);
    }
}

#[test]
fn field_masks_are_those_of_the_register_definitions() {
    assert_eq!(usb::USBCMD_RS, ral_usb::USBCMD::RS::mask);
    assert_eq!(usb::USBCMD_RST, ral_usb::USBCMD::RST::mask);
    assert_eq!(usb::USBCMD_FS_1_32, 0b01 << ral_usb::USBCMD::FS_1::offset);
    assert_eq!(usb::USBCMD_PSE, ral_usb::USBCMD::PSE::mask);
    assert_eq!(usb::USBCMD_ASE, ral_usb::USBCMD::ASE::mask);
    assert_eq!(usb::USBCMD_IAA, ral_usb::USBCMD::IAA::mask);
    assert_eq!(usb::USBCMD_ASP_3, 0b11 << ral_usb::USBCMD::ASP::offset);
    assert_eq!(usb::USBCMD_ASPE, ral_usb::USBCMD::ASPE::mask);
    assert_eq!(usb::USBCMD_FS_2, ral_usb::USBCMD::FS_2::mask);
    assert_eq!(usb::USBCMD_ITC_1, 1 << ral_usb::USBCMD::ITC::offset);
    assert_eq!(usb::USBSTS_UI, ral_usb::USBSTS::UI::mask);
    assert_eq!(usb::USBSTS_UEI, ral_usb::USBSTS::UEI::mask);
    assert_eq!(usb::USBSTS_PCI, ral_usb::USBSTS::PCI::mask);
    assert_eq!(usb::USBSTS_AAI, ral_usb::USBSTS::AAI::mask);
    assert_eq!(usb::USBSTS_TI0, ral_usb::USBSTS::TI0::mask);
    assert_eq!(usb::USBSTS_TI1, ral_usb::USBSTS::TI1::mask);
    assert_eq!(usb::USBINTR_UE, ral_usb::USBINTR::UE::mask);
    assert_eq!(usb::USBINTR_UEE, ral_usb::USBINTR::UEE::mask);
    assert_eq!(usb::USBINTR_PCE, ral_usb::USBINTR::PCE::mask);
    assert_eq!(usb::USBINTR_SEE, ral_usb::USBINTR::SEE::mask);
    assert_eq!(usb::USBINTR_AAE, ral_usb::USBINTR::AAE::mask);
    assert_eq!(usb::USBINTR_UAIE, ral_usb::USBINTR::UAIE::mask);
    assert_eq!(usb::USBINTR_UPIE, ral_usb::USBINTR::UPIE::mask);
    assert_eq!(usb::USBINTR_TIE0, ral_usb::USBINTR::TIE0::mask);
    assert_eq!(usb::USBINTR_TIE1, ral_usb::USBINTR::TIE1::mask);
    assert_eq!(usb::PORTSC1_CCS, ral_usb::PORTSC1::CCS::mask);
    assert_eq!(usb::PORTSC1_CSC, ral_usb::PORTSC1::CSC::mask);
    assert_eq!(usb::PORTSC1_PEC, ral_usb::PORTSC1::PEC::mask);
    assert_eq!(usb::PORTSC1_OCC, ral_usb::PORTSC1::OCC::mask);
    assert_eq!(usb::PORTSC1_FPR, ral_usb::PORTSC1::FPR::mask);
    assert_eq!(usb::PORTSC1_PR, ral_usb::PORTSC1::PR::mask);
    assert_eq!(usb::PORTSC1_PP, ral_usb::PORTSC1::PP::mask);
    assert_eq!(usb::PORTSC1_PFSC, ral_usb::PORTSC1::PFSC::mask);
    assert_eq!(3 << 26, ral_usb::PORTSC1::PSPD::mask);
    assert_eq!(usb::USBMODE_CM_HOST, ral_usb::USBMODE::CM::mask);
    assert_eq!(usb::SBUSCFG_AHBBRST_INCR4, 1 << ral_usb::SBUSCFG::AHBBRST::offset);
    assert_eq!(usb::GPTIMERCTRL_GPTMODE, ral_usb::GPTIMER0CTRL::GPTMODE::mask);
    assert_eq!(usb::GPTIMERCTRL_GPTRST, ral_usb::GPTIMER0CTRL::GPTRST::mask);
    assert_eq!(usb::GPTIMERCTRL_GPTRUN, ral_usb::GPTIMER0CTRL::GPTRUN::mask);
    assert_eq!(usbphy::CTRL_ENHOSTDISCONDETECT, ral_phy::CTRL::ENHOSTDISCONDETECT::mask);
    assert_eq!(usbphy::CTRL_ENUTMILEVEL2, ral_phy::CTRL::ENUTMILEVEL2::mask);
    assert_eq!(usbphy::CTRL_ENUTMILEVEL3, ral_phy::CTRL::ENUTMILEVEL3::mask);
    assert_eq!(usbphy::CTRL_CLKGATE, ral_phy::CTRL::CLKGATE::mask);
    assert_eq!(usbphy::CTRL_SFTRST, ral_phy::CTRL::SFTRST::mask);
}
