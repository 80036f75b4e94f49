//! General purpose timers.

use imxrt_usbh::action::Action;
use imxrt_usbh::gpt::{Gpt, Instance, Mode};
use imxrt_usbh::ral::usb;

fn registers() -> usb::Instance {
    usb::Instance::from_ral(0x402E_0200, usb::RegisterBlock::zeroed())
}

#[test]
fn run_and_stop() {
    for gpt in [Instance::Gpt0, Instance::Gpt1] {
        let mut usb = registers();
        let mut timer = Gpt::new(&mut usb, gpt);
        assert_eq!(timer.instance(), gpt);
        assert!(!timer.is_running());
        timer.run();
        assert!(timer.is_running());
        timer.stop();
        assert!(!timer.is_running());
    }
}

#[test]
fn instances_use_their_own_registers() {
    let mut usb = registers();
    Gpt::new(&mut usb, Instance::Gpt1).run();
    assert_eq!(
        usb.queue,
        vec![Action::ModifyUsb { reg: usb::Reg::Gptimer1Ctrl, clear: 0, set: 0x8000_0000 }]
    );
    assert!(!Gpt::new(&mut usb, Instance::Gpt0).is_running());
}

#[test]
fn reset_keeps_the_timer_running() {
    let mut usb = registers();
    let mut timer = Gpt::new(&mut usb, Instance::Gpt0);
    timer.run();
    timer.reset();
    assert!(timer.is_running());
    assert_eq!(
        usb.queue[1],
        Action::ModifyUsb { reg: usb::Reg::Gptimer0Ctrl, clear: 0, set: 0x4000_0000 }
    );
}

#[test]
fn modes_are_read_back() {
    let mut usb = registers();
    let mut timer = Gpt::new(&mut usb, Instance::Gpt0);
    assert_eq!(timer.mode(), Mode::OneShot);
    timer.set_mode(Mode::Repeat);
    assert_eq!(timer.mode(), Mode::Repeat);
    timer.set_mode(Mode::OneShot);
    assert_eq!(timer.mode(), Mode::OneShot);
}

#[test]
fn load_saturates() {
    let mut usb = registers();
    let mut timer = Gpt::new(&mut usb, Instance::Gpt1);
    timer.set_load(75_000);
    assert_eq!(timer.load(), 75_000 - 1);
    timer.set_load(0);
    assert_eq!(timer.load(), 0);
    timer.set_load(u32::MAX);
    assert_eq!(timer.load(), 0x00FF_FFFE);
}

#[test]
fn elapsed_is_cleared_for_one_timer_only() {
    let mut usb = registers();
    usb.regs.usbsts = usb::USBSTS_TI0 | usb::USBSTS_TI1;
    let mut timer = Gpt::new(&mut usb, Instance::Gpt0);
    assert!(timer.is_elapsed());
    timer.clear_elapsed();
    assert!(!timer.is_elapsed());
    assert!(Gpt::new(&mut usb, Instance::Gpt1).is_elapsed());
    assert_eq!(usb.queue, vec![Action::WriteUsb { reg: usb::Reg::Usbsts, value: 0x0100_0000 }]);
}

#[test]
fn interrupts_are_enabled_and_disabled() {
    let mut usb = registers();
    usb.regs.usbintr = 0x37;
    let mut timer = Gpt::new(&mut usb, Instance::Gpt1);
    assert!(!timer.is_interrupt_enabled());
    timer.set_interrupt_enabled(true);
    assert!(timer.is_interrupt_enabled());
    timer.set_interrupt_enabled(false);
    assert!(!timer.is_interrupt_enabled());
    assert_eq!(usb.regs.usbintr, 0x37);
}
