use kernel_core::interrupt::{
    vector_slot_offset, InterruptController, IRQ_GPIO, IRQ_TIMER, IRQ_UART0,
};

#[test]
fn init_unmasks_exactly_the_three_lines_of_interest() {
    let mut gic = InterruptController::new();
    assert_eq!(gic.init(), Ok(()));
    assert!(gic.is_enabled(IRQ_TIMER));
    assert!(gic.is_enabled(IRQ_UART0));
    assert!(gic.is_enabled(IRQ_GPIO));
    for irq in 0..256u32 {
        if irq != IRQ_TIMER && irq != IRQ_UART0 && irq != IRQ_GPIO {
            assert!(!gic.is_enabled(irq), "line {} unexpectedly enabled", irq);
        }
    }
}

#[test]
fn enable_and_disable_flip_one_line() {
    let mut gic = InterruptController::new();
    gic.init().unwrap();
    assert!(!gic.is_enabled(77));
    gic.enable_interrupt(77);
    assert!(gic.is_enabled(77));
    assert!(gic.is_enabled(IRQ_TIMER));
    gic.disable_interrupt(77);
    assert!(!gic.is_enabled(77));
    gic.disable_interrupt(IRQ_TIMER);
    assert!(!gic.is_enabled(IRQ_TIMER));
}

#[test]
fn every_acknowledged_interrupt_gets_exactly_one_eoi() {
    let mut gic = InterruptController::new();
    gic.init().unwrap();
    gic.raise_interrupt(IRQ_TIMER);
    gic.raise_interrupt(IRQ_GPIO);
    assert_eq!(gic.handle_interrupt(), Some(IRQ_TIMER));
    assert_eq!(gic.eoi_log(), &[IRQ_TIMER]);
    assert_eq!(gic.handle_interrupt(), Some(IRQ_GPIO));
    assert_eq!(gic.eoi_log(), &[IRQ_TIMER, IRQ_GPIO]);
}

#[test]
fn eoi_writes_back_the_full_acknowledge_value() {
    // The acknowledge register carries more than the line number; the EOI
    // write must repeat the value exactly as read.
    let mut gic = InterruptController::new();
    gic.init().unwrap();
    let iar = 0x400 | IRQ_TIMER;
    gic.raise_interrupt(iar);
    assert_eq!(gic.handle_interrupt(), Some(IRQ_TIMER));
    assert_eq!(gic.eoi_log(), &[iar]);
}

#[test]
fn spurious_values_get_no_eoi() {
    let mut gic = InterruptController::new();
    gic.init().unwrap();
    gic.raise_interrupt(1020);
    gic.raise_interrupt(1023);
    assert_eq!(gic.handle_interrupt(), None);
    assert_eq!(gic.handle_interrupt(), None);
    assert_eq!(gic.eoi_log(), &[] as &[u32]);
}

#[test]
fn idle_controller_reports_no_interrupt() {
    let mut gic = InterruptController::new();
    gic.init().unwrap();
    assert_eq!(gic.handle_interrupt(), None);
    assert_eq!(gic.eoi_log(), &[] as &[u32]);
}

#[test]
fn vector_slots_are_laid_out_on_0x80_boundaries() {
    assert_eq!(vector_slot_offset(0, 0), 0);
    assert_eq!(vector_slot_offset(0, 1), 0x80);
    assert_eq!(vector_slot_offset(1, 1), 0x280);
    assert_eq!(vector_slot_offset(3, 3), 0x780);
}
