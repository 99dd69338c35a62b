//! Tests of the CPU-lock discipline, the context-class queries, the
//! cooperative-yield decision, and the interrupt-line operations.

use r3_port_rx::icu::{
    ClearInterruptLineError, EnableInterruptLineError, PendInterruptLineError,
    QueryInterruptLineError, SetInterruptGroupPriorityError, SetInterruptLinePriorityError,
};
use r3_port_rx::threading::{validate, YieldDecision};
use r3_port_rx::{State, ThreadingOptions};

#[test]
fn cpu_lock_round_trip_restores_psw() {
    let mut s = State::new();
    s.psw.i = true;
    s.psw.u = true;
    assert!(!s.is_cpu_lock_active());
    s.enter_cpu_lock();
    assert!(s.is_cpu_lock_active());
    assert_eq!(s.psw.ipl, 15);
    s.leave_cpu_lock();
    assert!(!s.is_cpu_lock_active());
    assert_eq!(s.psw.ipl, 0);
    assert!(s.psw.i);
    assert!(s.psw.u);
}

#[test]
fn context_class_queries() {
    let mut s = State::new();
    assert!(!s.is_scheduler_active());
    assert!(!s.is_task_context());
    assert!(!s.is_interrupt_context());
    s.dispatch_first_task(0x1234_5678);
    assert!(s.is_scheduler_active());
    // Scheduler active and PSW.I clear: an interrupt context.
    assert!(s.is_interrupt_context());
    s.psw.i = true;
    assert!(s.is_task_context());
    assert!(!s.is_interrupt_context());
}

#[test]
fn port_boot_masks_and_loads_intb() {
    let mut s = State::new();
    s.port_boot(0xFFF0_0000);
    assert_eq!(s.psw.ipl, 15);
    assert!(!s.psw.i);
    assert_eq!(s.intb, 0xFFF0_0000);
}

#[test]
fn yield_in_task_context_dispatches_now() {
    let mut s = State::new();
    s.psw.i = true;
    let d = s.yield_cpu();
    assert_eq!(d, YieldDecision::DispatchNow);
    assert_eq!(s.psw.ipl, 15);
    assert!(!s.dispatch_pending);
}

#[test]
fn yield_in_interrupt_context_only_pends() {
    let mut s = State::new();
    s.dispatch_first_task(0x1000);
    let ipl_before = s.psw.ipl;
    let d = s.yield_cpu();
    assert_eq!(d, YieldDecision::Deferred);
    assert!(s.dispatch_pending);
    assert_eq!(s.psw.ipl, ipl_before);
    // A second yield from the same handler changes nothing further.
    let d2 = s.yield_cpu();
    assert_eq!(d2, YieldDecision::Deferred);
    assert!(s.dispatch_pending);
}

#[test]
fn set_priority_boundaries() {
    let mut s = State::new();
    assert_eq!(s.set_interrupt_line_priority(16, 0), Ok(()));
    assert_eq!(s.icu.ipr[16], 0);
    assert_eq!(s.set_interrupt_line_priority(255, 15), Ok(()));
    assert_eq!(s.icu.ipr[255], 15);
    assert_eq!(
        s.set_interrupt_line_priority(15, 0),
        Err(SetInterruptLinePriorityError::BadParam)
    );
    assert_eq!(
        s.set_interrupt_line_priority(256, 0),
        Err(SetInterruptLinePriorityError::BadParam)
    );
    assert_eq!(
        s.set_interrupt_line_priority(16, 16),
        Err(SetInterruptLinePriorityError::BadParam)
    );
    assert_eq!(
        s.set_interrupt_line_priority(16, -1),
        Err(SetInterruptLinePriorityError::BadParam)
    );
}

#[test]
fn enable_and_disable_touch_one_bit() {
    let mut s = State::new();
    assert_eq!(s.enable_interrupt_line(17), Ok(()));
    // Line 17 lives in IER[2], bit 1.
    assert_eq!(s.icu.ier[2], 0b10);
    assert_eq!(s.enable_interrupt_line(16), Ok(()));
    assert_eq!(s.icu.ier[2], 0b11);
    assert_eq!(s.disable_interrupt_line(17), Ok(()));
    assert_eq!(s.icu.ier[2], 0b01);
    assert_eq!(s.enable_interrupt_line(15), Err(EnableInterruptLineError::BadParam));
    assert_eq!(s.disable_interrupt_line(256), Err(EnableInterruptLineError::BadParam));
}

#[test]
fn clear_then_query_reports_not_pending() {
    let mut s = State::new();
    s.icu.raise_line(30);
    assert_eq!(s.is_interrupt_line_pending(30), Ok(true));
    assert_eq!(s.clear_interrupt_line(30), Ok(()));
    assert_eq!(s.is_interrupt_line_pending(30), Ok(false));
    assert_eq!(s.clear_interrupt_line(12), Err(ClearInterruptLineError::BadParam));
    assert_eq!(s.is_interrupt_line_pending(300), Err(QueryInterruptLineError::BadParam));
}

#[test]
fn only_the_software_interrupt_line_pends() {
    let mut s = State::new();
    assert!(!s.icu.swintr);
    assert_eq!(s.pend_interrupt_line(27), Ok(()));
    assert!(s.icu.swintr);
    assert_eq!(s.pend_interrupt_line(28), Err(PendInterruptLineError::BadParam));
    assert_eq!(s.pend_interrupt_line(16), Err(PendInterruptLineError::BadParam));
}

#[test]
fn group_priority_boundaries() {
    let mut s = State::new();
    assert_eq!(s.set_interrupt_group_priority(4, 4), Ok(()));
    assert_eq!(s.icu.ipr[4], 4);
    assert_eq!(
        s.set_interrupt_group_priority(256, 4),
        Err(SetInterruptGroupPriorityError::BadParam)
    );
    assert_eq!(
        s.set_interrupt_group_priority(4, 16),
        Err(SetInterruptGroupPriorityError::BadParam)
    );
}

#[test]
fn validate_rejects_unsupported_configurations() {
    let ok = ThreadingOptions::default();
    assert!(validate(&ok));
    let mut nested = ThreadingOptions::default();
    nested.support_nesting = true;
    assert!(!validate(&nested));
    let mut partial_mask = ThreadingOptions::default();
    partial_mask.cpu_lock_priority_mask = 14;
    assert!(!validate(&partial_mask));
}
