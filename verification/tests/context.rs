//! Tests of task-state initialization, the context-switch core, and the
//! two-stage interrupt trampoline: boot-to-first-task, wake-up from an
//! interrupt handler, deferred yield, and idle re-entry.

use r3_port_rx::dispatch::{
    exit_and_dispatch, idle_task, restore_next_task, save_outgoing_task, zl_stage2_exit,
    zl_stage2_save, Background, IspFrame, ZlExit,
};
use r3_port_rx::task::{
    initialize_task_state, FirstLevelState, SecondLevelState, TaskStack, TaskState,
};
use r3_port_rx::threading::{YieldDecision, TASK_DEFAULT_FPSW, TASK_DEFAULT_PSW};
use r3_port_rx::State;

fn live_regs() -> FirstLevelState {
    FirstLevelState {
        fpsw: 0x100,
        r1: 0x101,
        r2: 0x102,
        r3: 0x103,
        r4: 0x104,
        r5: 0x105,
        r14: 0x114,
        r15: 0x115,
        pc: 0,
        psw: 0,
    }
}

#[test]
fn first_dispatch_starts_the_entry_point() {
    let mut stack = TaskStack::new(32);
    let mut task = TaskState::new();
    initialize_task_state(&mut task, &mut stack, 0x0010_0000, 7, 0x0020_0000, false);
    assert_eq!(task.sp, 32 - 21);
    assert_eq!(stack.sp, 32 - 21);

    // A first dispatch of the task pops both frames and resumes at the
    // entry point with interrupts enabled and the user stack selected.
    let rc = restore_next_task(&mut stack, &task);
    assert_eq!(rc.fls.pc, 0x0010_0000);
    assert_eq!(rc.fls.psw, TASK_DEFAULT_PSW);
    assert_ne!(rc.fls.psw & 0x10000, 0, "PSW.I set");
    assert_ne!(rc.fls.psw & 0x20000, 0, "PSW.U set");
    assert_eq!(rc.fls.r1, 7);
    assert_eq!(rc.fls.fpsw, TASK_DEFAULT_FPSW);
    // The word on top of the remaining stack is the exit routine: returning
    // from the entry point exits the task.
    assert_eq!(stack.sp, 31);
    assert_eq!(stack.words[31], 0x0020_0000);
}

#[test]
fn preloaded_registers_carry_debug_patterns() {
    let mut stack = TaskStack::new(21);
    let mut task = TaskState::new();
    initialize_task_state(&mut task, &mut stack, 0xAAAA, 1, 0xBBBB, true);
    assert_eq!(task.sp, 0);
    let rc = restore_next_task(&mut stack, &task);
    assert_eq!(rc.sls.acclo, 0xa0a0a0a0);
    assert_eq!(rc.sls.acchi, 0xa1a1a1a1);
    assert_eq!(rc.sls.r6, 0x06060606);
    assert_eq!(rc.sls.r13, 0x13131313);
    assert_eq!(rc.fls.r2, 0x02020202);
    assert_eq!(rc.fls.r5, 0x05050505);
    assert_eq!(rc.fls.r14, 0x14141414);
    assert_eq!(rc.fls.r15, 0x15151515);
}

#[test]
fn resume_without_pending_dispatch_is_exact() {
    // An interrupt preempts a running task; the handler does not request a
    // dispatch; the task resumes exactly where the hardware stacked it.
    let mut state = State::new();
    state.dispatch_first_task(0x1000);
    let mut bg = Background { idle: false, stack: TaskStack::new(24) };
    let live = live_regs();
    let isp = IspFrame { saved_pc: 0x4455_6677, saved_psw: TASK_DEFAULT_PSW };

    zl_stage2_save(&mut bg, &live);
    assert_eq!(bg.stack.sp, 24 - 10);

    // The handler runs here and wakes nobody.
    let e = zl_stage2_exit(&mut state, &mut bg, &isp, &live);
    match e {
        ZlExit::Resume(regs) => {
            // The interrupted context's return address and PSW are exactly
            // the two words the hardware stacked on the interrupt stack.
            assert_eq!(regs.pc, 0x4455_6677);
            assert_eq!(regs.psw, TASK_DEFAULT_PSW);
            assert_eq!(regs.r1, live.r1);
            assert_eq!(regs.r5, live.r5);
            assert_eq!(regs.r14, live.r14);
            assert_eq!(regs.r15, live.r15);
            assert_eq!(regs.fpsw, live.fpsw);
        }
        ZlExit::Dispatch => panic!("no dispatch was pending"),
    }
    assert_eq!(bg.stack.sp, 24, "the task stack is fully unwound");
}

#[test]
fn isr_wake_up_switches_to_the_woken_task() {
    // Task A waits on an event; the interrupt handler signals it and calls
    // yield_cpu; the switch happens on the way out of the handler.
    let mut state = State::new();
    state.dispatch_first_task(0x1000);

    // Task A was initialized earlier and sits suspended on its own stack.
    let mut a_stack = TaskStack::new(32);
    let mut a_task = TaskState::new();
    initialize_task_state(&mut a_task, &mut a_stack, 0x9000, 42, 0xE000, false);

    // Task B is running when the interrupt arrives.
    let mut bg = Background { idle: false, stack: TaskStack::new(24) };
    let live = live_regs();
    let isp = IspFrame { saved_pc: 0x1234_5678, saved_psw: TASK_DEFAULT_PSW };
    zl_stage2_save(&mut bg, &live);

    // The handler signals the event and requests a dispatch.
    let d = state.yield_cpu();
    assert_eq!(d, YieldDecision::Deferred);
    assert!(state.dispatch_pending);

    // Handler exit: the pending request is consumed and the port enters the
    // dispatcher.
    let e = zl_stage2_exit(&mut state, &mut bg, &isp, &live);
    assert_eq!(e, ZlExit::Dispatch);
    assert!(!state.dispatch_pending, "the request is consumed");
    assert_eq!(state.psw.ipl, 15);
    // B's first-level frame was completed with the hardware-stacked PC/PSW.
    let sp = bg.stack.sp;
    assert_eq!(bg.stack.words[sp + 8], 0x1234_5678);
    assert_eq!(bg.stack.words[sp + 9], TASK_DEFAULT_PSW);

    // The dispatcher saves B's second-level state and stores its SP.
    let mut b_task = TaskState::new();
    let sls = SecondLevelState {
        acclo: 1,
        acchi: 2,
        r6: 6,
        r7: 7,
        r8: 8,
        r9: 9,
        r10: 10,
        r11: 11,
        r12: 12,
        r13: 13,
    };
    save_outgoing_task(&mut bg.stack, &mut b_task, &sls);
    assert_eq!(b_task.sp, bg.stack.sp);

    // The chooser picks A; A resumes at its entry with its state intact.
    let rc = restore_next_task(&mut a_stack, &a_task);
    assert_eq!(rc.fls.pc, 0x9000);
    assert_eq!(rc.fls.r1, 42);
    assert_eq!(rc.fls.psw, TASK_DEFAULT_PSW);
    assert_ne!(rc.fls.psw & 0x10000, 0, "A resumes with PSW.I = 1");
}

#[test]
fn suspended_task_resumes_with_registers_intact() {
    // A task is preempted, a dispatch is requested, the task is suspended
    // through the save path — and when the scheduler picks it again, every
    // register comes back exactly as the hardware stacked it.
    let mut state = State::new();
    state.dispatch_first_task(0x1000);
    let mut bg = Background { idle: false, stack: TaskStack::new(32) };
    let live = live_regs();
    let isp = IspFrame { saved_pc: 0x0BAD_F00D, saved_psw: TASK_DEFAULT_PSW };
    zl_stage2_save(&mut bg, &live);
    state.yield_cpu();
    let e = zl_stage2_exit(&mut state, &mut bg, &isp, &live);
    assert_eq!(e, ZlExit::Dispatch);
    let sls = SecondLevelState {
        acclo: 21,
        acchi: 22,
        r6: 26,
        r7: 27,
        r8: 28,
        r9: 29,
        r10: 30,
        r11: 31,
        r12: 32,
        r13: 33,
    };
    let mut task = TaskState::new();
    save_outgoing_task(&mut bg.stack, &mut task, &sls);

    // Later, the chooser picks the task again.
    let rc = restore_next_task(&mut bg.stack, &task);
    assert_eq!(rc.sls, sls);
    assert_eq!(rc.fls.fpsw, live.fpsw);
    assert_eq!(rc.fls.r1, live.r1);
    assert_eq!(rc.fls.r2, live.r2);
    assert_eq!(rc.fls.r3, live.r3);
    assert_eq!(rc.fls.r4, live.r4);
    assert_eq!(rc.fls.r5, live.r5);
    assert_eq!(rc.fls.r14, live.r14);
    assert_eq!(rc.fls.r15, live.r15);
    assert_eq!(rc.fls.pc, 0x0BAD_F00D);
    assert_eq!(rc.fls.psw, TASK_DEFAULT_PSW);
    assert_eq!(bg.stack.sp, 32, "the stack is fully unwound on resume");
}

#[test]
fn yield_from_interrupt_is_deferred_and_happens_once() {
    let mut state = State::new();
    state.dispatch_first_task(0x1000);
    let mut bg = Background { idle: false, stack: TaskStack::new(24) };
    let live = live_regs();
    let isp = IspFrame { saved_pc: 0xCAFE_0000, saved_psw: TASK_DEFAULT_PSW };
    zl_stage2_save(&mut bg, &live);

    let words_before: Vec<u32> = bg.stack.words.clone();
    let sp_before = bg.stack.sp;
    // yield_cpu returns normally: no stack switch, nothing but the flag.
    let d = state.yield_cpu();
    assert_eq!(d, YieldDecision::Deferred);
    assert_eq!(bg.stack.sp, sp_before);
    assert_eq!(bg.stack.words, words_before);

    // The switch occurs exactly once, on the way out of the handler.
    let e = zl_stage2_exit(&mut state, &mut bg, &isp, &live);
    assert_eq!(e, ZlExit::Dispatch);
    assert!(!state.dispatch_pending);

    // Were another interrupt to exit now, no further switch would happen.
    let mut bg2 = Background { idle: false, stack: TaskStack::new(24) };
    zl_stage2_save(&mut bg2, &live);
    let e2 = zl_stage2_exit(&mut state, &mut bg2, &isp, &live);
    assert!(matches!(e2, ZlExit::Resume(_)));
}

#[test]
fn idle_reentry_takes_the_zero_sentinel_branch() {
    // No task is runnable: the idle task runs with the zero stack-pointer
    // sentinel. An interrupt wakes a task; stage 2 skips the stacking, the
    // dispatcher borrows the interrupt stack for the chooser, and the woken
    // task is dispatched.
    let mut state = State::new();
    state.dispatch_first_task(0x1000);
    idle_task(&mut state);
    assert_eq!(state.psw.ipl, 0);
    assert!(state.psw.i);

    // Taking the interrupt clears PSW.I before stage 2 runs.
    state.psw.i = false;
    let mut bg = Background { idle: true, stack: TaskStack::new(4) };
    let live = live_regs();
    let isp = IspFrame { saved_pc: 0x0000_0400, saved_psw: TASK_DEFAULT_PSW };

    zl_stage2_save(&mut bg, &live);
    assert_eq!(bg.stack.sp, 4, "nothing is stacked for the idle task");

    let d = state.yield_cpu();
    assert_eq!(d, YieldDecision::Deferred);

    let e = zl_stage2_exit(&mut state, &mut bg, &isp, &live);
    assert_eq!(e, ZlExit::Dispatch);
    assert_eq!(bg.stack.sp, 4, "the idle path saves nothing");
    assert_eq!(state.psw.ipl, 15);

    // The woken task is dispatched; nothing of idle was saved.
    let mut t_stack = TaskStack::new(21);
    let mut t_task = TaskState::new();
    initialize_task_state(&mut t_task, &mut t_stack, 0x7000, 3, 0x8000, false);
    let rc = restore_next_task(&mut t_stack, &t_task);
    assert_eq!(rc.fls.pc, 0x7000);
    assert_eq!(rc.fls.r1, 3);
}

#[test]
fn exit_and_dispatch_saves_nothing_and_restores_the_next_task() {
    let mut stack = TaskStack::new(32);
    let mut next = TaskState::new();
    initialize_task_state(&mut next, &mut stack, 0x5000, 9, 0x6000, false);
    let words_before: Vec<u32> = stack.words.clone();
    let rc = exit_and_dispatch(&mut stack, &next);
    assert_eq!(rc.fls.pc, 0x5000);
    assert_eq!(rc.fls.r1, 9);
    assert_eq!(stack.words, words_before, "nothing of the exiting task is saved");
}
