//! The context-switch core and the zeroth-level two-stage interrupt handler.
//!
//! On hardware these paths are naked assembly: they save and restore the
//! two-level task state, borrow the interrupt stack for the dispatcher, and
//! return from exceptions. Here the stacks and the hardware-stacked
//! exception frame are explicit values and each step is a verified
//! transition. The kernel's `choose_running_task` hook is an external
//! collaborator: its choice enters the dispatch path as an argument.

use vstd::prelude::*;

use crate::task::{
    fls_words, pop_first_level, pop_second_level, push_second_level, restored_fls, sls_words,
    FirstLevelState, SecondLevelState, TaskStack, TaskState,
};
use crate::threading::State;

verus! {

/// The background context that an interrupt or a dispatch found running:
/// the idle task — which has no stack; the machine carries it as the zero
/// stack-pointer sentinel — or a task with its stack.
pub struct Background {
    /// Whether the background was the idle task.
    pub idle: bool,
    /// The background task's stack; meaningful only when `idle` is false.
    pub stack: TaskStack,
}

/// The two words the hardware pushed onto the interrupt stack when it took
/// the interrupt: the return target and the saved processor status word.
#[derive(Clone, Copy, Debug, PartialEq, Eq, Structural)]
pub struct IspFrame {
    /// The program counter of the interrupted context.
    pub saved_pc: u32,
    /// The processor status word of the interrupted context.
    pub saved_psw: u32,
}

/// What the tail of the zeroth-level stage-2 handler does: return straight
/// into the background context, or fall through into the dispatcher.
#[derive(Clone, Copy, Debug, PartialEq, Eq, Structural)]
pub enum ZlExit {
    /// No dispatch was pending: the background context resumes with exactly
    /// these register values.
    Resume(FirstLevelState),
    /// A dispatch was pending: the port entered a dispatcher context and
    /// proceeds to save the second-level state and dispatch.
    Dispatch,
}

/// The state restored for the task chosen by the dispatcher.
#[derive(Clone, Copy, Debug, PartialEq, Eq, Structural)]
pub struct ResumedContext {
    /// The second-level state popped first.
    pub sls: SecondLevelState,
    /// The first-level state popped next; the return from exception resumes
    /// at its PC with its PSW.
    pub fls: FirstLevelState,
}

/// The save half of the context-switch core: the outgoing non-idle task's
/// second-level state is pushed onto its stack and the resulting stack
/// pointer is stored into its saved-SP slot. (For an idle outgoing context
/// the dispatcher skips this entirely and borrows the interrupt stack; see
/// `restore_next_task`.)
pub fn save_outgoing_task(stack: &mut TaskStack, task: &mut TaskState, sls: &SecondLevelState)
    requires
        old(stack).wf(),
        old(stack).sp >= 10,
    ensures
        final(stack).wf(),
        final(stack).sp == old(stack).sp - 10,
        final(stack).words@.len() == old(stack).words@.len(),
        final(task).sp == final(stack).sp,
        forall|i: int|
            0 <= i < 10 ==> final(stack).words@[final(stack).sp + i] == sls_words(*sls)[i],
        forall|i: int|
            0 <= i < old(stack).words@.len() && !(final(stack).sp <= i < old(stack).sp)
                ==> final(stack).words@[i] == old(stack).words@[i],
{
    push_second_level(stack, sls);
    task.sp = stack.sp;
}

/// The restore half of the context-switch core, at the `dispatch` entry
/// point: the stack pointer is loaded from the chosen task's saved-SP slot,
/// the second-level and then the first-level state are popped, and the
/// return from exception resumes the task at the popped PC and PSW.
pub fn restore_next_task(stack: &mut TaskStack, task: &TaskState) -> (rc: ResumedContext)
    requires
        old(stack).wf(),
        task.sp + 20 <= old(stack).words@.len(),
    ensures
        final(stack).wf(),
        final(stack).sp == task.sp + 20,
        final(stack).words@ == old(stack).words@,
        sls_words(rc.sls) == old(stack).words@.subrange(task.sp as int, task.sp + 10),
        rc.fls == restored_fls(old(stack).words@, task.sp + 10),
        fls_words(rc.fls) == old(stack).words@.subrange(task.sp + 10, task.sp + 20),
{
    stack.sp = task.sp;
    let sls = pop_second_level(stack);
    let fls = pop_first_level(stack);
    proof {
        assert(fls_words(fls) =~= stack.words@.subrange(task.sp + 10, task.sp + 20));
    }
    ResumedContext { sls, fls }
}

/// Exit-and-dispatch: the current task is about to be destroyed, so nothing
/// of it is worth saving — the port jumps straight to the dispatch entry of
/// the context-switch core and restores the chosen task.
pub fn exit_and_dispatch(stack: &mut TaskStack, next: &TaskState) -> (rc: ResumedContext)
    requires
        old(stack).wf(),
        next.sp + 20 <= old(stack).words@.len(),
    ensures
        final(stack).wf(),
        final(stack).sp == next.sp + 20,
        final(stack).words@ == old(stack).words@,
        sls_words(rc.sls) == old(stack).words@.subrange(next.sp as int, next.sp + 10),
        rc.fls == restored_fls(old(stack).words@, next.sp + 10),
{
    restore_next_task(stack, next)
}

/// The idle task's entry: a zero stack pointer, interrupts enabled, the
/// priority level lowered to zero, then a `WAIT` (or busy) loop that only an
/// interrupt leaves. Idle never saves state; re-entry from idle always goes
/// through the zero-sentinel branch of the dispatcher.
pub fn idle_task(state: &mut State)
    requires
        old(state).wf(),
    ensures
        final(state).wf(),
        final(state).psw.ipl == 0,
        final(state).psw.i,
        final(state).psw.u == old(state).psw.u,
        final(state).psw.pm == old(state).psw.pm,
        final(state).intb == old(state).intb,
        final(state).running_task_ptr == old(state).running_task_ptr,
        final(state).dispatch_pending == old(state).dispatch_pending,
        final(state).icu == old(state).icu,
{
    state.psw.ipl = 0;
    state.psw.i = true;
}

/// The entry half of the zeroth-level stage-2 interrupt handler. Nested
/// interrupts are disallowed, so the interrupted context is always a task
/// context. If it was not the idle task, the first-level state — except the
/// PC and PSW, which the hardware already stacked on the interrupt stack —
/// is saved onto the task stack, with the two top slots of the frame left
/// reserved; for the idle task nothing is stacked. The first-level interrupt
/// handler is then called.
pub fn zl_stage2_save(bg: &mut Background, live: &FirstLevelState)
    requires
        old(bg).stack.wf(),
        !old(bg).idle ==> old(bg).stack.sp >= 10,
    ensures
        final(bg).stack.wf(),
        final(bg).idle == old(bg).idle,
        final(bg).stack.words@.len() == old(bg).stack.words@.len(),
        old(bg).idle ==> final(bg).stack.sp == old(bg).stack.sp && final(bg).stack.words@ == old(bg).stack.words@,
        !old(bg).idle ==> final(bg).stack.sp == old(bg).stack.sp - 10,
        !old(bg).idle ==> forall|i: int|
            0 <= i < 8 ==> final(bg).stack.words@[final(bg).stack.sp + i] == fls_words(*live)[i],
        !old(bg).idle ==> forall|i: int|
            0 <= i < old(bg).stack.words@.len() && !(final(bg).stack.sp <= i < final(bg).stack.sp + 8) ==> final(bg).stack.words@[i] == old(bg).stack.words@[i],
{
    if !bg.idle {
        // Reserve the PC and PSW slots; they stay on the interrupt stack
        // until the exit path decides what to do with them.
        bg.stack.sp = bg.stack.sp - 2;
        bg.stack.push_word(live.r15);
        bg.stack.push_word(live.r14);
        bg.stack.push_word(live.r5);
        bg.stack.push_word(live.r4);
        bg.stack.push_word(live.r3);
        bg.stack.push_word(live.r2);
        bg.stack.push_word(live.r1);
        bg.stack.push_word(live.fpsw);
    }
}

/// The exit half of the zeroth-level stage-2 interrupt handler, after the
/// first-level handler returned.
///
/// With no dispatch pending, the background context resumes exactly where
/// it was: the saved registers are popped back (for a non-idle background)
/// and the return target and status word are the two words the hardware
/// stacked on the interrupt stack — which nothing has touched in between.
///
/// With a dispatch pending, the request is cleared, those two words are
/// transplanted into the reserved PC and PSW slots of the task frame (for a
/// non-idle background), the priority level is raised to the maximum, and
/// the port falls through into the dispatcher: the switch happens exactly
/// once, on the way out of the handler.
pub fn zl_stage2_exit(
    state: &mut State,
    bg: &mut Background,
    isp: &IspFrame,
    live: &FirstLevelState,
) -> (e: ZlExit)
    requires
        old(state).wf(),
        old(bg).stack.wf(),
        !old(bg).idle ==> old(bg).stack.sp + 10 <= old(bg).stack.words@.len(),
    ensures
        final(state).wf(),
        final(bg).stack.wf(),
        final(bg).idle == old(bg).idle,
        final(bg).stack.words@.len() == old(bg).stack.words@.len(),
        !old(state).dispatch_pending ==> *final(state) == *old(state) && (if old(bg).idle {
            e == ZlExit::Resume(
                FirstLevelState { pc: isp.saved_pc, psw: isp.saved_psw, ..*live },
            ) && final(bg).stack.sp == old(bg).stack.sp && final(bg).stack.words@ == old(bg).stack.words@
        } else {
            e == ZlExit::Resume(
                FirstLevelState {
                    pc: isp.saved_pc,
                    psw: isp.saved_psw,
                    ..restored_fls(old(bg).stack.words@, old(bg).stack.sp as int)
                },
            ) && final(bg).stack.sp == old(bg).stack.sp + 10 && final(bg).stack.words@ == old(bg).stack.words@
        }),
        old(state).dispatch_pending ==> e == ZlExit::Dispatch && !final(state).dispatch_pending
            && final(state).psw == old(state).psw.with_ipl(15) && final(state).intb == old(state).intb && final(state).running_task_ptr == old(state).running_task_ptr && final(state).icu == old(state).icu && (if old(bg).idle {
            final(bg).stack.sp == old(bg).stack.sp && final(bg).stack.words@ == old(bg).stack.words@
        } else {
            final(bg).stack.sp == old(bg).stack.sp && final(bg).stack.words@ == old(bg).stack.words@.update(old(bg).stack.sp + 8, isp.saved_pc).update(
                old(bg).stack.sp + 9,
                isp.saved_psw,
            )
        }),
{
    if !state.dispatch_pending {
        // Return to the background context: its return target and status
        // word are still the top two words of the interrupt stack.
        if bg.idle {
            ZlExit::Resume(FirstLevelState { pc: isp.saved_pc, psw: isp.saved_psw, ..*live })
        } else {
            let fpsw = bg.stack.pop_word();
            let r1 = bg.stack.pop_word();
            let r2 = bg.stack.pop_word();
            let r3 = bg.stack.pop_word();
            let r4 = bg.stack.pop_word();
            let r5 = bg.stack.pop_word();
            let r14 = bg.stack.pop_word();
            let r15 = bg.stack.pop_word();
            // Skip the reserved PC and PSW slots.
            let n = bg.stack.words.len();
            assert(bg.stack.sp + 2 <= n);
            bg.stack.sp = bg.stack.sp + 2;
            ZlExit::Resume(
                FirstLevelState {
                    fpsw,
                    r1,
                    r2,
                    r3,
                    r4,
                    r5,
                    r14,
                    r15,
                    pc: isp.saved_pc,
                    psw: isp.saved_psw,
                },
            )
        }
    } else {
        // There is a pending dispatch request; clear it.
        state.dispatch_pending = false;
        if !bg.idle {
            // Complete the saved first-level state by transplanting the
            // hardware-stacked return target and status word.
            let sp = bg.stack.sp;
            let n = bg.stack.words.len();
            assert(sp + 10 <= n);
            bg.stack.words.set(sp + 8, isp.saved_pc);
            bg.stack.words.set(sp + 9, isp.saved_psw);
        }
        // Enter a dispatcher context and fall through to the dispatcher.
        state.psw.ipl = 15;
        ZlExit::Dispatch
    }
}

} // verus!
