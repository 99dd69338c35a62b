//! The threading port: processor-state model, CPU-lock discipline, context
//! class queries, the cooperative-yield decision, boot sequencing, and the
//! kernel-facing interrupt-line operations over the ICU model.
//!
//! On hardware these operations read and write the processor status word and
//! the ICU registers directly, partly from assembly entry points. Here the
//! processor and ICU state is explicit in [`State`], every transition is a
//! verified function, and the assembly and memory-mapped accesses stay
//! outside the library.

use vstd::prelude::*;

use crate::icu::{
    interrupt_num_valid, interrupt_priority_valid, lemma_clear_bit8, lemma_set_bit8,
    ClearInterruptLineError, EnableInterruptLineError, IcuState, PendInterruptLineError,
    QueryInterruptLineError, SetInterruptGroupPriorityError, SetInterruptLinePriorityError,
    INT_SWINT,
};

verus! {

/// The `IPL` value that CPU Lock boosts the processor to: every managed
/// interrupt is masked.
pub const CPU_LOCK_IPL: u8 = 15;

/// The initial `PSW` value of a task thread as a machine word: interrupts
/// enabled (`PSW.I`, bit 16) and user stack selected (`PSW.U`, bit 17).
pub const TASK_DEFAULT_PSW: u32 = 0x30000;

/// The initial `FPSW` value of a task thread.
pub const TASK_DEFAULT_FPSW: u32 = 0;

/// The fields of the Processor Status Word that the port reads or writes.
#[derive(Clone, Copy, Debug, PartialEq, Eq, Structural)]
pub struct Psw {
    /// `PSW.IPL` — processor interrupt priority level, `0..16`.
    pub ipl: u8,
    /// `PSW.I` — interrupt enable bit.
    pub i: bool,
    /// `PSW.U` — stack pointer select bit (user stack when set).
    pub u: bool,
    /// `PSW.PM` — processor mode bit (supervisor mode when clear).
    pub pm: bool,
}

impl Psw {
    /// Well-formedness: the priority level fits its four-bit field.
    pub open spec fn wf(&self) -> bool {
        self.ipl < 16
    }

    /// This status word with the interrupt priority level replaced.
    pub open spec fn with_ipl(self, ipl: u8) -> Psw {
        Psw { ipl, ..self }
    }
}

/// The configuration of the threading port.
pub struct ThreadingOptions {
    /// The priority value to which CPU Lock boosts the processor interrupt
    /// priority level. Only the architectural maximum, `15`, is supported.
    pub cpu_lock_priority_mask: u8,
    /// Enables nested interrupts. Not supported.
    pub support_nesting: bool,
    /// Whether the idle task issues the `WAIT` instruction to save power.
    pub use_wait: bool,
    /// The base address of the ICU register block.
    pub icu_base: u32,
}

impl Default for ThreadingOptions {
    /// The default configuration: CPU Lock masks everything, no nesting,
    /// idle halts with `WAIT`, ICU at its architectural address.
    fn default() -> (r: ThreadingOptions)
        ensures
            r.cpu_lock_priority_mask == 15,
            !r.support_nesting,
            r.use_wait,
            r.icu_base == 0x0008_7000,
    {
        ThreadingOptions {
            cpu_lock_priority_mask: 15,
            support_nesting: false,
            use_wait: true,
            icu_base: 0x0008_7000,
        }
    }
}

/// Checks a configuration for the combinations the port supports: CPU Lock
/// must mask every managed interrupt and nested interrupts must be off.
pub fn validate(opts: &ThreadingOptions) -> (r: bool)
    ensures
        r <==> (opts.cpu_lock_priority_mask == 15 && !opts.support_nesting),
{
    opts.cpu_lock_priority_mask == 15 && !opts.support_nesting
}

/// What a call to `yield_cpu` decided.
#[derive(Clone, Copy, Debug, PartialEq, Eq, Structural)]
pub enum YieldDecision {
    /// The caller was in a task context: the port entered a dispatcher
    /// context and proceeds to save state and dispatch.
    DispatchNow,
    /// The caller was in an interrupt context: only the dispatch-pending
    /// flag was set, and the switch happens at handler exit.
    Deferred,
}

/// The process-wide state of the threading port: the processor state it
/// drives, the interrupt vector table base, the cached location of the
/// kernel's running-task slot, the dispatch-pending flag, and the ICU.
pub struct State {
    /// The processor status word.
    pub psw: Psw,
    /// The interrupt vector table base register (`INTB`).
    pub intb: u32,
    /// The address of the kernel's running-task slot, cached by
    /// `dispatch_first_task`; zero until then.
    pub running_task_ptr: u32,
    /// Set by an interrupt-context `yield_cpu`, consumed by the zeroth-level
    /// stage-2 handler on its way out.
    pub dispatch_pending: bool,
    /// The interrupt controller.
    pub icu: IcuState,
}

/// The state `s` with the processor status word replaced by `psw`.
pub open spec fn with_psw(s: State, psw: Psw) -> State {
    State { psw, ..s }
}

/// The transition `enter_cpu_lock` performs: `IPL` is raised to the maximum.
pub open spec fn enter_cpu_lock_spec(s: State) -> State {
    with_psw(s, s.psw.with_ipl(15))
}

/// The transition `leave_cpu_lock` performs: `IPL` is lowered to zero.
pub open spec fn leave_cpu_lock_spec(s: State) -> State {
    with_psw(s, s.psw.with_ipl(0))
}

/// Entering and then leaving CPU Lock restores `IPL` and leaves `PSW.I` and
/// `PSW.U` untouched, relative to an entry state in which the lock was
/// inactive (the kernel enters the lock only when it does not hold it).
pub proof fn lemma_cpu_lock_round_trip(s: State)
    requires
        s.psw.ipl == 0,
    ensures
        leave_cpu_lock_spec(enter_cpu_lock_spec(s)).psw.ipl == s.psw.ipl,
        leave_cpu_lock_spec(enter_cpu_lock_spec(s)).psw.i == s.psw.i,
        leave_cpu_lock_spec(enter_cpu_lock_spec(s)).psw.u == s.psw.u,
        leave_cpu_lock_spec(enter_cpu_lock_spec(s)) == s,
{
}

impl State {
    /// Well-formedness of the whole port state.
    pub open spec fn wf(&self) -> bool {
        self.psw.wf() && self.icu.wf()
    }

    /// The state at load time: everything zero-initialized.
    pub fn new() -> (r: State)
        ensures
            r.wf(),
            r.psw == (Psw { ipl: 0, i: false, u: false, pm: false }),
            r.intb == 0,
            r.running_task_ptr == 0,
            !r.dispatch_pending,
            forall|n: int| 0 <= n < 256 ==> !r.icu.line_pending(n),
            forall|n: int| 0 <= n < 256 ==> !r.icu.line_enabled(n),
            forall|n: int| 0 <= n < 256 ==> r.icu.line_priority(n) == 0,
            !r.icu.swintr,
    {
        State {
            psw: Psw { ipl: 0, i: false, u: false, pm: false },
            intb: 0,
            running_task_ptr: 0,
            dispatch_pending: false,
            icu: IcuState::new(),
        }
    }

    /// Whether CPU Lock is active: the interrupt priority level is nonzero.
    /// (With the priority mask fixed at `15` this coincides with testing
    /// `IPL == 15` on every path the port takes.)
    pub fn is_cpu_lock_active(&self) -> (r: bool)
        ensures
            r == (self.psw.ipl != 0),
    {
        self.psw.ipl != 0
    }

    /// Whether the current context is a task context: `PSW.I` is set.
    pub fn is_task_context(&self) -> (r: bool)
        ensures
            r == self.psw.i,
    {
        self.psw.i
    }

    /// Whether the scheduler has started: the running-task slot address has
    /// been cached by `dispatch_first_task`.
    pub fn is_scheduler_active(&self) -> (r: bool)
        ensures
            r == (self.running_task_ptr != 0),
    {
        self.running_task_ptr != 0
    }

    /// Whether the current context is an interrupt context: the scheduler is
    /// active and the context is not a task context.
    pub fn is_interrupt_context(&self) -> (r: bool)
        ensures
            r == (self.running_task_ptr != 0 && !self.psw.i),
    {
        self.is_scheduler_active() && !self.is_task_context()
    }

    /// Activates CPU Lock by raising `IPL` to the maximum managed priority.
    pub fn enter_cpu_lock(&mut self)
        requires
            old(self).wf(),
        ensures
            final(self).wf(),
            *final(self) == enter_cpu_lock_spec(*old(self)),
    {
        self.psw.ipl = CPU_LOCK_IPL;
    }

    /// Deactivates CPU Lock by lowering `IPL` to zero.
    pub fn leave_cpu_lock(&mut self)
        requires
            old(self).wf(),
        ensures
            final(self).wf(),
            *final(self) == leave_cpu_lock_spec(*old(self)),
    {
        self.psw.ipl = 0;
    }

    /// The boot step the port performs before handing control to the timer
    /// driver and the kernel: mask everything (`IPL = 15`, `PSW.I = 0`) and
    /// load the interrupt vector table base into `INTB`. The caller then
    /// runs the timer driver's `init` and the kernel's `boot` hook.
    pub fn port_boot(&mut self, ivt_base: u32)
        requires
            old(self).wf(),
        ensures
            final(self).wf(),
            final(self).psw == (Psw { ipl: 15, i: false, ..old(self).psw }),
            final(self).intb == ivt_base,
            final(self).running_task_ptr == old(self).running_task_ptr,
            final(self).dispatch_pending == old(self).dispatch_pending,
            final(self).icu == old(self).icu,
    {
        self.psw.ipl = 15;
        self.psw.i = false;
        self.intb = ivt_base;
    }

    /// The first step of dispatching the first task: cache the address of
    /// the kernel's running-task slot and select the user stack pointer
    /// (the dispatcher borrows the interrupt stack). The caller then enters
    /// the dispatch entry of the context-switch core.
    pub fn dispatch_first_task(&mut self, running_task_ptr: u32)
        requires
            old(self).wf(),
            running_task_ptr != 0,
        ensures
            final(self).wf(),
            final(self).running_task_ptr == running_task_ptr,
            final(self).psw == (Psw { u: true, ..old(self).psw }),
            final(self).intb == old(self).intb,
            final(self).dispatch_pending == old(self).dispatch_pending,
            final(self).icu == old(self).icu,
    {
        self.running_task_ptr = running_task_ptr;
        self.psw.u = true;
    }

    /// The cooperative-yield decision. In a task context (`PSW.I` set) the
    /// port enters a dispatcher context — `IPL` is raised to the maximum —
    /// and the caller proceeds to save the first-level state and dispatch.
    /// In an interrupt context only the dispatch-pending flag is set; the
    /// interrupted context, its stacks, and the processor state are left
    /// untouched, and the switch happens once, at handler exit.
    pub fn yield_cpu(&mut self) -> (d: YieldDecision)
        requires
            old(self).wf(),
        ensures
            final(self).wf(),
            old(self).psw.i ==> d == YieldDecision::DispatchNow
                && *final(self) == enter_cpu_lock_spec(*old(self)),
            !old(self).psw.i ==> d == YieldDecision::Deferred
                && *final(self) == (State { dispatch_pending: true, ..*old(self) }),
    {
        if self.is_task_context() {
            self.psw.ipl = 15;
            YieldDecision::DispatchNow
        } else {
            self.dispatch_pending = true;
            YieldDecision::Deferred
        }
    }

    /// Sets the priority of interrupt line `num`: the low nibble of
    /// `IPR[num]` is written. Fails with `BadParam` exactly when the number
    /// or the priority is out of range.
    pub fn set_interrupt_line_priority(&mut self, num: usize, priority: i16) -> (r: Result<
        (),
        SetInterruptLinePriorityError,
    >)
        requires
            old(self).wf(),
        ensures
            final(self).wf(),
            r is Ok <==> interrupt_num_valid(num) && interrupt_priority_valid(priority),
            r is Err ==> r == Err::<(), SetInterruptLinePriorityError>(
                SetInterruptLinePriorityError::BadParam,
            ) && *final(self) == *old(self),
            r is Ok ==> final(self).icu.ipr@ == old(self).icu.ipr@.update(
                num as int,
                priority as u8,
            ) && final(self).icu.ir@ == old(self).icu.ir@ && final(self).icu.ier@ == old(self).icu.ier@ && final(self).icu.swintr == old(self).icu.swintr && same_but_icu(
                *final(self),
                *old(self),
            ),
    {
        if !(0 <= priority && priority < 16) || !(16 <= num && num < 256) {
            Err(SetInterruptLinePriorityError::BadParam)
        } else {
            self.icu.ipr.set(num, priority as u8);
            Ok(())
        }
    }

    /// Enables interrupt line `num`: bit `num % 8` of `IER[num / 8]` is set,
    /// and no other line's enable bit changes. Fails with `BadParam` exactly
    /// when the number is out of range.
    pub fn enable_interrupt_line(&mut self, num: usize) -> (r: Result<(), EnableInterruptLineError>)
        requires
            old(self).wf(),
        ensures
            final(self).wf(),
            r is Ok <==> interrupt_num_valid(num),
            r is Err ==> r == Err::<(), EnableInterruptLineError>(EnableInterruptLineError::BadParam)
                && *final(self) == *old(self),
            r is Ok ==> final(self).icu.line_enabled(num as int) && forall|m: int|
                0 <= m < 256 && m != num ==> final(self).icu.line_enabled(m) == old(self).icu.line_enabled(m),
            r is Ok ==> final(self).icu.ir@ == old(self).icu.ir@ && final(self).icu.ipr@ == old(self).icu.ipr@ && final(self).icu.swintr == old(self).icu.swintr && same_but_icu(
                *final(self),
                *old(self),
            ),
    {
        if !(16 <= num && num < 256) {
            Err(EnableInterruptLineError::BadParam)
        } else {
            let idx = num / 8;
            let bit: u8 = (num % 8) as u8;
            let b = self.icu.ier[idx];
            self.icu.ier.set(idx, b | (1u8 << bit));
            proof {
                lemma_set_bit8(b, bit, bit);
                assert forall|m: int| 0 <= m < 256 && m != num implies self.icu.line_enabled(m)
                    == old(self).icu.line_enabled(m) by {
                    if m / 8 == idx {
                        lemma_set_bit8(b, bit, (m % 8) as u8);
                    }
                }
            }
            Ok(())
        }
    }

    /// Disables interrupt line `num`: bit `num % 8` of `IER[num / 8]` is
    /// cleared, and no other line's enable bit changes. Fails with
    /// `BadParam` exactly when the number is out of range.
    pub fn disable_interrupt_line(&mut self, num: usize) -> (r: Result<
        (),
        EnableInterruptLineError,
    >)
        requires
            old(self).wf(),
        ensures
            final(self).wf(),
            r is Ok <==> interrupt_num_valid(num),
            r is Err ==> r == Err::<(), EnableInterruptLineError>(EnableInterruptLineError::BadParam)
                && *final(self) == *old(self),
            r is Ok ==> !final(self).icu.line_enabled(num as int) && forall|m: int|
                0 <= m < 256 && m != num ==> final(self).icu.line_enabled(m) == old(self).icu.line_enabled(m),
            r is Ok ==> final(self).icu.ir@ == old(self).icu.ir@ && final(self).icu.ipr@ == old(self).icu.ipr@ && final(self).icu.swintr == old(self).icu.swintr && same_but_icu(
                *final(self),
                *old(self),
            ),
    {
        if !(16 <= num && num < 256) {
            Err(EnableInterruptLineError::BadParam)
        } else {
            let idx = num / 8;
            let bit: u8 = (num % 8) as u8;
            let b = self.icu.ier[idx];
            self.icu.ier.set(idx, b & !(1u8 << bit));
            proof {
                lemma_clear_bit8(b, bit, bit);
                assert forall|m: int| 0 <= m < 256 && m != num implies self.icu.line_enabled(m)
                    == old(self).icu.line_enabled(m) by {
                    if m / 8 == idx {
                        lemma_clear_bit8(b, bit, (m % 8) as u8);
                    }
                }
            }
            Ok(())
        }
    }

    /// Pends an interrupt line from software. Only the dedicated software
    /// interrupt line can be pended, through the `SWINTR` register; every
    /// other line fails with `BadParam`.
    pub fn pend_interrupt_line(&mut self, num: usize) -> (r: Result<(), PendInterruptLineError>)
        requires
            old(self).wf(),
        ensures
            final(self).wf(),
            r is Ok <==> num == INT_SWINT,
            r is Err ==> r == Err::<(), PendInterruptLineError>(PendInterruptLineError::BadParam)
                && *final(self) == *old(self),
            r is Ok ==> final(self).icu.swintr && final(self).icu.ir@ == old(self).icu.ir@ && final(self).icu.ier@ == old(self).icu.ier@ && final(self).icu.ipr@ == old(self).icu.ipr@
                && same_but_icu(*final(self), *old(self)),
    {
        if num == INT_SWINT {
            self.icu.swintr = true;
            Ok(())
        } else {
            Err(PendInterruptLineError::BadParam)
        }
    }

    /// Clears the pending request of interrupt line `num`: `IR[num]` is
    /// written to zero. Fails with `BadParam` exactly when the number is out
    /// of range.
    pub fn clear_interrupt_line(&mut self, num: usize) -> (r: Result<(), ClearInterruptLineError>)
        requires
            old(self).wf(),
        ensures
            final(self).wf(),
            r is Ok <==> interrupt_num_valid(num),
            r is Err ==> r == Err::<(), ClearInterruptLineError>(ClearInterruptLineError::BadParam)
                && *final(self) == *old(self),
            r is Ok ==> final(self).icu.ir@ == old(self).icu.ir@.update(num as int, 0u8) && !final(self).icu.line_pending(num as int) && final(self).icu.ier@ == old(self).icu.ier@ && final(self).icu.ipr@ == old(self).icu.ipr@ && final(self).icu.swintr == old(self).icu.swintr
                && same_but_icu(*final(self), *old(self)),
    {
        if !(16 <= num && num < 256) {
            Err(ClearInterruptLineError::BadParam)
        } else {
            self.icu.ir.set(num, 0);
            Ok(())
        }
    }

    /// Queries whether interrupt line `num` has a pending request: the low
    /// bit of `IR[num]`. Fails with `BadParam` exactly when the number is
    /// out of range.
    pub fn is_interrupt_line_pending(&self, num: usize) -> (r: Result<
        bool,
        QueryInterruptLineError,
    >)
        requires
            self.wf(),
        ensures
            r is Ok <==> interrupt_num_valid(num),
            r is Err ==> r == Err::<bool, QueryInterruptLineError>(QueryInterruptLineError::BadParam),
            r is Ok ==> r == Ok::<bool, QueryInterruptLineError>(self.icu.line_pending(num as int)),
    {
        if !(16 <= num && num < 256) {
            Err(QueryInterruptLineError::BadParam)
        } else {
            Ok(self.icu.ir[num] == 1)
        }
    }

    /// Sets the priority of an interrupt group: `IPR[num]` is written. The
    /// port calls this only from boot or task context, so the only failure
    /// is `BadParam`, exactly when the group number or the priority is out
    /// of range.
    pub fn set_interrupt_group_priority(&mut self, num: usize, priority: i16) -> (r: Result<
        (),
        SetInterruptGroupPriorityError,
    >)
        requires
            old(self).wf(),
        ensures
            final(self).wf(),
            r is Ok <==> num < 256 && interrupt_priority_valid(priority),
            r is Err ==> r == Err::<(), SetInterruptGroupPriorityError>(
                SetInterruptGroupPriorityError::BadParam,
            ) && *final(self) == *old(self),
            r is Ok ==> final(self).icu.ipr@ == old(self).icu.ipr@.update(
                num as int,
                priority as u8,
            ) && final(self).icu.ir@ == old(self).icu.ir@ && final(self).icu.ier@ == old(self).icu.ier@ && final(self).icu.swintr == old(self).icu.swintr && same_but_icu(
                *final(self),
                *old(self),
            ),
    {
        if !(0 <= priority && priority < 16) || !(num < 256) {
            Err(SetInterruptGroupPriorityError::BadParam)
        } else {
            self.icu.ipr.set(num, priority as u8);
            Ok(())
        }
    }
}

/// The two states agree on every field of the port state outside the ICU.
pub open spec fn same_but_icu(a: State, b: State) -> bool {
    &&& a.psw == b.psw
    &&& a.intb == b.intb
    &&& a.running_task_ptr == b.running_task_ptr
    &&& a.dispatch_pending == b.dispatch_pending
}

/// Clearing a line and then querying it reports "not pending", provided no
/// new request arrived in between.
pub proof fn lemma_clear_then_query_not_pending(s1: State, s2: State, num: usize)
    requires
        s1.wf(),
        interrupt_num_valid(num),
        s2.icu.ir@ == s1.icu.ir@.update(num as int, 0u8),
    ensures
        !s2.icu.line_pending(num as int),
{
}

} // verus!
