//! Task stacks and saved execution state.
//!
//! A suspended task's state lives on its own stack as two frames: the
//! first-level state that every trap entry and exit saves and restores, and
//! the second-level state saved only across a dispatch. A task stack is
//! modelled as the words of its region together with the stack pointer, an
//! index that moves down on push; the frames are laid out exactly as the
//! trap-entry sequence stacks them, so that a normal context restore of a
//! freshly initialized task starts its entry point.

use vstd::prelude::*;

use crate::threading::{TASK_DEFAULT_FPSW, TASK_DEFAULT_PSW};

verus! {

/// The number of words in one level of saved state.
pub const STATE_WORDS: usize = 10;

/// The number of words `initialize_task_state` writes: the entry-call return
/// target plus the two ten-word state levels.
pub const INITIAL_FRAME_WORDS: usize = 21;

/// A task's stack region: the words of the region (ascending addresses) and
/// the stack pointer as an index into them. The area at `words[sp..]` is in
/// use; a push moves `sp` down.
pub struct TaskStack {
    /// The words of the stack region, from the lowest address up.
    pub words: Vec<u32>,
    /// The stack pointer: the index of the current top-of-stack word.
    pub sp: usize,
}

impl TaskStack {
    /// Well-formedness: the stack pointer lies within the region.
    pub open spec fn wf(&self) -> bool {
        self.sp <= self.words@.len()
    }

    /// A fresh stack of `len` words, all zero, with the stack pointer at the
    /// top of the region.
    pub fn new(len: usize) -> (r: TaskStack)
        ensures
            r.wf(),
            r.words@.len() == len,
            r.sp == len,
            forall|i: int| 0 <= i < len ==> r.words@[i] == 0,
    {
        let mut words: Vec<u32> = Vec::new();
        let mut k: usize = 0;
        while k < len
            invariant
                k <= len,
                words@.len() == k,
                forall|i: int| 0 <= i < k ==> words@[i] == 0,
            decreases len - k,
        {
            words.push(0);
            k = k + 1;
        }
        TaskStack { words, sp: len }
    }

    /// Pushes one word: the stack pointer moves down and the word is stored
    /// at the new top.
    pub fn push_word(&mut self, v: u32)
        requires
            old(self).wf(),
            old(self).sp >= 1,
        ensures
            final(self).wf(),
            final(self).sp == old(self).sp - 1,
            final(self).words@ == old(self).words@.update(old(self).sp - 1, v),
    {
        self.sp = self.sp - 1;
        self.words.set(self.sp, v);
    }

    /// Pops one word: the word at the top is read and the stack pointer
    /// moves up.
    pub fn pop_word(&mut self) -> (v: u32)
        requires
            old(self).wf(),
            old(self).sp < old(self).words@.len(),
        ensures
            final(self).wf(),
            final(self).sp == old(self).sp + 1,
            final(self).words@ == old(self).words@,
            v == old(self).words@[old(self).sp as int],
    {
        let n = self.words.len();
        assert(self.sp < n);
        let v = self.words[self.sp];
        self.sp = self.sp + 1;
        v
    }
}

/// The per-task port data: the saved stack pointer, written when the task
/// suspends and read when it resumes. The idle task has no stack; the
/// dispatcher represents it by the zero sentinel in the machine's stack
/// pointer register, never by a `TaskState`.
pub struct TaskState {
    /// The saved stack pointer: an index into the task's stack region.
    pub sp: usize,
}

impl TaskState {
    /// The load-time value: zero, like every word of uninitialized state.
    pub fn new() -> (r: TaskState)
        ensures
            r.sp == 0,
    {
        TaskState { sp: 0 }
    }
}

/// The first-level state: the ten words saved by every trap entry and
/// restored by every return from exception, in stack order from the lowest
/// address up: FPSW, r1, r2–r5, r14, r15, PC, PSW.
#[derive(Clone, Copy, Debug, PartialEq, Eq, Structural)]
pub struct FirstLevelState {
    /// Floating-point status word.
    pub fpsw: u32,
    /// `r1` — carries the entry parameter of a fresh task.
    pub r1: u32,
    /// `r2`.
    pub r2: u32,
    /// `r3`.
    pub r3: u32,
    /// `r4`.
    pub r4: u32,
    /// `r5`.
    pub r5: u32,
    /// `r14`.
    pub r14: u32,
    /// `r15`.
    pub r15: u32,
    /// The program counter to resume at.
    pub pc: u32,
    /// The processor status word to resume with.
    pub psw: u32,
}

/// The ten words of a first-level frame in ascending address order.
pub open spec fn fls_words(f: FirstLevelState) -> Seq<u32> {
    seq![f.fpsw, f.r1, f.r2, f.r3, f.r4, f.r5, f.r14, f.r15, f.pc, f.psw]
}

/// The second-level state: the ten words saved only across a dispatch, in
/// stack order from the lowest address up: accumulator low and high, then
/// r6–r13.
#[derive(Clone, Copy, Debug, PartialEq, Eq, Structural)]
pub struct SecondLevelState {
    /// Accumulator, low half.
    pub acclo: u32,
    /// Accumulator, high half.
    pub acchi: u32,
    /// `r6`.
    pub r6: u32,
    /// `r7`.
    pub r7: u32,
    /// `r8`.
    pub r8: u32,
    /// `r9`.
    pub r9: u32,
    /// `r10`.
    pub r10: u32,
    /// `r11`.
    pub r11: u32,
    /// `r12`.
    pub r12: u32,
    /// `r13`.
    pub r13: u32,
}

/// The ten words of a second-level frame in ascending address order.
pub open spec fn sls_words(s: SecondLevelState) -> Seq<u32> {
    seq![s.acclo, s.acchi, s.r6, s.r7, s.r8, s.r9, s.r10, s.r11, s.r12, s.r13]
}

/// Pushes a first-level frame: the ten words land at the new top of the
/// stack in ascending address order, and nothing outside them changes.
pub fn push_first_level(stack: &mut TaskStack, f: &FirstLevelState)
    requires
        old(stack).wf(),
        old(stack).sp >= STATE_WORDS,
    ensures
        final(stack).wf(),
        final(stack).sp == old(stack).sp - 10,
        final(stack).words@.len() == old(stack).words@.len(),
        forall|i: int|
            0 <= i < 10 ==> final(stack).words@[final(stack).sp + i] == fls_words(*f)[i],
        forall|i: int|
            0 <= i < old(stack).words@.len() && !(final(stack).sp <= i < old(stack).sp)
                ==> final(stack).words@[i] == old(stack).words@[i],
{
    stack.push_word(f.psw);
    stack.push_word(f.pc);
    stack.push_word(f.r15);
    stack.push_word(f.r14);
    stack.push_word(f.r5);
    stack.push_word(f.r4);
    stack.push_word(f.r3);
    stack.push_word(f.r2);
    stack.push_word(f.r1);
    stack.push_word(f.fpsw);
}

/// Pops a first-level frame: the ten words at the top of the stack are read
/// back into a `FirstLevelState` and the stack pointer moves past them.
pub fn pop_first_level(stack: &mut TaskStack) -> (f: FirstLevelState)
    requires
        old(stack).wf(),
        old(stack).sp + STATE_WORDS <= old(stack).words@.len(),
    ensures
        final(stack).wf(),
        final(stack).sp == old(stack).sp + 10,
        final(stack).words@ == old(stack).words@,
        fls_words(f) == old(stack).words@.subrange(old(stack).sp as int, old(stack).sp + 10),
        f == restored_fls(old(stack).words@, old(stack).sp as int),
{
    let fpsw = stack.pop_word();
    let r1 = stack.pop_word();
    let r2 = stack.pop_word();
    let r3 = stack.pop_word();
    let r4 = stack.pop_word();
    let r5 = stack.pop_word();
    let r14 = stack.pop_word();
    let r15 = stack.pop_word();
    let pc = stack.pop_word();
    let psw = stack.pop_word();
    let f = FirstLevelState { fpsw, r1, r2, r3, r4, r5, r14, r15, pc, psw };
    proof {
        assert(fls_words(f) =~= old(stack).words@.subrange(
            old(stack).sp as int,
            old(stack).sp + 10,
        ));
    }
    f
}

/// Pushes a second-level frame: the ten words land at the new top of the
/// stack in ascending address order, and nothing outside them changes.
pub fn push_second_level(stack: &mut TaskStack, s: &SecondLevelState)
    requires
        old(stack).wf(),
        old(stack).sp >= STATE_WORDS,
    ensures
        final(stack).wf(),
        final(stack).sp == old(stack).sp - 10,
        final(stack).words@.len() == old(stack).words@.len(),
        forall|i: int|
            0 <= i < 10 ==> final(stack).words@[final(stack).sp + i] == sls_words(*s)[i],
        forall|i: int|
            0 <= i < old(stack).words@.len() && !(final(stack).sp <= i < old(stack).sp)
                ==> final(stack).words@[i] == old(stack).words@[i],
{
    stack.push_word(s.r13);
    stack.push_word(s.r12);
    stack.push_word(s.r11);
    stack.push_word(s.r10);
    stack.push_word(s.r9);
    stack.push_word(s.r8);
    stack.push_word(s.r7);
    stack.push_word(s.r6);
    stack.push_word(s.acchi);
    stack.push_word(s.acclo);
}

/// Pops a second-level frame: the ten words at the top of the stack are read
/// back into a `SecondLevelState` and the stack pointer moves past them.
pub fn pop_second_level(stack: &mut TaskStack) -> (s: SecondLevelState)
    requires
        old(stack).wf(),
        old(stack).sp + STATE_WORDS <= old(stack).words@.len(),
    ensures
        final(stack).wf(),
        final(stack).sp == old(stack).sp + 10,
        final(stack).words@ == old(stack).words@,
        sls_words(s) == old(stack).words@.subrange(old(stack).sp as int, old(stack).sp + 10),
{
    let acclo = stack.pop_word();
    let acchi = stack.pop_word();
    let r6 = stack.pop_word();
    let r7 = stack.pop_word();
    let r8 = stack.pop_word();
    let r9 = stack.pop_word();
    let r10 = stack.pop_word();
    let r11 = stack.pop_word();
    let r12 = stack.pop_word();
    let r13 = stack.pop_word();
    let s = SecondLevelState { acclo, acchi, r6, r7, r8, r9, r10, r11, r12, r13 };
    proof {
        assert(sls_words(s) =~= old(stack).words@.subrange(
            old(stack).sp as int,
            old(stack).sp + 10,
        ));
    }
    s
}

/// Whether the words `w` hold, at frame base `b`, the synthetic two-level
/// frame of a fresh task: the entry-call return target above the frames, the
/// entry point in the PC slot, the entry parameter in the r1 slot, a zero
/// FPSW, and the interrupts-on, user-stack PSW.
pub open spec fn frame_installed(
    w: Seq<u32>,
    b: int,
    entry_point: u32,
    entry_param: u32,
    exit_return: u32,
) -> bool {
    &&& w[b + 10] == TASK_DEFAULT_FPSW
    &&& w[b + 11] == entry_param
    &&& w[b + 18] == entry_point
    &&& w[b + 19] == TASK_DEFAULT_PSW
    &&& w[b + 20] == exit_return
}

/// The first-level state that a context restore reads from the frame at
/// base `b` of the words `w` (the second-level frame occupies the first ten
/// words, the first-level frame the next ten).
pub open spec fn restored_fls(w: Seq<u32>, fl: int) -> FirstLevelState {
    FirstLevelState {
        fpsw: w[fl],
        r1: w[fl + 1],
        r2: w[fl + 2],
        r3: w[fl + 3],
        r4: w[fl + 4],
        r5: w[fl + 5],
        r14: w[fl + 6],
        r15: w[fl + 7],
        pc: w[fl + 8],
        psw: w[fl + 9],
    }
}

/// The restore order mirrors the save layout exactly: reading a first-level
/// frame back from any words that hold one yields the state that was saved,
/// word for word.
pub proof fn lemma_restore_mirrors_save(w: Seq<u32>, b: int, f: FirstLevelState)
    requires
        0 <= b,
        b + 10 <= w.len(),
        forall|i: int| 0 <= i < 10 ==> w[b + i] == fls_words(f)[i],
    ensures
        restored_fls(w, b) == f,
{
    assert(w[b + 0] == fls_words(f)[0]);
    assert(w[b + 1] == fls_words(f)[1]);
    assert(w[b + 2] == fls_words(f)[2]);
    assert(w[b + 3] == fls_words(f)[3]);
    assert(w[b + 4] == fls_words(f)[4]);
    assert(w[b + 5] == fls_words(f)[5]);
    assert(w[b + 6] == fls_words(f)[6]);
    assert(w[b + 7] == fls_words(f)[7]);
    assert(w[b + 8] == fls_words(f)[8]);
    assert(w[b + 9] == fls_words(f)[9]);
}

/// Places a synthetic two-level frame at the top of the supplied task stack
/// such that a normal context restore starts the task fresh: the return
/// target of the entry-point call is the exit routine, the first-level frame
/// carries a zero FPSW, the entry parameter in r1, the entry point as PC and
/// the interrupts-on, user-stack PSW, and the second-level frame lies below
/// it. With `preload_registers` every other register slot is filled with an
/// identifiable debug pattern; otherwise those slots keep whatever the
/// region held. The resulting stack pointer is stored into the task's saved
/// stack pointer.
pub fn initialize_task_state(
    task: &mut TaskState,
    stack: &mut TaskStack,
    entry_point: u32,
    entry_param: u32,
    exit_return: u32,
    preload_registers: bool,
)
    requires
        old(stack).wf(),
        old(stack).sp >= INITIAL_FRAME_WORDS,
    ensures
        final(stack).wf(),
        final(stack).words@.len() == old(stack).words@.len(),
        final(stack).sp == old(stack).sp - 21,
        final(task).sp == old(stack).sp - 21,
        frame_installed(
            final(stack).words@,
            final(task).sp as int,
            entry_point,
            entry_param,
            exit_return,
        ),
        forall|i: int|
            0 <= i < old(stack).words@.len() && !(old(stack).sp - 21 <= i < old(stack).sp)
                ==> final(stack).words@[i] == old(stack).words@[i],
        !preload_registers ==> forall|i: int|
            old(stack).sp - 21 <= i < old(stack).sp && !frame_slot_written(i - (old(stack).sp - 21))
                ==> final(stack).words@[i] == old(stack).words@[i],
{
    // The return target of the entry point call
    stack.push_word(exit_return);

    // First-level state (always saved and restored as part of the exception
    // entry/return sequence)
    // PSW
    stack.push_word(TASK_DEFAULT_PSW);
    // PC: the entry point
    stack.push_word(entry_point);
    // R14-R15, R2-R5: uninitialized unless preloading debug patterns
    if preload_registers {
        stack.push_word(0x15151515);
        stack.push_word(0x14141414);
        stack.push_word(0x05050505);
        stack.push_word(0x04040404);
        stack.push_word(0x03030303);
        stack.push_word(0x02020202);
    } else {
        stack.sp = stack.sp - 6;
    }
    // R1: parameter to the entry point
    stack.push_word(entry_param);
    // FPSW
    stack.push_word(TASK_DEFAULT_FPSW);

    // Second-level state (saved and restored only across a dispatch)
    // A0, R6-R13: uninitialized unless preloading debug patterns
    if preload_registers {
        stack.push_word(0x13131313);
        stack.push_word(0x12121212);
        stack.push_word(0x11111111);
        stack.push_word(0x10101010);
        stack.push_word(0x09090909);
        stack.push_word(0x08080808);
        stack.push_word(0x07070707);
        stack.push_word(0x06060606);
        stack.push_word(0xa1a1a1a1);
        stack.push_word(0xa0a0a0a0);
    } else {
        stack.sp = stack.sp - 10;
    }

    task.sp = stack.sp;
}

/// Which offsets of the 21-word initial frame are written even without
/// register preloading: the second-level frame and the uninitialized
/// registers of the first-level frame are skipped.
pub open spec fn frame_slot_written(off: int) -> bool {
    off == 10 || off == 11 || off == 18 || off == 19 || off == 20
}

/// After `initialize_task_state` and a first dispatch of the task, the
/// restored first-level state starts the entry point with interrupts
/// enabled and the user stack selected (`PSW.I = 1`, `PSW.U = 1`), carries
/// the entry parameter in r1, and leaves the exit routine's address as the
/// return target on top of the remaining stack.
pub proof fn lemma_first_dispatch_runs_entry(
    w: Seq<u32>,
    b: int,
    entry_point: u32,
    entry_param: u32,
    exit_return: u32,
)
    requires
        0 <= b,
        b + 21 <= w.len(),
        frame_installed(w, b, entry_point, entry_param, exit_return),
    ensures
        restored_fls(w, b + 10).pc == entry_point,
        restored_fls(w, b + 10).psw == TASK_DEFAULT_PSW,
        restored_fls(w, b + 10).psw & 0x10000 != 0,
        restored_fls(w, b + 10).psw & 0x20000 != 0,
        restored_fls(w, b + 10).r1 == entry_param,
        restored_fls(w, b + 10).fpsw == TASK_DEFAULT_FPSW,
        w[b + 20] == exit_return,
{
    assert(0x30000u32 & 0x10000 != 0) by (bit_vector);
    assert(0x30000u32 & 0x20000 != 0) by (bit_vector);
}

} // verus!
