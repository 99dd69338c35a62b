//! Interrupt vector table construction.
//!
//! The table has 256 slots. A slot whose interrupt number has a declared
//! handler points at a stage-1 trampoline specialized for that number — an
//! aligned stub that branches to the shared stage-2 routine with the
//! specialized second-level handler's address planted after the branch; any
//! other slot points at the unhandled-interrupt stub, which halts. Handlers
//! are code pointers; the model carries them as their addresses.

use vstd::prelude::*;

verus! {

/// One slot of the interrupt vector table.
#[derive(Clone, Copy, Debug, PartialEq, Eq, Structural)]
pub enum IvtSlot {
    /// A stage-1 trampoline specialized for this slot's interrupt number;
    /// `handler` is the second-level handler it ultimately dispatches to.
    Trampoline { handler: u32 },
    /// The unhandled-interrupt stub, which halts.
    Unhandled,
}

/// The slot that the table generator produces for interrupt number `i`,
/// given the kernel-declared handler table `h` (which may be shorter than
/// the full 256 entries).
pub open spec fn slot_for(h: Seq<Option<u32>>, i: int) -> IvtSlot {
    if 0 <= i < h.len() && h[i] is Some {
        IvtSlot::Trampoline { handler: h[i]->0 }
    } else {
        IvtSlot::Unhandled
    }
}

/// Builds the 256-slot interrupt vector table from the kernel-declared
/// handler table: a specialized trampoline wherever a handler is declared,
/// the unhandled-interrupt stub everywhere else.
pub fn new_table(handlers: &Vec<Option<u32>>) -> (t: Vec<IvtSlot>)
    ensures
        t@.len() == 256,
        forall|i: int| 0 <= i < 256 ==> t@[i] == slot_for(handlers@, i),
{
    let mut t: Vec<IvtSlot> = Vec::new();
    let mut i: usize = 0;
    while i < 256
        invariant
            i <= 256,
            t@.len() == i,
            forall|j: int| 0 <= j < i ==> t@[j] == slot_for(handlers@, j),
        decreases 256 - i,
    {
        if i < handlers.len() {
            match handlers[i] {
                Some(handler) => t.push(IvtSlot::Trampoline { handler }),
                None => t.push(IvtSlot::Unhandled),
            }
        } else {
            t.push(IvtSlot::Unhandled);
        }
        i = i + 1;
    }
    t
}

/// The declared handlers of `h`, in interrupt-number order and nothing
/// else: the sequence the table generator keeps alive for the linker.
pub open spec fn declared_handlers(h: Seq<Option<u32>>) -> Seq<u32>
    decreases h.len(),
{
    if h.len() == 0 {
        Seq::empty()
    } else {
        declared_handlers(h.drop_last()) + (if h.last() is Some {
            seq![h.last()->0]
        } else {
            Seq::empty()
        })
    }
}

/// Collects the second-level handlers of every declared slot, in
/// interrupt-number order.
pub fn keep_handlers(handlers: &Vec<Option<u32>>) -> (fns: Vec<u32>)
    ensures
        fns@ == declared_handlers(handlers@),
{
    let mut fns: Vec<u32> = Vec::new();
    let mut i: usize = 0;
    while i < handlers.len()
        invariant
            i <= handlers@.len(),
            fns@ == declared_handlers(handlers@.subrange(0, i as int)),
        decreases handlers@.len() - i,
    {
        proof {
            let pre = handlers@.subrange(0, i as int);
            let post = handlers@.subrange(0, i + 1);
            assert(post.drop_last() =~= pre);
            assert(post.last() == handlers@[i as int]);
        }
        match handlers[i] {
            Some(handler) => fns.push(handler),
            None => (),
        }
        i = i + 1;
    }
    proof {
        assert(handlers@.subrange(0, handlers@.len() as int) =~= handlers@);
    }
    fns
}

/// The interrupt vector table contains exactly the handlers the kernel
/// declared: every declared slot resolves to the trampoline for its own
/// handler, and every other slot resolves to the unhandled-interrupt stub.
pub proof fn lemma_ivt_exact(h: Seq<Option<u32>>, t: Seq<IvtSlot>)
    requires
        t.len() == 256,
        forall|i: int| 0 <= i < 256 ==> t[i] == slot_for(h, i),
    ensures
        forall|i: int|
            0 <= i < 256 && i < h.len() && h[i] is Some ==> t[i] == (IvtSlot::Trampoline {
                handler: h[i]->0,
            }),
        forall|i: int|
            0 <= i < 256 && !(i < h.len() && h[i] is Some) ==> t[i] == IvtSlot::Unhandled,
{
}

} // verus!
