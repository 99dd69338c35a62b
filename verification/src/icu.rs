//! Model of the Interrupt Control Unit (ICUa) register block that the
//! threading port drives.
//!
//! The unit is modelled at the register level: one interrupt-request byte and
//! one priority byte per interrupt number, one enable byte per group of eight
//! lines, and the software-interrupt activation register. The port's
//! interrupt-line operations are verified against this model; the thin layer
//! that performs the actual memory-mapped accesses lives outside the library.

use vstd::prelude::*;

verus! {

/// The valid interrupt numbers: `16..256`.
pub const FIRST_INTERRUPT_NUM: usize = 16;

/// One past the last valid interrupt number.
pub const INTERRUPT_NUM_END: usize = 256;

/// The valid interrupt group priority values: `0..16`.
pub const INTERRUPT_PRIORITY_END: i16 = 16;

/// The software interrupt line, the only line that can be pended by software
/// (through the `SWINTR` register).
pub const INT_SWINT: usize = 27;

/// Whether `num` lies in the valid interrupt number range `16..256`.
pub open spec fn interrupt_num_valid(num: usize) -> bool {
    FIRST_INTERRUPT_NUM <= num < INTERRUPT_NUM_END
}

/// Whether `priority` lies in the valid interrupt priority range `0..16`.
pub open spec fn interrupt_priority_valid(priority: i16) -> bool {
    0 <= priority < INTERRUPT_PRIORITY_END
}

/// Bit `i` of the byte `b`, with `i < 8`.
pub open spec fn bit8(b: u8, i: u8) -> bool {
    (b >> i) & 1 == 1
}

/// The state of the ICU registers that the port reads and writes.
pub struct IcuState {
    /// Interrupt request registers `IR[0..256]`; only the low bit is
    /// significant, and it reads back as `0` or `1`.
    pub ir: Vec<u8>,
    /// Interrupt request enable registers `IER[0..32]`; bit `n % 8` of
    /// `IER[n / 8]` enables line `n`.
    pub ier: Vec<u8>,
    /// Interrupt source priority registers `IPR[0..256]`; the low nibble
    /// holds the priority.
    pub ipr: Vec<u8>,
    /// Software interrupt activation register (`SWINTR.SWINT`).
    pub swintr: bool,
}

impl IcuState {
    /// Well-formedness: the register files have their architectural sizes and
    /// every request register holds `0` or `1`.
    pub open spec fn wf(&self) -> bool {
        &&& self.ir@.len() == 256
        &&& self.ier@.len() == 32
        &&& self.ipr@.len() == 256
        &&& forall|i: int| 0 <= i < 256 ==> self.ir@[i] <= 1
    }

    /// Whether line `num` is enabled in the `IER` bit array.
    pub open spec fn line_enabled(&self, num: int) -> bool {
        bit8(self.ier@[num / 8], (num % 8) as u8)
    }

    /// Whether line `num` has a pending request.
    pub open spec fn line_pending(&self, num: int) -> bool {
        self.ir@[num] == 1
    }

    /// The priority programmed for line `num`.
    pub open spec fn line_priority(&self, num: int) -> u8 {
        self.ipr@[num]
    }

    /// A zeroed register block: nothing pending, nothing enabled, all
    /// priorities zero, no software interrupt requested.
    pub fn new() -> (r: IcuState)
        ensures
            r.wf(),
            forall|n: int| 0 <= n < 256 ==> !r.line_pending(n),
            forall|n: int| 0 <= n < 256 ==> !r.line_enabled(n),
            forall|n: int| 0 <= n < 256 ==> r.line_priority(n) == 0,
            !r.swintr,
    {
        let ir = zero_bytes(256);
        let ier = zero_bytes(32);
        let ipr = zero_bytes(256);
        let r = IcuState { ir, ier, ipr, swintr: false };
        proof {
            assert forall|n: int| 0 <= n < 256 implies !r.line_enabled(n) by {
                assert(0 <= n / 8 < 32);
                let k: u8 = (n % 8) as u8;
                assert(!bit8(0u8, k)) by (bit_vector);
            }
        }
        r
    }

    /// Models the hardware asserting interrupt line `num`: the peripheral
    /// sets the request flag. This is an environment action, not an operation
    /// of the port.
    pub fn raise_line(&mut self, num: usize)
        requires
            old(self).wf(),
            num < 256,
        ensures
            final(self).wf(),
            final(self).ir@ == old(self).ir@.update(num as int, 1u8),
            final(self).ier@ == old(self).ier@,
            final(self).ipr@ == old(self).ipr@,
            final(self).swintr == old(self).swintr,
    {
        self.ir.set(num, 1);
    }
}

/// A vector of `n` zero bytes.
fn zero_bytes(n: usize) -> (r: Vec<u8>)
    ensures
        r@.len() == n,
        forall|i: int| 0 <= i < n ==> r@[i] == 0,
{
    let mut v: Vec<u8> = Vec::new();
    let mut k: usize = 0;
    while k < n
        invariant
            k <= n,
            v@.len() == k,
            forall|i: int| 0 <= i < k ==> v@[i] == 0,
        decreases n - k,
    {
        v.push(0);
        k = k + 1;
    }
    v
}

/// Setting bit `bit` of a byte leaves every other bit alone and makes that
/// bit read back as one.
pub proof fn lemma_set_bit8(b: u8, bit: u8, k: u8)
    by (bit_vector)
    requires
        bit < 8,
        k < 8,
    ensures
        bit8(b | (1u8 << bit), bit),
        k != bit ==> bit8(b | (1u8 << bit), k) == bit8(b, k),
{
}

/// Clearing bit `bit` of a byte leaves every other bit alone and makes that
/// bit read back as zero.
pub proof fn lemma_clear_bit8(b: u8, bit: u8, k: u8)
    by (bit_vector)
    requires
        bit < 8,
        k < 8,
    ensures
        !bit8(b & !(1u8 << bit), bit),
        k != bit ==> bit8(b & !(1u8 << bit), k) == bit8(b, k),
{
}

/// Error returned by `set_interrupt_line_priority`.
#[derive(Clone, Copy, Debug, PartialEq, Eq, Structural)]
pub enum SetInterruptLinePriorityError {
    /// The interrupt number or the priority value is out of range.
    BadParam,
}

/// Error returned by `enable_interrupt_line` and `disable_interrupt_line`.
#[derive(Clone, Copy, Debug, PartialEq, Eq, Structural)]
pub enum EnableInterruptLineError {
    /// The interrupt number is out of range.
    BadParam,
}

/// Error returned by `pend_interrupt_line`.
#[derive(Clone, Copy, Debug, PartialEq, Eq, Structural)]
pub enum PendInterruptLineError {
    /// The line is not pendable by software.
    BadParam,
}

/// Error returned by `clear_interrupt_line`.
#[derive(Clone, Copy, Debug, PartialEq, Eq, Structural)]
pub enum ClearInterruptLineError {
    /// The interrupt number is out of range.
    BadParam,
}

/// Error returned by `is_interrupt_line_pending`.
#[derive(Clone, Copy, Debug, PartialEq, Eq, Structural)]
pub enum QueryInterruptLineError {
    /// The interrupt number is out of range.
    BadParam,
}

/// Error returned by `set_interrupt_group_priority`.
#[derive(Clone, Copy, Debug, PartialEq, Eq, Structural)]
pub enum SetInterruptGroupPriorityError {
    /// The current context is not a task or boot context. With fixed
    /// interrupt priorities the interrupt handling sequence can restore `IPL`
    /// from the exception frame, so mutation is allowed only outside
    /// interrupt handling.
    BadContext,
    /// The specified interrupt group number or priority value is out of
    /// range.
    BadParam,
}

} // verus!
