//! The tickless timer driver based on the Compare Match Timer (CMT).
//!
//! Two 16-bit channels are composed into a virtual 32-bit monotonic clock:
//! channel 1 runs free with period 2¹⁶ while channel 0 is reprogrammed on
//! demand to fire the next tick interrupt. The driver state and the CMT
//! register block are explicit models here; the arithmetic that composes the
//! counter and programs the compare values is verified against them. The
//! kernel's tickless helper, which converts hardware ticks to kernel time
//! units, is an external collaborator: its answers enter these functions as
//! arguments.

use vstd::prelude::*;

use crate::arith::min128;
use crate::icu::{interrupt_num_valid, IcuState};

verus! {

/// The largest tick count value the timer reports.
pub const MAX_TICK_COUNT: u32 = 0xFFFF_FFFF;

/// The largest timeout value the timer accepts.
pub const MAX_TIMEOUT: u32 = 0xFFFF_FFFF;

/// How far channel 1 has advanced past the last committed snapshot `h`,
/// given its current 16-bit count `c`: the distance from `h`'s low half to
/// `c`, modulo 2¹⁶. Correct only while the hardware has advanced by fewer
/// than 2¹⁶ cycles since the snapshot.
pub open spec fn elapsed16(h: u32, c: u16) -> int {
    if c >= h % 0x10000 {
        c - h % 0x10000
    } else {
        c + 0x10000 - h % 0x10000
    }
}

/// The current value of the virtual 32-bit counter: the snapshot `h` plus
/// the elapsed distance, wrapping at 2³².
pub open spec fn now32(h: u32, c: u16) -> u32 {
    if h + elapsed16(h, c) > u32::MAX {
        (h + elapsed16(h, c) - 0x1_0000_0000) as u32
    } else {
        (h + elapsed16(h, c)) as u32
    }
}

/// The low 16 bits of the virtual counter always agree with the channel-1
/// count it was computed from.
pub proof fn lemma_now32_low16(h: u32, c: u16)
    ensures
        now32(h, c) % 0x10000 == c,
{
    assert(now32(h, c) % 0x10000 == c) by (bit_vector);
}

/// Recomputing the virtual counter from an already committed snapshot with
/// the same channel-1 count changes nothing: committing is idempotent.
pub proof fn lemma_now32_idempotent(h: u32, c: u16)
    ensures
        now32(now32(h, c), c) == now32(h, c),
{
    lemma_now32_low16(h, c);
}

/// While the virtual counter does not wrap past 2³², it advances by exactly
/// the elapsed distance, and so never moves backwards.
pub proof fn lemma_now32_advances(h: u32, c: u16)
    requires
        h + elapsed16(h, c) <= u32::MAX,
    ensures
        now32(h, c) >= h,
        now32(h, c) - h == elapsed16(h, c),
{
}

/// Monotonicity of `tick_count`: two reads from the same committed snapshot,
/// the second after the hardware has advanced further (but the counter has
/// not wrapped past 2³²), never go backwards.
pub proof fn lemma_tick_count_monotonic(h: u32, c1: u16, c2: u16)
    requires
        elapsed16(h, c1) <= elapsed16(h, c2),
        h + elapsed16(h, c2) <= u32::MAX,
    ensures
        now32(h, c1) <= now32(h, c2),
{
}

/// Monotonicity of `tick_count` across a commit: when the handler or the
/// scheduler commits the virtual counter and a later read finds the
/// hardware advanced further still, the later read is at least the earlier
/// one (as long as the counter has not wrapped past 2³²).
pub proof fn lemma_tick_count_monotonic_across_commit(h: u32, c1: u16, c2: u16)
    requires
        elapsed16(h, c1) <= elapsed16(h, c2),
        h + elapsed16(h, c1) + elapsed16(now32(h, c1), c2) <= u32::MAX,
    ensures
        now32(h, c1) <= now32(now32(h, c1), c2),
        now32(h, c1) <= now32(h, c2),
{
    lemma_now32_advances(h, c1);
    lemma_now32_advances(now32(h, c1), c2);
    lemma_tick_count_monotonic(h, c1, c2);
}

/// The distance the committed snapshot moves in one update, measured with
/// wrapping subtraction, is exactly the elapsed distance.
pub proof fn lemma_now32_minus_base(h: u32, c: u16)
    ensures
        vstd::wrapping::u32_specs::wrapping_sub(now32(h, c), h) == elapsed16(h, c),
{
}

/// The compile-time configuration of the CMT timer driver.
pub struct CmtOptions {
    /// The base address of the CMT register block.
    pub cmt_base: u32,
    /// The numerator of the effective input clock rate (usually PCLK).
    pub frequency: u64,
    /// The denominator of the effective input clock rate.
    pub frequency_denominator: u64,
    /// The predivider ratio (`CMCR.CKS`); one of 8, 32, 128, 512.
    pub predivider: u64,
    /// The maximum permissible timer interrupt latency in hardware cycles.
    pub headroom: u16,
    /// The interrupt number of the first channel of the CMT instance.
    pub interrupt_num: usize,
    /// The IPR register index used to program the line's group priority.
    pub ipr_index: Option<usize>,
    /// The interrupt priority for the timer line.
    pub interrupt_priority: i16,
}

/// The default headroom: ten milliseconds of timer clock, but never more
/// than half the 16-bit wrap interval.
pub open spec fn default_headroom(frequency: u64, denominator: u64, predivider: u64) -> int {
    if frequency as int / denominator as int / predivider as int / 100 < 0x8000 {
        frequency as int / denominator as int / predivider as int / 100
    } else {
        0x8000
    }
}

impl CmtOptions {
    /// Well-formedness: a supported predivider, a nonzero clock denominator
    /// that the divider product does not overflow, and a valid interrupt
    /// number.
    pub open spec fn wf(&self) -> bool {
        &&& (self.predivider == 8 || self.predivider == 32 || self.predivider == 128
            || self.predivider == 512)
        &&& self.frequency_denominator >= 1
        &&& self.frequency_denominator * self.predivider <= u64::MAX
        &&& interrupt_num_valid(self.interrupt_num)
    }

    /// A configuration with the given clock and predivider and every other
    /// option at its default: CMT0/1 at the architectural address, interrupt
    /// number 28, group priority register 4, priority 4, and the default
    /// headroom.
    pub fn new(frequency: u64, predivider: u64) -> (r: CmtOptions)
        requires
            predivider == 8 || predivider == 32 || predivider == 128 || predivider == 512,
        ensures
            r.wf(),
            r.cmt_base == 0x0008_8000,
            r.frequency == frequency,
            r.frequency_denominator == 1,
            r.predivider == predivider,
            r.headroom == default_headroom(frequency, 1, predivider),
            r.interrupt_num == 28,
            r.ipr_index == Some(4usize),
            r.interrupt_priority == 4,
    {
        let cycles_per_10ms: u128 = frequency as u128 / 1 / predivider as u128 / 100;
        let headroom: u16 = min128(cycles_per_10ms, 0x8000) as u16;
        CmtOptions {
            cmt_base: 0x0008_8000,
            frequency,
            frequency_denominator: 1,
            predivider,
            headroom,
            interrupt_num: 28,
            ipr_index: Some(4),
            interrupt_priority: 4,
        }
    }
}

/// The `CMCR.CKS` encoding of a predivider ratio.
pub open spec fn cks_spec(predivider: u64) -> u8 {
    if predivider == 8 {
        0u8
    } else if predivider == 32 {
        1u8
    } else if predivider == 128 {
        2u8
    } else {
        3u8
    }
}

/// Computes the `CMCR.CKS` field value for a supported predivider ratio.
pub fn cks_for_predivider(predivider: u64) -> (r: u8)
    requires
        predivider == 8 || predivider == 32 || predivider == 128 || predivider == 512,
    ensures
        r == cks_spec(predivider),
{
    if predivider == 8 {
        0
    } else if predivider == 32 {
        1
    } else if predivider == 128 {
        2
    } else {
        3
    }
}

/// Packs the fields of a channel control register into the `CMCR` machine
/// word: `CKS` in bits 0–1 and `CMIE` in bit 6, every other bit zero.
pub fn encode_cmcr(cks: u8, cmie: bool) -> (w: u16)
    requires
        cks < 4,
    ensures
        w & 0b11 == cks,
        (w >> 6) & 1 == (if cmie { 1u16 } else { 0u16 }),
        w & !0b0100_0011 == 0,
{
    proof {
        lemma_cmcr_bits(cks);
    }
    if cmie {
        cks as u16 | (1u16 << 6)
    } else {
        cks as u16
    }
}

proof fn lemma_cmcr_bits(c: u8)
    by (bit_vector)
    requires
        c < 4,
    ensures
        (c as u16 | (1u16 << 6)) & 0b11 == c as u16,
        (c as u16) & 0b11 == c as u16,
        ((c as u16 | (1u16 << 6)) >> 6) & 1 == 1,
        ((c as u16) >> 6) & 1 == 0,
        (c as u16 | (1u16 << 6)) & !0b0100_0011 == 0,
        (c as u16) & !0b0100_0011 == 0,
        c as u16 == c,
{
}

/// Packs the two channel-start bits into the `CMSTR` machine word: `STR0`
/// in bit 0 and `STR1` in bit 1, every other bit zero.
pub fn encode_cmstr(str0: bool, str1: bool) -> (w: u16)
    ensures
        w & 1 == (if str0 { 1u16 } else { 0u16 }),
        (w >> 1) & 1 == (if str1 { 1u16 } else { 0u16 }),
        w & !0b11 == 0,
{
    proof {
        assert((0u16 & 1 == 0) && (1u16 & 1 == 1) && (2u16 & 1 == 0) && (3u16 & 1 == 1) && ((0u16
            >> 1) & 1 == 0) && ((1u16 >> 1) & 1 == 0) && ((2u16 >> 1) & 1 == 1) && ((3u16 >> 1) & 1
            == 1) && (0u16 & !0b11 == 0) && (1u16 & !0b11 == 0) && (2u16 & !0b11 == 0) && (3u16
            & !0b11 == 0)) by (bit_vector);
    }
    if str0 && str1 {
        3
    } else if str0 {
        1
    } else if str1 {
        2
    } else {
        0
    }
}

/// One channel of the Compare Match Timer.
#[derive(Clone, Copy, Debug, PartialEq, Eq, Structural)]
pub struct CmtChannel {
    /// `CMCR.CKS` — clock select (predivider encoding).
    pub cmcr_cks: u8,
    /// `CMCR.CMIE` — compare match interrupt enable.
    pub cmcr_cmie: bool,
    /// `CMCNT` — the free-running counter.
    pub cmcnt: u16,
    /// `CMCOR` — the compare constant.
    pub cmcor: u16,
}

/// The CMT register block: the start register and two channels.
#[derive(Clone, Copy, Debug, PartialEq, Eq, Structural)]
pub struct CmtState {
    /// `CMSTR.STR0` — channel 0 running.
    pub str0: bool,
    /// `CMSTR.STR1` — channel 1 running.
    pub str1: bool,
    /// Channel 0: the variable-interval tick source.
    pub ch0: CmtChannel,
    /// Channel 1: the free-running wrap source.
    pub ch1: CmtChannel,
}

impl CmtState {
    /// A reset register block: both channels stopped and zeroed.
    pub fn new() -> (r: CmtState)
        ensures
            !r.str0,
            !r.str1,
            r.ch0 == (CmtChannel { cmcr_cks: 0, cmcr_cmie: false, cmcnt: 0, cmcor: 0 }),
            r.ch1 == (CmtChannel { cmcr_cks: 0, cmcr_cmie: false, cmcnt: 0, cmcor: 0 }),
    {
        CmtState {
            str0: false,
            str1: false,
            ch0: CmtChannel { cmcr_cks: 0, cmcr_cmie: false, cmcnt: 0, cmcor: 0 },
            ch1: CmtChannel { cmcr_cks: 0, cmcr_cmie: false, cmcnt: 0, cmcor: 0 },
        }
    }
}

/// The driver's own state; the kernel's tickless helper keeps its state
/// beside this, outside the port.
#[derive(Clone, Copy, Debug, PartialEq, Eq, Structural)]
pub struct TimerState {
    /// The last committed value of the virtual 32-bit counter.
    pub hw_tick_count32: u32,
    /// For how many more hardware cycles the driver waits before the
    /// kernel's `timer_tick` is called.
    pub hw_tick_remaining: u32,
}

impl TimerState {
    /// The zero-initialized driver state.
    pub fn new() -> (r: TimerState)
        ensures
            r.hw_tick_count32 == 0,
            r.hw_tick_remaining == 0,
    {
        TimerState { hw_tick_count32: 0, hw_tick_remaining: 0 }
    }
}

/// What `configure` declares at kernel-configure time: the timer's interrupt
/// line, enabled, with its handler attached, and — when a group priority
/// register index is configured — a startup-time group priority write.
#[derive(Clone, Copy, Debug, PartialEq, Eq, Structural)]
pub struct TimerSetup {
    /// The interrupt line to attach the tick handler to.
    pub line: usize,
    /// Whether the line starts enabled (it does).
    pub enabled: bool,
    /// The IPR register to program at startup, if any.
    pub ipr_index: Option<usize>,
    /// The group priority to program at startup.
    pub group_priority: i16,
}

/// The configuration step: declares the tick-handler interrupt line, enabled,
/// and the startup-time group priority write the kernel should perform.
pub fn configure(opts: &CmtOptions) -> (ts: TimerSetup)
    requires
        opts.wf(),
    ensures
        ts.line == opts.interrupt_num,
        ts.enabled,
        ts.ipr_index == opts.ipr_index,
        ts.group_priority == opts.interrupt_priority,
{
    TimerSetup {
        line: opts.interrupt_num,
        enabled: true,
        ipr_index: opts.ipr_index,
        group_priority: opts.interrupt_priority,
    }
}

/// Initializes the timer: both channels are stopped, programmed with the
/// requested clock division, zeroed — channel 1 free-running over the full
/// 16-bit range, channel 0 with the compare-match interrupt enabled — and
/// started again.
pub fn init(cmt: &mut CmtState, opts: &CmtOptions)
    requires
        opts.wf(),
    ensures
        final(cmt).str0,
        final(cmt).str1,
        final(cmt).ch0.cmcr_cks == cks_spec(opts.predivider),
        final(cmt).ch0.cmcr_cmie,
        final(cmt).ch0.cmcnt == 0,
        final(cmt).ch0.cmcor == old(cmt).ch0.cmcor,
        final(cmt).ch1.cmcr_cks == cks_spec(opts.predivider),
        !final(cmt).ch1.cmcr_cmie,
        final(cmt).ch1.cmcnt == 0,
        final(cmt).ch1.cmcor == 0xFFFF,
{
    // Stop the timers
    cmt.str0 = false;
    cmt.str1 = false;

    // Unit 0: variable interval, interrupts enabled
    // Unit 1: free-running (period 2¹⁶), interrupts disabled
    let cks = cks_for_predivider(opts.predivider);
    cmt.ch0.cmcr_cks = cks;
    cmt.ch0.cmcr_cmie = true;
    cmt.ch1.cmcr_cks = cks;
    cmt.ch1.cmcr_cmie = false;
    cmt.ch0.cmcnt = 0;
    cmt.ch1.cmcnt = 0;
    cmt.ch1.cmcor = 0xFFFF;

    // Start the timers
    cmt.str0 = true;
    cmt.str1 = true;
}

/// Composes the committed snapshot of the virtual 32-bit counter with the
/// current channel-1 count. Correct provided the hardware has advanced by
/// strictly fewer than 2¹⁶ cycles since the snapshot was committed.
pub fn current_hw_tick_count32(hw_tick_count32: u32, current_hw_tick_count16: u16) -> (r: u32)
    ensures
        r == now32(hw_tick_count32, current_hw_tick_count16),
{
    let hw_tick_count16: u16 = #[verifier::truncate] (hw_tick_count32 as u16);
    proof {
        assert(hw_tick_count32 as u16 == (hw_tick_count32 % 0x10000) as u16) by (bit_vector);
    }
    let e: u16 = current_hw_tick_count16.wrapping_sub(hw_tick_count16);
    hw_tick_count32.wrapping_add(e as u32)
}

/// Reads the current value of the virtual 32-bit counter. The kernel's
/// tickless helper converts this into the kernel's time unit.
pub fn tick_count(tstate: &TimerState, current_hw_tick_count16: u16) -> (r: u32)
    ensures
        r == now32(tstate.hw_tick_count32, current_hw_tick_count16),
{
    current_hw_tick_count32(tstate.hw_tick_count32, current_hw_tick_count16)
}

/// Requests an immediate tick: the countdown is cleared and channel 0 is
/// programmed to fire on the very next cycle — the hardware cannot raise a
/// compare match immediately, so one cycle is the minimum latency.
pub fn pend_tick(tstate: &mut TimerState, cmt: &mut CmtState)
    ensures
        final(tstate).hw_tick_remaining == 0,
        final(tstate).hw_tick_count32 == old(tstate).hw_tick_count32,
        final(cmt).ch0.cmcor == 0,
        final(cmt).ch0.cmcnt == 0,
        final(cmt).ch0.cmcr_cks == old(cmt).ch0.cmcr_cks,
        final(cmt).ch0.cmcr_cmie == old(cmt).ch0.cmcr_cmie,
        final(cmt).ch1 == old(cmt).ch1,
        final(cmt).str0 == old(cmt).str0,
        final(cmt).str1 == old(cmt).str1,
{
    tstate.hw_tick_remaining = 0;
    cmt.ch0.cmcor = 0;
    cmt.ch0.cmcnt = 0;
}

/// The compare value `pend_tick_after` programs: one less than the tick
/// distance, but never more than `0xFFFF` minus the headroom, so that the
/// channel-1 wrap is always observed in time.
pub open spec fn compare_value(hw_ticks: u32, headroom: u16) -> u16 {
    if (if hw_ticks > 0 {
        hw_ticks - 1
    } else {
        0
    }) < 0xFFFF - headroom {
        (if hw_ticks > 0 {
            hw_ticks - 1
        } else {
            0
        }) as u16
    } else {
        (0xFFFF - headroom) as u16
    }
}

/// Whatever distance is requested, the programmed compare value keeps the
/// interrupt period at most `0xFFFF` minus the headroom — so channel 1
/// never advances a full 2¹⁶ cycles between tick interrupts and the wrap is
/// always observed. (The wall-clock bound follows on hardware from the
/// timer clock; the model holds the register-level part.)
pub proof fn lemma_compare_value_observes_wrap(hw_ticks: u32, headroom: u16)
    ensures
        compare_value(hw_ticks, headroom) <= 0xFFFF - headroom,
{
}

/// The driver state after `pend_tick_after`: the virtual counter is
/// committed and the countdown reloaded.
pub open spec fn pend_tick_after_timer_spec(t: TimerState, c: u16, hw_ticks: u32) -> TimerState {
    TimerState { hw_tick_count32: now32(t.hw_tick_count32, c), hw_tick_remaining: hw_ticks }
}

/// The CMT register block after `pend_tick_after`: channel 0 reloaded with
/// the computed compare value and a zeroed counter, channel 1 running again
/// after the brief stop that makes the reload atomic.
pub open spec fn pend_tick_after_cmt_spec(cmt: CmtState, hw_ticks: u32, headroom: u16) -> CmtState {
    CmtState {
        str1: true,
        ch0: CmtChannel { cmcnt: 0, cmcor: compare_value(hw_ticks, headroom), ..cmt.ch0 },
        ..cmt
    }
}

/// Schedules the next tick interrupt `hw_ticks` hardware cycles from now.
///
/// The tick distance is the kernel's tickless helper's answer to the
/// requested delta, measured from the counter value committed here; the
/// helper bounds it by the wrap interval. The reload stops channel 1
/// briefly, clears the pending tick interrupt, writes the compare value and
/// zeroes the channel-0 counter, then restarts channel 1.
pub fn pend_tick_after(
    tstate: &mut TimerState,
    cmt: &mut CmtState,
    icu: &mut IcuState,
    opts: &CmtOptions,
    hw_ticks: u32,
)
    requires
        old(icu).wf(),
        opts.wf(),
        hw_ticks <= 0xFFFF,
    ensures
        final(icu).wf(),
        *final(tstate) == pend_tick_after_timer_spec(
            *old(tstate),
            old(cmt).ch1.cmcnt,
            hw_ticks,
        ),
        *final(cmt) == pend_tick_after_cmt_spec(*old(cmt), hw_ticks, opts.headroom),
        final(cmt).ch0.cmcor <= 0xFFFF - opts.headroom,
        final(icu).ir@ == old(icu).ir@.update(opts.interrupt_num as int, 0u8),
        final(icu).ier@ == old(icu).ier@,
        final(icu).ipr@ == old(icu).ipr@,
        final(icu).swintr == old(icu).swintr,
{
    // Update the reference time of the virtual 32-bit counter
    let cur = current_hw_tick_count32(tstate.hw_tick_count32, cmt.ch1.cmcnt);
    tstate.hw_tick_count32 = cur;
    tstate.hw_tick_remaining = hw_ticks;

    // The timer interrupts maintain the virtual 32-bit counter, so the
    // interrupt period must stay under 2¹⁶ cycles.
    let max_cmcor: u16 = 0xFFFF - opts.headroom;

    // Schedule unit 0
    cmt.str1 = false;
    icu.ir.set(opts.interrupt_num, 0);
    let t = if hw_ticks > 0 {
        hw_ticks - 1
    } else {
        0
    };
    cmt.ch0.cmcor = if t < max_cmcor as u32 {
        #[verifier::truncate] (t as u16)
    } else {
        max_cmcor
    };
    cmt.ch0.cmcnt = 0;
    cmt.str1 = true;
}

/// Scheduling a tick twice from an unchanged counter is the same as
/// scheduling it once: the second commit of the virtual counter finds it
/// already committed, and every register write repeats the same value.
pub proof fn lemma_pend_tick_after_idempotent(
    t: TimerState,
    cmt: CmtState,
    c: u16,
    hw_ticks: u32,
)
    ensures
        pend_tick_after_timer_spec(pend_tick_after_timer_spec(t, c, hw_ticks), c, hw_ticks)
            == pend_tick_after_timer_spec(t, c, hw_ticks),
        forall|headroom: u16|
            pend_tick_after_cmt_spec(
                pend_tick_after_cmt_spec(cmt, hw_ticks, headroom),
                hw_ticks,
                headroom,
            ) == pend_tick_after_cmt_spec(cmt, hw_ticks, headroom),
{
    lemma_now32_idempotent(t.hw_tick_count32, c);
}

/// The tick interrupt handler's state update: the virtual counter is
/// committed and the elapsed cycles are subtracted (saturating) from the
/// countdown. The returned flag says whether the countdown has reached zero
/// — only then does the port notify the kernel's tickless helper and call
/// `timer_tick`; otherwise the interrupt only served wrap maintenance.
pub fn handle_tick(tstate: &mut TimerState, current_hw_tick_count16: u16) -> (notify: bool)
    ensures
        final(tstate).hw_tick_count32 == now32(
            old(tstate).hw_tick_count32,
            current_hw_tick_count16,
        ),
        final(tstate).hw_tick_remaining == (if old(tstate).hw_tick_remaining >= elapsed16(
            old(tstate).hw_tick_count32,
            current_hw_tick_count16,
        ) {
            old(tstate).hw_tick_remaining - elapsed16(
                old(tstate).hw_tick_count32,
                current_hw_tick_count16,
            )
        } else {
            0
        }),
        notify <==> final(tstate).hw_tick_remaining == 0,
{
    let cur = current_hw_tick_count32(tstate.hw_tick_count32, current_hw_tick_count16);
    let elapsed = cur.wrapping_sub(tstate.hw_tick_count32);
    proof {
        lemma_now32_minus_base(tstate.hw_tick_count32, current_hw_tick_count16);
    }
    tstate.hw_tick_remaining = tstate.hw_tick_remaining.saturating_sub(elapsed);
    tstate.hw_tick_count32 = cur;
    tstate.hw_tick_remaining == 0
}

} // verus!
