use crate::rtc::{ticks_until, InstanceRtc, RtcRegs, COUNTER_MASK, COUNTER_PERIOD};
use vstd::arithmetic::div_mod::{lemma_add_mod_noop, lemma_small_mod};
use vstd::prelude::*;

verus! {

/// Tick rate of the clock: the low-frequency clock source, undivided.
pub const TICK_HZ: u32 = 32_768;

/// Width of the hardware counter in bits.
pub const COUNTER_BITS: u64 = 24;

/// The fewest ticks between the counter and a programmed compare value for
/// the match event to latch reliably; closer deadlines may never fire.
pub const MIN_TICKS_FOR_COMPARE: u64 = 3;

/// The overflow count once the interrupt handler has seen the overflow flag
/// `pending`: one more (wrapping) when it was set, the same otherwise.
pub open spec fn overflow_after_interrupt(overflow: u64, pending: bool) -> u64 {
    if !pending {
        overflow
    } else if overflow == u64::MAX {
        0
    } else {
        (overflow + 1) as u64
    }
}

/// The extended instant read from an overflow count, the overflow flag and the
/// raw counter: a pending wrap counts as if the handler had already run.
pub open spec fn extended_ticks(overflow: u64, pending: bool, counter: u32) -> u64 {
    (overflow_after_interrupt(overflow, pending) << COUNTER_BITS) | (counter as u64)
}

/// The compare value programmed for a deadline `target` when the clock reads
/// `now`, with `delta = target - now`: the target's low 24 bits when
/// `MIN_TICKS_FOR_COMPARE < delta <= COUNTER_MASK`; the target pushed out to
/// `MIN_TICKS_FOR_COMPARE` ticks after `now` when
/// `0 < delta <= MIN_TICKS_FOR_COMPARE`; zero, which the counter reaches right
/// after its next wrap, when the deadline is overdue or out of reach.
pub open spec fn compare_value(target: u64, now: u64) -> u32 {
    if target <= now || target - now > COUNTER_MASK {
        0
    } else if target - now > MIN_TICKS_FOR_COMPARE {
        (target as int % COUNTER_PERIOD as int) as u32
    } else {
        ((target + (MIN_TICKS_FOR_COMPARE - (target - now))) % COUNTER_PERIOD as int) as u32
    }
}

/// Masking with the counter's width keeps the low 24 bits.
proof fn lemma_mask_is_mod(x: u64)
    ensures
        x & 0x00ff_ffff == x % 0x0100_0000,
        x & 0x00ff_ffff <= 0x00ff_ffff,
{
    assert(x & 0x00ff_ffff == x % 0x0100_0000) by (bit_vector);
    assert(x & 0x00ff_ffff <= 0x00ff_ffff) by (bit_vector);
}

/// Between two reads with no wrap in between, the clock never goes back; and
/// before the first wrap it reads the raw counter.
pub proof fn lemma_now_without_wrap(overflow: u64, pending: bool, earlier: u32, later: u32)
    requires
        earlier <= later <= COUNTER_MASK,
    ensures
        extended_ticks(overflow, pending, earlier) <= extended_ticks(overflow, pending, later),
        extended_ticks(0, false, earlier) == earlier,
{
    let w = overflow_after_interrupt(overflow, pending);
    let e = earlier as u64;
    let l = later as u64;
    assert((w << 24u64) | e <= (w << 24u64) | l) by (bit_vector)
        requires
            e <= l <= 0x00ff_ffff,
    ;
    assert((0u64 << 24u64) | e == e) by (bit_vector);
}

/// A read taken while a wrap is pending, before the handler runs, equals a
/// read of the same counter after the handler has counted that wrap.
pub proof fn lemma_pending_wrap_read_once(overflow: u64, counter: u32)
    ensures
        extended_ticks(overflow, true, counter) == extended_ticks(
            overflow_after_interrupt(overflow, true),
            false,
            counter,
        ),
{
}

/// A read after a wrap, whether the wrap is still pending or already counted,
/// is later than any read before it (while the instant has room for the count).
pub proof fn lemma_now_across_wrap(overflow: u64, before: u32, after: u32)
    requires
        overflow < 0x00ff_ffff_ffff,
        before <= COUNTER_MASK,
        after <= COUNTER_MASK,
    ensures
        extended_ticks(overflow, false, before) < extended_ticks(overflow, true, after),
{
    let b = before as u64;
    let a = after as u64;
    let n = (overflow + 1) as u64;
    assert((overflow << 24u64) | b < (n << 24u64) | a) by (bit_vector)
        requires
            overflow < 0x00ff_ffff_ffff,
            n == overflow + 1,
            b <= 0x00ff_ffff,
            a <= 0x00ff_ffff,
    ;
}

/// The handler counts a pending wrap exactly once: one more when the flag was
/// set, no change when it was clear, and no change on a second run for the
/// same wrap, whose flag the first run cleared.
pub proof fn lemma_interrupt_counts_wrap_once(overflow: u64)
    ensures
        overflow < u64::MAX ==> overflow_after_interrupt(overflow, true) == overflow + 1,
        overflow_after_interrupt(overflow, false) == overflow,
        overflow_after_interrupt(overflow_after_interrupt(overflow, true), false)
            == overflow_after_interrupt(overflow, true),
{
}

/// A deadline more than the minimum lead and at most one counter period ahead
/// is programmed as its own low 24 bits.
pub proof fn lemma_compare_on_target(target: u64, now: u64)
    requires
        now < target,
        MIN_TICKS_FOR_COMPARE < target - now <= COUNTER_MASK,
    ensures
        compare_value(target, now) == target % COUNTER_PERIOD,
{
}

/// A deadline at most the minimum lead ahead is programmed the minimum lead
/// ahead of the counter, never closer.
pub proof fn lemma_compare_imminent(target: u64, now: u64)
    requires
        now < target,
        target - now <= MIN_TICKS_FOR_COMPARE,
    ensures
        compare_value(target, now) == (now + MIN_TICKS_FOR_COMPARE) % COUNTER_PERIOD as int,
        ticks_until((now % COUNTER_PERIOD) as u32, compare_value(target, now))
            == MIN_TICKS_FOR_COMPARE,
{
    let p = COUNTER_PERIOD as int;
    let lead = MIN_TICKS_FOR_COMPARE as int;
    let r = now % COUNTER_PERIOD;
    lemma_add_mod_noop(now as int, lead, p);
    lemma_small_mod(lead as nat, p as nat);
    if r + lead >= p {
        lemma_small_mod((r + lead - p) as nat, p as nat);
    } else {
        lemma_small_mod((r + lead) as nat, p as nat);
    }
}

/// A deadline that is overdue, or more than one counter period ahead, is
/// programmed at zero: the match comes right after the next wrap.
pub proof fn lemma_compare_fallback(target: u64, now: u64)
    requires
        target <= now || target - now > COUNTER_MASK,
    ensures
        compare_value(target, now) == 0,
{
}

/// Within one counter period, the match comes no earlier than the deadline:
/// exactly on it when it is more than the minimum lead ahead, and the minimum
/// lead after the current instant otherwise.
pub proof fn lemma_compare_not_before_target(target: u64, now: u64)
    requires
        now < target,
        target - now <= COUNTER_MASK,
    ensures
        ticks_until((now % COUNTER_PERIOD) as u32, compare_value(target, now)) >= target - now,
        target - now > MIN_TICKS_FOR_COMPARE ==> ticks_until(
            (now % COUNTER_PERIOD) as u32,
            compare_value(target, now),
        ) == target - now,
{
    if target - now > MIN_TICKS_FOR_COMPARE {
        let p = COUNTER_PERIOD as int;
        let d = target - now;
        lemma_small_mod(d as nat, p as nat);
        vstd::arithmetic::div_mod::lemma_sub_mod_noop(target as int, now as int, p);
    } else {
        lemma_compare_imminent(target, now);
    }
}

/// A monotonic clock over one RTC peripheral: the 24-bit hardware counter
/// extended by a software count of its wraps.
pub struct MonoRtc<T: InstanceRtc> {
    overflow: u64,
    rtc: T,
}

impl<T: InstanceRtc> MonoRtc<T> {
    /// How many wraps the interrupt handler has counted.
    pub closed spec fn overflow_count(&self) -> u64 {
        self.overflow
    }

    /// The registers of the owned peripheral.
    pub closed spec fn rtc_regs(&self) -> RtcRegs {
        self.rtc.regs()
    }

    /// The instant the clock reads in this state.
    pub open spec fn now_spec(&self) -> u64 {
        extended_ticks(self.overflow_count(), self.rtc_regs().overflow_event, self.rtc_regs().counter)
    }

    /// Takes ownership of the peripheral and sets its prescaler to pass-through.
    pub fn new(rtc: T) -> (r: Self)
        ensures
            r.overflow_count() == 0,
            r.rtc_regs() == (RtcRegs { prescaler: 0, ..rtc.regs() }),
    {
        let mut rtc = rtc;
        rtc.write_prescaler(0);
        MonoRtc { overflow: 0, rtc }
    }

    /// The owned peripheral.
    pub fn rtc(&self) -> (r: &T)
        ensures
            r.regs() == self.rtc_regs(),
    {
        &self.rtc
    }

    /// The owned peripheral, for changes that leave the overflow count alone.
    pub fn rtc_mut(&mut self) -> (r: &mut T)
        ensures
            r.regs() == old(self).rtc_regs(),
            final(self).rtc_regs() == final(r).regs(),
            final(self).overflow_count() == old(self).overflow_count(),
    {
        &mut self.rtc
    }

    /// Whether the hardware has raised the overflow flag.
    pub fn is_overflow(&self) -> (r: bool)
        ensures
            r == self.rtc_regs().overflow_event,
    {
        self.rtc.read_overflow_event()
    }

    /// Arms the clock: enables the compare and overflow interrupts and events,
    /// then clears and starts the counter.
    pub fn reset(&mut self)
        ensures
            final(self).overflow_count() == old(self).overflow_count(),
            final(self).rtc_regs() == (RtcRegs {
                counter: 0,
                interrupts_enabled: true,
                events_enabled: true,
                running: true,
                ..old(self).rtc_regs()
            }),
    {
        self.rtc.enable_interrupts();
        self.rtc.enable_events();
        self.rtc.clear_counter();
        self.rtc.start();
    }

    /// The current instant. Writes nothing: a wrap the handler has not yet
    /// counted is counted here as if it had been.
    pub fn now(&self) -> (r: u64)
        ensures
            r == self.now_spec(),
    {
        let cnt = self.rtc.read_counter();
        let ovf = if self.is_overflow() {
            self.overflow.wrapping_add(1)
        } else {
            self.overflow
        };
        (ovf << COUNTER_BITS) | cnt as u64
    }

    /// Programs the compare register so that the match event comes at or
    /// after `instant`: exactly on it when it is far enough ahead, a few ticks
    /// later when it is imminent, and at the next wrap when it is overdue or
    /// beyond one counter period.
    pub fn set_compare(&mut self, instant: u64)
        ensures
            final(self).overflow_count() == old(self).overflow_count(),
            final(self).rtc_regs() == (RtcRegs {
                compare: compare_value(instant, old(self).now_spec()),
                ..old(self).rtc_regs()
            }),
    {
        let now = self.now();
        let val: u32 = if instant > now && instant - now <= COUNTER_MASK as u64 {
            let delta = instant - now;
            proof {
                lemma_mask_is_mod(instant);
            }
            if delta > MIN_TICKS_FOR_COMPARE {
                (instant & COUNTER_MASK as u64) as u32
            } else {
                let low = instant & COUNTER_MASK as u64;
                let pushed = low + (MIN_TICKS_FOR_COMPARE - delta);
                proof {
                    lemma_mask_is_mod(pushed);
                    let k = (MIN_TICKS_FOR_COMPARE - delta) as int;
                    lemma_small_mod(k as nat, COUNTER_PERIOD as nat);
                    lemma_add_mod_noop(instant as int, k, COUNTER_PERIOD as int);
                }
                (pushed & COUNTER_MASK as u64) as u32
            }
        } else {
            0
        };
        self.rtc.write_compare(val);
    }

    /// Acknowledges a compare match: clears the compare flag and nothing else.
    pub fn clear_compare_flag(&mut self)
        ensures
            final(self).overflow_count() == old(self).overflow_count(),
            final(self).rtc_regs() == (RtcRegs { compare_event: false, ..old(self).rtc_regs() }),
    {
        self.rtc.clear_compare_event();
    }

    /// The epoch: tick zero.
    pub fn zero() -> (r: u64)
        ensures
            r == 0,
    {
        0
    }

    /// Handles the peripheral's interrupt: counts a pending wrap once and
    /// clears the overflow flag.
    pub fn on_interrupt(&mut self)
        ensures
            final(self).overflow_count() == overflow_after_interrupt(
                old(self).overflow_count(),
                old(self).rtc_regs().overflow_event,
            ),
            final(self).rtc_regs() == (RtcRegs { overflow_event: false, ..old(self).rtc_regs() }),
    {
        if self.is_overflow() {
            self.overflow = self.overflow.wrapping_add(1);
            self.rtc.clear_overflow_event();
        }
    }
}

} // verus!
