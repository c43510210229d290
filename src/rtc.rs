use vstd::prelude::*;

verus! {

/// Largest value of the 24-bit counter and compare registers.
pub const COUNTER_MASK: u32 = 0x00ff_ffff;

/// Number of distinct counter values: the counter wraps to zero after this many ticks.
pub const COUNTER_PERIOD: u64 = 0x0100_0000;

/// Largest value the 12-bit prescaler register holds.
pub const PRESCALER_MAX: u32 = 0x0fff;

/// The register state of one RTC peripheral, as the clock logic sees it.
#[derive(Clone, Copy, Debug, PartialEq, Eq, Structural)]
pub struct RtcRegs {
    /// Current value of the free-running counter.
    pub counter: u32,
    /// Value of compare register 0.
    pub compare: u32,
    /// The overflow event flag, set by hardware when the counter wraps.
    pub overflow_event: bool,
    /// The compare-match event flag, set by hardware when the counter reaches `compare`.
    pub compare_event: bool,
    /// The prescaler: the counter advances once every `prescaler + 1` source ticks.
    pub prescaler: u32,
    /// Whether the compare and overflow interrupts are enabled.
    pub interrupts_enabled: bool,
    /// Whether the compare and overflow events are routed.
    pub events_enabled: bool,
    /// Whether the counter has been started.
    pub running: bool,
}

impl RtcRegs {
    /// Every register holds a value of its hardware width.
    pub open spec fn wf(self) -> bool {
        &&& self.counter <= COUNTER_MASK
        &&& self.compare <= COUNTER_MASK
        &&& self.prescaler <= PRESCALER_MAX
    }
}

/// A capability to one RTC peripheral: the register accesses the clock needs.
pub trait InstanceRtc: Sized {
    /// The register state this handle currently exposes.
    spec fn regs(&self) -> RtcRegs;

    /// Reads the counter register.
    fn read_counter(&self) -> (r: u32)
        ensures
            r == self.regs().counter,
            r <= COUNTER_MASK,
    ;

    /// Reads the overflow event flag.
    fn read_overflow_event(&self) -> (r: bool)
        ensures
            r == self.regs().overflow_event,
    ;

    /// Clears the overflow event flag and nothing else.
    fn clear_overflow_event(&mut self)
        ensures
            final(self).regs() == (RtcRegs { overflow_event: false, ..old(self).regs() }),
    ;

    /// Clears the compare-match event flag and nothing else.
    fn clear_compare_event(&mut self)
        ensures
            final(self).regs() == (RtcRegs { compare_event: false, ..old(self).regs() }),
    ;

    /// Writes compare register 0.
    fn write_compare(&mut self, value: u32)
        requires
            value <= COUNTER_MASK,
        ensures
            final(self).regs() == (RtcRegs { compare: value, ..old(self).regs() }),
    ;

    /// Writes the prescaler register.
    fn write_prescaler(&mut self, value: u32)
        requires
            value <= PRESCALER_MAX,
        ensures
            final(self).regs() == (RtcRegs { prescaler: value, ..old(self).regs() }),
    ;

    /// Enables the compare and overflow interrupts.
    fn enable_interrupts(&mut self)
        ensures
            final(self).regs() == (RtcRegs { interrupts_enabled: true, ..old(self).regs() }),
    ;

    /// Routes the compare and overflow events.
    fn enable_events(&mut self)
        ensures
            final(self).regs() == (RtcRegs { events_enabled: true, ..old(self).regs() }),
    ;

    /// Triggers the clear task: the counter returns to zero.
    fn clear_counter(&mut self)
        ensures
            final(self).regs() == (RtcRegs { counter: 0, ..old(self).regs() }),
    ;

    /// Triggers the start task: the counter begins to run.
    fn start(&mut self)
        ensures
            final(self).regs() == (RtcRegs { running: true, ..old(self).regs() }),
    ;
}

/// Ticks until the counter, starting at `from`, next shows `value`
/// (a full period when it already shows it).
pub open spec fn ticks_until(from: u32, value: u32) -> int {
    let d = (value as int - from as int) % (COUNTER_PERIOD as int);
    if d == 0 {
        COUNTER_PERIOD as int
    } else {
        d
    }
}

/// The register state after a running counter advances `ticks` times from `r`.
pub open spec fn advanced(r: RtcRegs, ticks: u32) -> RtcRegs {
    if !r.running || ticks == 0 {
        r
    } else {
        RtcRegs {
            counter: ((r.counter as int + ticks as int) % (COUNTER_PERIOD as int)) as u32,
            overflow_event: r.overflow_event || ticks_until(r.counter, 0) <= ticks,
            compare_event: r.compare_event || ticks_until(r.counter, r.compare) <= ticks,
            ..r
        }
    }
}

/// A simulated RTC peripheral: registers held in memory, with a method that
/// stands for the hardware clock source advancing the counter.
pub struct SimRtc {
    regs: RtcRegs,
}

impl SimRtc {
    #[verifier::type_invariant]
    spec fn inv(&self) -> bool {
        self.regs.wf()
    }

    /// A stopped peripheral with every register and flag cleared.
    pub fn new() -> (r: SimRtc)
        ensures
            r.regs() == (RtcRegs {
                counter: 0,
                compare: 0,
                overflow_event: false,
                compare_event: false,
                prescaler: 0,
                interrupts_enabled: false,
                events_enabled: false,
                running: false,
            }),
    {
        SimRtc {
            regs: RtcRegs {
                counter: 0,
                compare: 0,
                overflow_event: false,
                compare_event: false,
                prescaler: 0,
                interrupts_enabled: false,
                events_enabled: false,
                running: false,
            },
        }
    }

    /// A snapshot of the registers.
    pub fn registers(&self) -> (r: RtcRegs)
        ensures
            r == self.regs(),
            r.wf(),
    {
        proof {
            use_type_invariant(self);
        }
        self.regs
    }

    /// The hardware clock source delivers `ticks` ticks: a running counter
    /// advances and wraps, raising the overflow flag when it passes from its
    /// largest value to zero and the compare flag when it reaches the compare
    /// value. A stopped counter does not move.
    pub fn advance(&mut self, ticks: u32)
        ensures
            final(self).regs() == advanced(old(self).regs(), ticks),
    {
        proof {
            use_type_invariant(&*self);
        }
        if self.regs.running && ticks > 0 {
            let from = self.regs.counter;
            let total: u64 = from as u64 + ticks as u64;
            let to_zero: u64 = COUNTER_PERIOD - from as u64;
            let to_compare: u64 = if self.regs.compare > from {
                (self.regs.compare - from) as u64
            } else {
                COUNTER_PERIOD - (from - self.regs.compare) as u64
            };
            let counter = (total % COUNTER_PERIOD) as u32;
            if to_zero <= ticks as u64 {
                self.regs.overflow_event = true;
            }
            if to_compare <= ticks as u64 {
                self.regs.compare_event = true;
            }
            self.regs.counter = counter;
        }
    }
}

impl InstanceRtc for SimRtc {
    closed spec fn regs(&self) -> RtcRegs {
        self.regs
    }

    fn read_counter(&self) -> (r: u32) {
        proof {
            use_type_invariant(self);
        }
        self.regs.counter
    }

    fn read_overflow_event(&self) -> (r: bool) {
        self.regs.overflow_event
    }

    fn clear_overflow_event(&mut self) {
        proof {
            use_type_invariant(&*self);
        }
        self.regs.overflow_event = false;
    }

    fn clear_compare_event(&mut self) {
        proof {
            use_type_invariant(&*self);
        }
        self.regs.compare_event = false;
    }

    fn write_compare(&mut self, value: u32) {
        proof {
            use_type_invariant(&*self);
        }
        self.regs.compare = value;
    }

    fn write_prescaler(&mut self, value: u32) {
        proof {
            use_type_invariant(&*self);
        }
        self.regs.prescaler = value;
    }

    fn enable_interrupts(&mut self) {
        proof {
            use_type_invariant(&*self);
        }
        self.regs.interrupts_enabled = true;
    }

    fn enable_events(&mut self) {
        proof {
            use_type_invariant(&*self);
        }
        self.regs.events_enabled = true;
    }

    fn clear_counter(&mut self) {
        proof {
            use_type_invariant(&*self);
        }
        self.regs.counter = 0;
    }

    fn start(&mut self) {
        proof {
            use_type_invariant(&*self);
        }
        self.regs.running = true;
    }
}

} // verus!
