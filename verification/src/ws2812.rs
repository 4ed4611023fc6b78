//! Programming of the hardware timer that paces the bit-banged WS2812 LED
//! strip.
//!
//! The strip driver waits three timer periods per bit and needs a period
//! near 333 ns. The timer counts the 80 MHz APB clock through a prescaler;
//! with the smallest prescaler (divide by 2) it counts at 40 MHz, 25 ns per
//! count, and an alarm after `WS2812_TICKS` = 13 counts gives a 325 ns period
//! and a 975 ns bit.
//!
//! The timer's registers are modelled by `TimerRegs`; the library decides
//! which register operations to perform, in which order, and with which
//! values, and the caller carries them out on the hardware.
use vstd::prelude::*;

verus! {

/// Number of prescaled timer counts per third of a WS2812 bit cell.
pub const WS2812_TICKS: u32 = 13;

/// Frequency of the clock the timer counts, in hertz.
pub const APB_CLOCK_HZ: u64 = 80_000_000;

/// The prescaler used: the smallest the timer accepts.
pub const TIMER_DIVIDER: u16 = 2;

/// Timer periods per WS2812 bit cell.
pub const PERIODS_PER_BIT: u64 = 3;

/// How the timer counts.
#[derive(Clone, Copy, Debug, PartialEq, Eq, Structural)]
pub struct TimerClock {
    /// Count up (rather than down).
    pub count_up: bool,
    /// Reload the counter from the load registers when the alarm fires.
    pub auto_reload: bool,
    /// Count the crystal clock (rather than the APB clock).
    pub use_xtal: bool,
    /// Prescaler: the clock is divided by this before being counted.
    pub divider: u16,
}

/// The part of the timer's register block that the driver uses.
#[derive(Clone, Copy, Debug, PartialEq, Eq, Structural)]
pub struct TimerRegs {
    /// The counter runs.
    pub enabled: bool,
    /// The alarm is armed.
    pub alarm_enabled: bool,
    /// Counting mode and clock.
    pub clock: TimerClock,
    /// Value the counter is loaded with, low and high halves.
    pub load_lo: u32,
    pub load_hi: u32,
    /// Counter value at which the alarm fires, low and high halves.
    pub alarm_lo: u32,
    pub alarm_hi: u32,
    /// Current counter value, low and high halves.
    pub counter_lo: u32,
    pub counter_hi: u32,
    /// The alarm has fired and has not been acknowledged.
    pub interrupt_pending: bool,
}

/// One register operation.
#[derive(Clone, Copy, Debug, PartialEq, Eq, Structural)]
pub enum TimerOp {
    /// Stop the counter and disarm the alarm, leaving the rest of the
    /// configuration as it is.
    Halt,
    /// Acknowledge a fired alarm.
    ClearInterrupt,
    /// Set the low half of the load value.
    SetLoadLo(u32),
    /// Set the high half of the load value.
    SetLoadHi(u32),
    /// Copy the load value into the counter.
    Reload,
    /// Set the low half of the alarm value.
    SetAlarmLo(u32),
    /// Set the high half of the alarm value.
    SetAlarmHi(u32),
    /// Set the counting mode and clock.
    Configure(TimerClock),
    /// Start the counter and arm the alarm.
    Run,
    /// Arm the alarm again, leaving the rest as it is.
    Arm,
}

/// The register state after operation `op` on state `r`.
pub open spec fn spec_apply(r: TimerRegs, op: TimerOp) -> TimerRegs {
    match op {
        TimerOp::Halt => TimerRegs { enabled: false, alarm_enabled: false, ..r },
        TimerOp::ClearInterrupt => TimerRegs { interrupt_pending: false, ..r },
        TimerOp::SetLoadLo(v) => TimerRegs { load_lo: v, ..r },
        TimerOp::SetLoadHi(v) => TimerRegs { load_hi: v, ..r },
        TimerOp::Reload => TimerRegs { counter_lo: r.load_lo, counter_hi: r.load_hi, ..r },
        TimerOp::SetAlarmLo(v) => TimerRegs { alarm_lo: v, ..r },
        TimerOp::SetAlarmHi(v) => TimerRegs { alarm_hi: v, ..r },
        TimerOp::Configure(c) => TimerRegs { clock: c, ..r },
        TimerOp::Run => TimerRegs { enabled: true, alarm_enabled: true, ..r },
        TimerOp::Arm => TimerRegs { alarm_enabled: true, ..r },
    }
}

/// The register state after the alarm of state `r` fires: the fired alarm
/// is flagged, the alarm disarms itself (so a periodic timer must re-arm it
/// when acknowledging, as esp-hal's own timer driver does), and an
/// auto-reloading counter starts again from the load value.
pub open spec fn spec_fire(r: TimerRegs) -> TimerRegs {
    TimerRegs {
        interrupt_pending: true,
        alarm_enabled: false,
        counter_lo: if r.clock.auto_reload { r.load_lo } else { r.counter_lo },
        counter_hi: if r.clock.auto_reload { r.load_hi } else { r.counter_hi },
        ..r
    }
}

/// The operations that acknowledge a fired alarm and keep the timer
/// periodic: clear the flag and re-arm the alarm.
pub open spec fn spec_wait_ops() -> Seq<TimerOp> {
    seq![TimerOp::ClearInterrupt, TimerOp::Arm]
}

/// The register state after the operations `ops`, in order, on state `r`.
pub open spec fn spec_run(r: TimerRegs, ops: Seq<TimerOp>) -> TimerRegs
    decreases ops.len(),
{
    if ops.len() == 0 {
        r
    } else {
        spec_run(spec_apply(r, ops[0]), ops.drop_first())
    }
}

/// The counting mode the driver uses: counting up the APB clock divided by
/// `TIMER_DIVIDER`, reloading on every alarm.
pub open spec fn spec_ws2812_clock() -> TimerClock {
    TimerClock { count_up: true, auto_reload: true, use_xtal: false, divider: TIMER_DIVIDER }
}

/// The operations that set the timer up as a periodic timer firing every
/// `period_ticks` counts: stop it, acknowledge any fired alarm, load the
/// counter with zero, set the alarm, set the counting mode, and start it.
pub open spec fn spec_init_ops(period_ticks: u32) -> Seq<TimerOp> {
    seq![
        TimerOp::Halt,
        TimerOp::ClearInterrupt,
        TimerOp::SetLoadLo(0),
        TimerOp::SetLoadHi(0),
        TimerOp::Reload,
        TimerOp::SetAlarmLo(period_ticks),
        TimerOp::SetAlarmHi(0),
        TimerOp::Configure(spec_ws2812_clock()),
        TimerOp::Run,
    ]
}

/// The operations that restart the count with an alarm after `ticks`
/// counts: stop it, acknowledge any fired alarm, set the alarm, start it.
pub open spec fn spec_start_ops(ticks: u32) -> Seq<TimerOp> {
    seq![
        TimerOp::Halt,
        TimerOp::ClearInterrupt,
        TimerOp::SetAlarmLo(ticks),
        TimerOp::SetAlarmHi(0),
        TimerOp::Run,
    ]
}

/// The register state of a timer set up to fire every `period_ticks`
/// counts.
pub open spec fn spec_configured(period_ticks: u32) -> TimerRegs {
    TimerRegs {
        enabled: true,
        alarm_enabled: true,
        clock: spec_ws2812_clock(),
        load_lo: 0,
        load_hi: 0,
        alarm_lo: period_ticks,
        alarm_hi: 0,
        counter_lo: 0,
        counter_hi: 0,
        interrupt_pending: false,
    }
}

/// Length of one timer period in picoseconds, for a clock of `clock_hz`
/// divided by `divider` and an alarm after `ticks` counts.
pub open spec fn spec_period_ps(clock_hz: int, divider: int, ticks: int) -> int {
    ticks * divider * 1_000_000_000_000 / clock_hz
}

/// The zero-sized handle of the WS2812 pacing timer. Creating it and
/// restarting it hand back the register operations to carry out.
pub struct Ws2812Timer;

impl Ws2812Timer {
    /// The handle of a timer firing every `period_ticks` prescaled counts,
    /// and the register operations that set the timer up.
    pub fn new(period_ticks: u32) -> (r: (Ws2812Timer, Vec<TimerOp>))
        ensures
            r.1@ == spec_init_ops(period_ticks),
    {
        let mut ops: Vec<TimerOp> = Vec::new();
        ops.push(TimerOp::Halt);
        ops.push(TimerOp::ClearInterrupt);
        ops.push(TimerOp::SetLoadLo(0));
        ops.push(TimerOp::SetLoadHi(0));
        ops.push(TimerOp::Reload);
        ops.push(TimerOp::SetAlarmLo(period_ticks));
        ops.push(TimerOp::SetAlarmHi(0));
        ops.push(TimerOp::Configure(TimerClock {
            count_up: true,
            auto_reload: true,
            use_xtal: false,
            divider: TIMER_DIVIDER,
        }));
        ops.push(TimerOp::Run);
        assert(ops@ =~= spec_init_ops(period_ticks));
        (Ws2812Timer, ops)
    }

    /// The register operations that restart the count with an alarm after
    /// `ticks` counts.
    pub fn start(&mut self, ticks: u32) -> (ops: Vec<TimerOp>)
        ensures
            ops@ == spec_start_ops(ticks),
    {
        let mut ops: Vec<TimerOp> = Vec::new();
        ops.push(TimerOp::Halt);
        ops.push(TimerOp::ClearInterrupt);
        ops.push(TimerOp::SetAlarmLo(ticks));
        ops.push(TimerOp::SetAlarmHi(0));
        ops.push(TimerOp::Run);
        assert(ops@ =~= spec_start_ops(ticks));
        ops
    }
}

impl Ws2812Timer {
    /// The register operations to carry out once the alarm has fired:
    /// acknowledge it and re-arm it for the next period.
    pub fn wait(&mut self) -> (ops: Vec<TimerOp>)
        ensures
            ops@ == spec_wait_ops(),
    {
        let mut ops: Vec<TimerOp> = Vec::new();
        ops.push(TimerOp::ClearInterrupt);
        ops.push(TimerOp::Arm);
        assert(ops@ =~= spec_wait_ops());
        ops
    }
}

impl TimerRegs {
    /// Carries out `op` on this register state.
    pub fn apply(&mut self, op: TimerOp)
        ensures
            *final(self) == spec_apply(*old(self), op),
    {
        match op {
            TimerOp::Halt => {
                self.enabled = false;
                self.alarm_enabled = false;
            },
            TimerOp::ClearInterrupt => {
                self.interrupt_pending = false;
            },
            TimerOp::SetLoadLo(v) => {
                self.load_lo = v;
            },
            TimerOp::SetLoadHi(v) => {
                self.load_hi = v;
            },
            TimerOp::Reload => {
                self.counter_lo = self.load_lo;
                self.counter_hi = self.load_hi;
            },
            TimerOp::SetAlarmLo(v) => {
                self.alarm_lo = v;
            },
            TimerOp::SetAlarmHi(v) => {
                self.alarm_hi = v;
            },
            TimerOp::Configure(c) => {
                self.clock = c;
            },
            TimerOp::Run => {
                self.enabled = true;
                self.alarm_enabled = true;
            },
            TimerOp::Arm => {
                self.alarm_enabled = true;
            },
        }
    }

    /// What the hardware does to this register state when the alarm fires.
    pub fn fire(&mut self)
        ensures
            *final(self) == spec_fire(*old(self)),
    {
        self.interrupt_pending = true;
        self.alarm_enabled = false;
        if self.clock.auto_reload {
            self.counter_lo = self.load_lo;
            self.counter_hi = self.load_hi;
        }
    }

    /// Carries out `ops`, in order, on this register state.
    pub fn run(&mut self, ops: &Vec<TimerOp>)
        ensures
            *final(self) == spec_run(*old(self), ops@),
    {
        let mut i: usize = 0;
        assert(ops@.subrange(0, ops@.len() as int) =~= ops@);
        while i < ops.len()
            invariant
                i <= ops.len(),
                spec_run(*old(self), ops@) == spec_run(*self, ops@.subrange(i as int, ops@.len() as int)),
            decreases ops.len() - i,
        {
            let ghost before = *self;
            self.apply(ops[i]);
            proof {
                let rest = ops@.subrange(i as int, ops@.len() as int);
                assert(rest.drop_first() =~= ops@.subrange(i + 1, ops@.len() as int));
                assert(spec_run(before, rest) == spec_run(spec_apply(before, rest[0]), rest.drop_first()));
            }
            i = i + 1;
        }
        proof {
            assert(ops@.subrange(i as int, ops@.len() as int) =~= Seq::<TimerOp>::empty());
        }
    }
}

/// Setting the timer up does not depend on what the registers held before:
/// from any state it ends counting up the APB clock divided by 2, with the
/// counter at zero, the alarm at `period_ticks`, running and armed, and no
/// fired alarm pending.
pub proof fn lemma_init_from_any_state(r: TimerRegs, period_ticks: u32)
    ensures
        spec_run(r, spec_init_ops(period_ticks)) == spec_configured(period_ticks),
{
    reveal_with_fuel(spec_run, 10);
    let ops = spec_init_ops(period_ticks);
    assert(ops.drop_first() =~= ops.subrange(1, 9));
    assert(ops.subrange(1, 9).drop_first() =~= ops.subrange(2, 9));
    assert(ops.subrange(2, 9).drop_first() =~= ops.subrange(3, 9));
    assert(ops.subrange(3, 9).drop_first() =~= ops.subrange(4, 9));
    assert(ops.subrange(4, 9).drop_first() =~= ops.subrange(5, 9));
    assert(ops.subrange(5, 9).drop_first() =~= ops.subrange(6, 9));
    assert(ops.subrange(6, 9).drop_first() =~= ops.subrange(7, 9));
    assert(ops.subrange(7, 9).drop_first() =~= ops.subrange(8, 9));
    assert(ops.subrange(8, 9).drop_first() =~= Seq::<TimerOp>::empty());
}

/// Restarting the count sets the alarm to `ticks`, leaves the timer running
/// and armed with no fired alarm pending, and keeps the counting mode, the
/// load value and the counter as they were.
pub proof fn lemma_start_sets_alarm(r: TimerRegs, ticks: u32)
    ensures
        spec_run(r, spec_start_ops(ticks)) == (TimerRegs {
            enabled: true,
            alarm_enabled: true,
            alarm_lo: ticks,
            alarm_hi: 0,
            interrupt_pending: false,
            ..r
        }),
{
    reveal_with_fuel(spec_run, 6);
    let ops = spec_start_ops(ticks);
    assert(ops.drop_first() =~= ops.subrange(1, 5));
    assert(ops.subrange(1, 5).drop_first() =~= ops.subrange(2, 5));
    assert(ops.subrange(2, 5).drop_first() =~= ops.subrange(3, 5));
    assert(ops.subrange(3, 5).drop_first() =~= ops.subrange(4, 5));
    assert(ops.subrange(4, 5).drop_first() =~= Seq::<TimerOp>::empty());
}

/// The timer stays periodic: a set-up timer whose alarm fires and is then
/// acknowledged is back in exactly its set-up state, counting from zero
/// with the alarm armed and nothing pending.
pub proof fn lemma_timer_stays_periodic(period_ticks: u32)
    ensures
        spec_run(spec_fire(spec_configured(period_ticks)), spec_wait_ops()) == spec_configured(period_ticks),
{
    reveal_with_fuel(spec_run, 3);
    let ops = spec_wait_ops();
    assert(ops.drop_first() =~= seq![TimerOp::Arm]);
    assert(seq![TimerOp::Arm].drop_first() =~= Seq::<TimerOp>::empty());
}

/// Acknowledging a fired alarm clears the flag and re-arms the alarm, and
/// changes nothing else.
pub proof fn lemma_wait_rearms(r: TimerRegs)
    ensures
        spec_run(r, spec_wait_ops()) == (TimerRegs { interrupt_pending: false, alarm_enabled: true, ..r }),
{
    reveal_with_fuel(spec_run, 3);
    let ops = spec_wait_ops();
    assert(ops.drop_first() =~= seq![TimerOp::Arm]);
    assert(seq![TimerOp::Arm].drop_first() =~= Seq::<TimerOp>::empty());
}

/// With the 80 MHz clock divided by 2, one count lasts 25 ns, the
/// `WS2812_TICKS` period lasts 325 ns (about 3.08 MHz), and a bit of three
/// periods lasts 975 ns, inside the strip's 650 ns to 1850 ns bit window.
pub proof fn lemma_ws2812_timing()
    ensures
        spec_period_ps(APB_CLOCK_HZ as int, TIMER_DIVIDER as int, 1) == 25_000,
        spec_period_ps(APB_CLOCK_HZ as int, TIMER_DIVIDER as int, WS2812_TICKS as int) == 325_000,
        PERIODS_PER_BIT * spec_period_ps(APB_CLOCK_HZ as int, TIMER_DIVIDER as int, WS2812_TICKS as int) == 975_000,
        650_000 <= PERIODS_PER_BIT * spec_period_ps(APB_CLOCK_HZ as int, TIMER_DIVIDER as int, WS2812_TICKS as int) <= 1_850_000,
{
}

} // verus!
