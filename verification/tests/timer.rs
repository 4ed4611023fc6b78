use firmware::ws2812::{TimerClock, TimerOp, TimerRegs, Ws2812Timer, WS2812_TICKS};

fn scrambled() -> TimerRegs {
    TimerRegs {
        enabled: true,
        alarm_enabled: false,
        clock: TimerClock { count_up: false, auto_reload: false, use_xtal: true, divider: 7 },
        load_lo: 99,
        load_hi: 5,
        alarm_lo: 1,
        alarm_hi: 2,
        counter_lo: 3,
        counter_hi: 4,
        interrupt_pending: true,
    }
}

fn configured(period: u32) -> TimerRegs {
    TimerRegs {
        enabled: true,
        alarm_enabled: true,
        clock: TimerClock { count_up: true, auto_reload: true, use_xtal: false, divider: 2 },
        load_lo: 0,
        load_hi: 0,
        alarm_lo: period,
        alarm_hi: 0,
        counter_lo: 0,
        counter_hi: 0,
        interrupt_pending: false,
    }
}

#[test]
fn new_programs_periodic_40mhz_timer() {
    let (_t, ops) = Ws2812Timer::new(WS2812_TICKS);
    assert_eq!(
        ops,
        vec![
            TimerOp::Halt,
            TimerOp::ClearInterrupt,
            TimerOp::SetLoadLo(0),
            TimerOp::SetLoadHi(0),
            TimerOp::Reload,
            TimerOp::SetAlarmLo(13),
            TimerOp::SetAlarmHi(0),
            TimerOp::Configure(TimerClock { count_up: true, auto_reload: true, use_xtal: false, divider: 2 }),
            TimerOp::Run,
        ]
    );
}

#[test]
fn init_ends_in_same_state_from_any_start() {
    let (_t, ops) = Ws2812Timer::new(13);
    let mut a = scrambled();
    a.run(&ops);
    let mut b = configured(500);
    b.run(&ops);
    assert_eq!(a, configured(13));
    assert_eq!(b, configured(13));
}

#[test]
fn start_sets_alarm_and_keeps_mode() {
    let (mut t, _) = Ws2812Timer::new(13);
    let ops = t.start(40);
    assert_eq!(
        ops,
        vec![TimerOp::Halt, TimerOp::ClearInterrupt, TimerOp::SetAlarmLo(40), TimerOp::SetAlarmHi(0), TimerOp::Run]
    );
    let mut r = scrambled();
    r.run(&ops);
    let mut want = scrambled();
    want.enabled = true;
    want.alarm_enabled = true;
    want.alarm_lo = 40;
    want.alarm_hi = 0;
    want.interrupt_pending = false;
    assert_eq!(r, want);
}

#[test]
fn single_operations() {
    let mut r = configured(13);
    r.apply(TimerOp::Halt);
    assert!(!r.enabled && !r.alarm_enabled);
    r.apply(TimerOp::SetLoadLo(7));
    r.apply(TimerOp::SetLoadHi(8));
    r.apply(TimerOp::Reload);
    assert_eq!((r.counter_lo, r.counter_hi), (7, 8));
    r.apply(TimerOp::Run);
    assert!(r.enabled && r.alarm_enabled);
}

#[test]
fn ws2812_timing_constants() {
    // 80 MHz / 2 = 40 MHz, 25 ns per count; 13 counts = 325 ns; 3 periods = 975 ns.
    let ps_per_count = 1_000_000_000_000u64 * firmware::ws2812::TIMER_DIVIDER as u64 / firmware::ws2812::APB_CLOCK_HZ;
    assert_eq!(ps_per_count, 25_000);
    assert_eq!(ps_per_count * WS2812_TICKS as u64, 325_000);
    assert_eq!(firmware::ws2812::PERIODS_PER_BIT * ps_per_count * WS2812_TICKS as u64, 975_000);
}

#[test]
fn wait_acknowledges_and_rearms() {
    let (mut t, init) = Ws2812Timer::new(13);
    let ops = t.wait();
    assert_eq!(ops, vec![TimerOp::ClearInterrupt, TimerOp::Arm]);
    let mut r = scrambled();
    r.run(&init);
    r.apply(TimerOp::SetLoadLo(0));
    r.counter_lo = 9;
    r.fire();
    assert!(r.interrupt_pending && !r.alarm_enabled);
    assert_eq!((r.counter_lo, r.counter_hi), (0, 0));
    r.run(&ops);
    assert_eq!(r, configured(13));
    // A second period behaves the same.
    r.fire();
    r.run(&t.wait());
    assert_eq!(r, configured(13));
}

#[test]
fn fire_without_auto_reload_keeps_counter() {
    let mut r = scrambled();
    r.fire();
    assert_eq!((r.counter_lo, r.counter_hi), (3, 4));
    assert!(r.interrupt_pending && !r.alarm_enabled);
    r.run(&vec![TimerOp::ClearInterrupt, TimerOp::Arm]);
    assert!(!r.interrupt_pending && r.alarm_enabled);
}
