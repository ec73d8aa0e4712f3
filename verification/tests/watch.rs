use wasi_gpio::general::{ActiveLevel, Level, PinState};
use wasi_gpio::poll::{poll, Pollable};
use wasi_gpio::watch_event::{
    falling_watch, rising_watch, state_watch, WatchEventKey, WatchTaskState, WatchType, Watcher,
};

fn key(wt: WatchType, label: &str) -> WatchEventKey {
    WatchEventKey { watch_type: wt, pin_label: label.to_string() }
}

#[test]
fn watch_dedup_shares_one_session() {
    let mut w = Watcher::new();
    let (t1, spawned1) = w.watch_event(key(WatchType::High, "GPIO4"));
    assert!(spawned1);
    assert_eq!(w.spawned, 1);

    // A second watch for the same physical condition, before the first
    // fires, joins the same session: same trigger, no new task.
    let (t2, spawned2) = w.watch_event(key(WatchType::High, "GPIO4"));
    assert_eq!(t2, t1);
    assert!(!spawned2);
    assert_eq!(w.spawned, 1);
}

#[test]
fn distinct_conditions_get_distinct_sessions() {
    let mut w = Watcher::new();
    let (t1, s1) = w.watch_event(key(WatchType::High, "GPIO4"));
    let (t2, s2) = w.watch_event(key(WatchType::Low, "GPIO4"));
    let (t3, s3) = w.watch_event(key(WatchType::High, "GPIO5"));
    assert!(s1 && s2 && s3);
    assert!(t1 != t2 && t1 != t3 && t2 != t3);
    assert_eq!(w.spawned, 3);
}

#[test]
fn equivalent_logical_conditions_normalize_to_one_key() {
    // Watching Active on an active-low pin and watching Inactive on an
    // active-high pin are the same physical condition: physical Low.
    assert_eq!(state_watch(PinState::Active, ActiveLevel::ActiveLow), WatchType::Low);
    assert_eq!(state_watch(PinState::Inactive, ActiveLevel::ActiveHigh), WatchType::Low);

    let mut w = Watcher::new();
    let wt_a = state_watch(PinState::Active, ActiveLevel::ActiveLow);
    let wt_b = state_watch(PinState::Inactive, ActiveLevel::ActiveHigh);
    let (t1, s1) = w.watch_event(key(wt_a, "GPIO4"));
    let (t2, s2) = w.watch_event(key(wt_b, "GPIO4"));
    assert_eq!(t1, t2);
    assert!(s1);
    assert!(!s2);
    assert_eq!(w.spawned, 1);
}

#[test]
fn complete_fires_trigger_and_reopens_key() {
    let mut w = Watcher::new();
    let k = key(WatchType::Rising, "GPIO4");
    let (t1, _) = w.watch_event(k.duplicate());
    assert!(!w.trigger_ready(t1));

    w.complete(&k);
    assert!(w.trigger_ready(t1));

    // The key is open again: a fresh session with a fresh, unfired trigger.
    let (t2, spawned) = w.watch_event(k.duplicate());
    assert!(spawned);
    assert_ne!(t2, t1);
    assert!(!w.trigger_ready(t2));
    assert_eq!(w.spawned, 2);

    // The fired trigger outlives its registry entry.
    assert!(w.trigger_ready(t1));
}

#[test]
fn complete_without_session_changes_nothing() {
    let mut w = Watcher::new();
    let (t1, _) = w.watch_event(key(WatchType::High, "GPIO4"));
    w.complete(&key(WatchType::Low, "GPIO9"));
    assert!(!w.trigger_ready(t1));
    assert_eq!(w.spawned, 1);
}

#[test]
fn edge_normalization_follows_polarity() {
    assert_eq!(rising_watch(ActiveLevel::ActiveHigh), WatchType::Rising);
    assert_eq!(rising_watch(ActiveLevel::ActiveLow), WatchType::Falling);
    assert_eq!(falling_watch(ActiveLevel::ActiveHigh), WatchType::Falling);
    assert_eq!(falling_watch(ActiveLevel::ActiveLow), WatchType::Rising);
}

#[test]
fn watch_type_not_swaps_levels_and_edges() {
    assert_eq!(WatchType::High.not(), WatchType::Low);
    assert_eq!(WatchType::Low.not(), WatchType::High);
    assert_eq!(WatchType::Rising.not(), WatchType::Falling);
    assert_eq!(WatchType::Falling.not(), WatchType::Rising);
}

#[test]
fn rising_edge_does_not_fire_while_high() {
    // Started while the line is already high: high samples never fire it.
    let mut ts = WatchTaskState::start(WatchType::Rising);
    assert!(!ts.step(Level::High));
    assert!(!ts.step(Level::High));
    // Once low is observed, the next high fires.
    assert!(!ts.step(Level::Low));
    assert!(ts.step(Level::High));
}

#[test]
fn rising_edge_arming_sample_does_not_fire() {
    let mut ts = WatchTaskState::start(WatchType::Rising);
    assert!(!ts.step(Level::Low));
    assert!(!ts.step(Level::Low));
    assert!(ts.step(Level::High));
}

#[test]
fn falling_edge_needs_high_then_low() {
    let mut ts = WatchTaskState::start(WatchType::Falling);
    assert!(!ts.step(Level::Low));
    assert!(!ts.step(Level::High));
    assert!(ts.step(Level::Low));
}

#[test]
fn level_watch_fires_immediately_on_its_level() {
    let mut ts = WatchTaskState::start(WatchType::High);
    assert!(ts.step(Level::High));

    let mut ts = WatchTaskState::start(WatchType::High);
    assert!(!ts.step(Level::Low));
    assert!(ts.step(Level::High));

    let mut ts = WatchTaskState::start(WatchType::Low);
    assert!(ts.step(Level::Low));
}

#[test]
fn pollable_reads_its_trigger() {
    let mut w = Watcher::new();
    let k = key(WatchType::High, "GPIO4");
    let (t, _) = w.watch_event(k.duplicate());
    let p = Pollable::new(t);
    assert!(!p.ready(&w));
    w.complete(&k);
    assert!(p.ready(&w));
}

#[test]
fn poll_reports_ready_indices_in_order() {
    let mut w = Watcher::new();
    let ka = key(WatchType::High, "GPIO4");
    let kb = key(WatchType::Low, "GPIO4");
    let kc = key(WatchType::High, "GPIO5");
    let (ta, _) = w.watch_event(ka.duplicate());
    let (tb, _) = w.watch_event(kb.duplicate());
    let (tc, _) = w.watch_event(kc.duplicate());

    let ps = vec![Pollable::new(ta), Pollable::new(tb), Pollable::new(tc)];
    assert_eq!(poll(&w, &ps), Vec::<u32>::new());

    w.complete(&ka);
    w.complete(&kc);
    assert_eq!(poll(&w, &ps), vec![0, 2]);

    w.complete(&kb);
    assert_eq!(poll(&w, &ps), vec![0, 1, 2]);
}

#[test]
fn key_equality_is_condition_and_label() {
    let a = key(WatchType::High, "GPIO4");
    assert!(a.key_eq(&key(WatchType::High, "GPIO4")));
    assert!(!a.key_eq(&key(WatchType::Low, "GPIO4")));
    assert!(!a.key_eq(&key(WatchType::High, "GPIO5")));
}
