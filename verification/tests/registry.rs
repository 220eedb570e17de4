use std::cell::Cell;
use std::cell::RefCell;

use codex_slow_mode::registry::{
    disable, enable, record_rate_limits, PacerCommand, PacerOrder, Registry,
};
use codex_slow_mode::{cancel_waits, note_parent, reset_for_tests, shutdown_thread};

/// A pacer that remembers what it was told.
struct FakePacer {
    name: &'static str,
    enabled: Cell<bool>,
    enabled_with: RefCell<Option<Option<u32>>>,
    observed: RefCell<Vec<u32>>,
    cancels: Cell<u32>,
    shut: Cell<bool>,
}

impl FakePacer {
    fn new(name: &'static str) -> Self {
        FakePacer {
            name,
            enabled: Cell::new(false),
            enabled_with: RefCell::new(None),
            observed: RefCell::new(Vec::new()),
            cancels: Cell::new(0),
            shut: Cell::new(false),
        }
    }
}

impl FakePacer {
    fn carry_out(&self, command: PacerCommand<u32>) {
        match command {
            PacerCommand::Enable { limits } => {
                self.enabled.set(true);
                *self.enabled_with.borrow_mut() = Some(limits);
            }
            PacerCommand::Disable => self.enabled.set(false),
            PacerCommand::Observe { snapshot } => self.observed.borrow_mut().push(snapshot),
            PacerCommand::CancelWaits => self.cancels.set(self.cancels.get() + 1),
            PacerCommand::Shutdown => self.shut.set(true),
        }
    }
}

/// Carries out an order and hands back the pacer it reached.
fn apply<'a>(order: PacerOrder<'a, FakePacer, u32>) -> &'a FakePacer {
    let pacer = order.pacer;
    pacer.carry_out(order.command);
    pacer
}

fn enabled(registry: &Registry<FakePacer, u32>, thread: &str) -> bool {
    registry
        .resolve_pacer(thread)
        .map(|pacer| pacer.enabled.get())
        .unwrap_or(false)
}

#[test]
fn child_thread_uses_the_parent_pacer() {
    let mut registry: Registry<FakePacer, u32> = Registry::new();
    reset_for_tests(&mut registry);
    apply(enable(&mut registry, "root-thread", || FakePacer::new("root")));
    note_parent(&mut registry, "child-thread", Some("root-thread"));
    let parent = enabled(&registry, "root-thread");
    let child_pacer_enabled = enabled(&registry, "child-thread");
    assert!(parent);
    assert!(child_pacer_enabled);
    disable(&registry, "root-thread").map(apply);
    assert!(!enabled(&registry, "child-thread"));
    reset_for_tests(&mut registry);
    assert!(registry.resolve_pacer("root-thread").is_none());
}

#[test]
fn enable_keeps_an_existing_pacer_and_passes_the_latest_limits() {
    let mut registry: Registry<FakePacer, u32> = Registry::new();
    assert!(record_rate_limits(&mut registry, "t", 7).is_none());
    let first = apply(enable(&mut registry, "t", || FakePacer::new("first")));
    assert_eq!(first.name, "first");
    assert_eq!(*first.enabled_with.borrow(), Some(Some(7)));
    let again = apply(enable(&mut registry, "t", || FakePacer::new("second")));
    assert_eq!(again.name, "first");
    let observed = apply(record_rate_limits(&mut registry, "t", 9).expect("pacer"));
    assert_eq!(observed.observed.borrow().as_slice(), &[9]);
    assert_eq!(registry.node("t").expect("node").limits, Some(9));
}

#[test]
fn limits_reach_the_governing_parent_pacer() {
    let mut registry: Registry<FakePacer, u32> = Registry::new();
    apply(enable(&mut registry, "root", || FakePacer::new("root")));
    note_parent(&mut registry, "child", Some("root"));
    let pacer = apply(record_rate_limits(&mut registry, "child", 42).expect("parent pacer"));
    assert_eq!(pacer.name, "root");
    assert_eq!(pacer.observed.borrow().as_slice(), &[42]);
    // The child remembers its own snapshot.
    assert_eq!(registry.node("child").expect("node").limits, Some(42));
    assert_eq!(registry.node("root").expect("node").limits, None);
}

#[test]
fn self_and_empty_parents_are_ignored() {
    let mut registry: Registry<FakePacer, u32> = Registry::new();
    note_parent(&mut registry, "a", Some("a"));
    note_parent(&mut registry, "b", Some(""));
    note_parent(&mut registry, "c", None);
    assert!(registry.node("a").is_none());
    assert!(registry.node("b").is_none());
    assert!(registry.node("c").is_none());
    note_parent(&mut registry, "d", Some("e"));
    assert_eq!(
        registry.node("d").expect("node").parent.as_deref(),
        Some("e")
    );
}

#[test]
fn own_pacer_wins_over_the_parent() {
    let mut registry: Registry<FakePacer, u32> = Registry::new();
    apply(enable(&mut registry, "root", || FakePacer::new("root")));
    apply(enable(&mut registry, "child", || FakePacer::new("child")));
    note_parent(&mut registry, "child", Some("root"));
    assert_eq!(registry.resolve_pacer("child").expect("pacer").name, "child");
}

#[test]
fn resolution_stops_after_sixteen_threads() {
    let mut registry: Registry<FakePacer, u32> = Registry::new();
    apply(enable(&mut registry, "t0", || FakePacer::new("t0")));
    for i in 1..=16 {
        let child = format!("t{i}");
        let parent = format!("t{}", i - 1);
        note_parent(&mut registry, &child, Some(&parent));
    }
    assert_eq!(registry.resolve_pacer("t15").expect("pacer").name, "t0");
    assert!(registry.resolve_pacer("t16").is_none());
}

#[test]
fn cycles_end_without_a_pacer() {
    let mut registry: Registry<FakePacer, u32> = Registry::new();
    note_parent(&mut registry, "x", Some("y"));
    note_parent(&mut registry, "y", Some("x"));
    assert!(registry.resolve_pacer("x").is_none());
    assert!(registry.resolve_pacer("unknown").is_none());
}

#[test]
fn interrupts_and_shutdown_reach_the_governing_pacer() {
    let mut registry: Registry<FakePacer, u32> = Registry::new();
    assert!(cancel_waits(&registry, "root").is_none());
    apply(enable(&mut registry, "root", || FakePacer::new("root")));
    note_parent(&mut registry, "child", Some("root"));
    let pacer = apply(cancel_waits(&registry, "child").expect("pacer"));
    assert_eq!(pacer.cancels.get(), 1);
    assert!(pacer.enabled.get());
    let pacer = apply(shutdown_thread(&registry, "child").expect("pacer"));
    assert!(pacer.shut.get());
}

#[test]
fn recording_limits_does_not_move_pacers() {
    let mut registry: Registry<FakePacer, u32> = Registry::new();
    apply(enable(&mut registry, "root", || FakePacer::new("root")));
    note_parent(&mut registry, "child", Some("root"));
    record_rate_limits(&mut registry, "child", 1).map(apply);
    assert!(record_rate_limits(&mut registry, "stranger", 2).is_none());
    assert_eq!(registry.resolve_pacer("child").expect("pacer").name, "root");
    assert!(registry.resolve_pacer("stranger").is_none());
}

#[test]
fn orders_name_the_step() {
    let mut registry: Registry<FakePacer, u32> = Registry::new();
    record_rate_limits(&mut registry, "root", 5);
    let on = enable(&mut registry, "root", || FakePacer::new("root"));
    assert!(matches!(on.command, PacerCommand::Enable { limits: Some(5) }));
    note_parent(&mut registry, "child", Some("root"));
    let off = disable(&registry, "child").expect("pacer");
    assert_eq!(off.pacer.name, "root");
    assert!(matches!(off.command, PacerCommand::Disable));
    let stop = shutdown_thread(&registry, "child").expect("pacer");
    assert!(matches!(stop.command, PacerCommand::Shutdown));
    let interrupt = cancel_waits(&registry, "root").expect("pacer");
    assert!(matches!(interrupt.command, PacerCommand::CancelWaits));
    let seen = record_rate_limits(&mut registry, "child", 6).expect("pacer");
    assert!(matches!(seen.command, PacerCommand::Observe { snapshot: 6 }));
    assert!(disable(&registry, "stranger").is_none());
}
