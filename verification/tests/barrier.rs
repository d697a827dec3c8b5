use loadgen::barrier::{probe_step, Barrier, ProbeAction};
use loadgen::config::{
    is_overrun, BindScope, ConfigError, HandlerKind, ListenerPlan, Mode, RunConfig,
    BURST_WINDOW_MS, PROBE_RETRY_MS,
};

fn config(size: usize, local: bool, honest: bool) -> RunConfig {
    RunConfig { size, rate: 10, peers: 2, port: 4242, local, honest }
}

#[test]
fn empty_barrier_is_complete_at_once() {
    let b = Barrier::new(0);
    assert_eq!(b.peers(), 0);
    assert!(b.is_complete());
}

#[test]
fn barrier_waits_for_every_peer() {
    let mut b = Barrier::new(3);
    assert_eq!(b.peers(), 3);
    assert!(!b.is_complete());
    assert_eq!(b.record(0, true), Some(ProbeAction::Done));
    assert!(!b.is_complete());
    assert_eq!(b.record(2, false), Some(ProbeAction::Retry { delay_ms: 10 }));
    assert_eq!(b.record(2, true), Some(ProbeAction::Done));
    assert!(!b.is_complete());
    assert!(b.is_reached(0));
    assert!(!b.is_reached(1));
    assert!(b.is_reached(2));
    assert_eq!(b.record(1, true), Some(ProbeAction::Done));
    assert!(b.is_complete());
}

#[test]
fn silent_peer_keeps_barrier_open() {
    let mut b = Barrier::new(2);
    assert_eq!(b.record(0, true), Some(ProbeAction::Done));
    for _ in 0..1000 {
        assert_eq!(b.record(1, false), Some(ProbeAction::Retry { delay_ms: 10 }));
        assert!(!b.is_complete());
    }
}

#[test]
fn reached_peer_stays_reached() {
    let mut b = Barrier::new(1);
    assert_eq!(b.record(0, true), Some(ProbeAction::Done));
    assert_eq!(b.record(0, false), Some(ProbeAction::Retry { delay_ms: 10 }));
    assert!(b.is_reached(0));
    assert!(b.is_complete());
}

#[test]
fn unlisted_peer_is_ignored() {
    let mut b = Barrier::new(2);
    assert_eq!(b.record(2, true), None);
    assert_eq!(b.record(usize::MAX, true), None);
    assert!(!b.is_reached(2));
    assert!(!b.is_reached(0));
    assert!(!b.is_complete());
}

#[test]
fn probe_retries_after_fixed_delay() {
    assert_eq!(PROBE_RETRY_MS, 10);
    assert_eq!(probe_step(false), ProbeAction::Retry { delay_ms: 10 });
    assert_eq!(probe_step(true), ProbeAction::Done);
}

#[test]
fn overrun_is_strictly_beyond_window() {
    assert_eq!(BURST_WINDOW_MS, 1000);
    assert!(!is_overrun(0));
    assert!(!is_overrun(999));
    assert!(!is_overrun(1000));
    assert!(is_overrun(1001));
    assert!(is_overrun(u128::MAX));
}

#[test]
fn small_size_is_refused() {
    let c = config(4, true, true);
    assert_eq!(c.validate(), Err(ConfigError::PayloadTooSmall));
    assert_eq!(
        ConfigError::PayloadTooSmall.message(),
        "Transaction size must be at least 8 bytes"
    );
}

#[test]
fn size_validation_boundary() {
    assert_eq!(config(0, true, true).validate(), Err(ConfigError::PayloadTooSmall));
    assert_eq!(config(7, true, true).validate(), Err(ConfigError::PayloadTooSmall));
    assert_eq!(config(8, true, true).validate(), Ok(()));
    assert_eq!(config(usize::MAX, false, false).validate(), Ok(()));
}

#[test]
fn mode_follows_honest_flag() {
    assert_eq!(config(8, true, true).mode(), Mode::Sample);
    assert_eq!(config(8, true, false).mode(), Mode::Filler);
}

#[test]
fn listener_plan_follows_flags() {
    assert_eq!(
        config(8, true, true).listener(),
        ListenerPlan { scope: BindScope::Loopback, port: 4242, handler: HandlerKind::Verbose }
    );
    assert_eq!(
        config(8, false, false).listener(),
        ListenerPlan { scope: BindScope::AllInterfaces, port: 4242, handler: HandlerKind::Silent }
    );
    assert_eq!(
        config(8, false, true).listener(),
        ListenerPlan { scope: BindScope::AllInterfaces, port: 4242, handler: HandlerKind::Verbose }
    );
}

#[test]
fn bind_scope_octets() {
    assert_eq!(BindScope::Loopback.octets(), (127, 0, 0, 1));
    assert_eq!(BindScope::AllInterfaces.octets(), (0, 0, 0, 0));
}
