use slability::clock::Moment;
use slability::state::State;
use std::time::{Duration, Instant};
use time::OffsetDateTime;

fn moments(n: u64) -> Vec<Moment> {
    let base = Instant::now();
    let mut out = Vec::new();
    for k in 0..n {
        out.push(Moment {
            wall: OffsetDateTime::UNIX_EPOCH + Duration::from_secs(1000 * (k + 1)),
            mono: base + Duration::from_millis(k + 1),
        });
    }
    out
}

fn run(samples: &[bool]) -> (State, Vec<Moment>) {
    let at = moments(samples.len() as u64);
    let mut s = State::new();
    for (k, b) in samples.iter().enumerate() {
        s.set_is_online_at(*b, at[k]);
    }
    (s, at)
}

#[test]
fn scenario_single_true() {
    let (s, at) = run(&[true]);
    assert_eq!(s.is_online(), Some(true));
    assert_eq!(s.restarts(), 0);
    assert_eq!(s.since(), Some(at[0].wall));
    assert_eq!(s.elapsed_reference(), Some(at[0].mono));
}

#[test]
fn scenario_true_true_false() {
    let (s, at) = run(&[true, true, false]);
    assert_eq!(s.is_online(), Some(false));
    assert_eq!(s.restarts(), 0);
    assert_eq!(s.since(), Some(at[2].wall));
    assert_eq!(s.elapsed_reference(), Some(at[2].mono));
}

#[test]
fn scenario_alternating() {
    let (s, at) = run(&[false, true, false, true]);
    assert_eq!(s.is_online(), Some(true));
    assert_eq!(s.restarts(), 2);
    assert_eq!(s.since(), Some(at[3].wall));
}

#[test]
fn scenario_no_samples() {
    let s = State::new();
    assert_eq!(s.is_online(), None);
    assert_eq!(s.since(), None);
    assert_eq!(s.elapsed_reference(), None);
    assert_eq!(s.restarts(), 0);
}

#[test]
fn first_sample_sets_state_without_restart() {
    for first in [false, true] {
        let (s, at) = run(&[first]);
        assert_eq!(s.is_online(), Some(first));
        assert_eq!(s.restarts(), 0);
        assert_eq!(s.since(), Some(at[0].wall));
    }
}

#[test]
fn restarts_count_rising_edges() {
    let samples = [true, false, false, true, true, false, true, false, false, false, true];
    let (s, _) = run(&samples);
    let rises = samples.windows(2).filter(|w| !w[0] && w[1]).count() as u32;
    assert_eq!(rises, 3);
    assert_eq!(s.restarts(), rises);
    assert_eq!(s.is_online(), Some(true));
}

#[test]
fn repeat_keeps_since() {
    let (s, at) = run(&[false, false, false]);
    assert_eq!(s.since(), Some(at[0].wall));
    assert_eq!(s.elapsed_reference(), Some(at[0].mono));
    assert_eq!(s.restarts(), 0);
}

#[test]
fn change_moves_since() {
    let (s, at) = run(&[true, false]);
    assert_eq!(s.since(), Some(at[1].wall));
    let (s, at) = run(&[false, true]);
    assert_eq!(s.since(), Some(at[1].wall));
    assert_eq!(s.restarts(), 1);
}

#[test]
fn online_and_offline_views() {
    let (s, at) = run(&[true]);
    assert_eq!(s.last_online(), Some(at[0].wall));
    assert_eq!(s.elapsed_online(), Some(at[0].mono));
    assert_eq!(s.last_offline(), None);
    assert_eq!(s.elapsed_offline(), None);
    let (s, at) = run(&[true, false]);
    assert_eq!(s.last_online(), None);
    assert_eq!(s.elapsed_online(), None);
    assert_eq!(s.last_offline(), Some(at[1].wall));
    assert_eq!(s.elapsed_offline(), Some(at[1].mono));
    let s = State::new();
    assert_eq!(s.last_online(), None);
    assert_eq!(s.last_offline(), None);
}

#[test]
fn sample_now_sets_times() {
    let mut s = State::new();
    s.set_is_online(false);
    assert_eq!(s.is_online(), Some(false));
    assert!(s.since().is_some());
    assert!(s.elapsed_reference().is_some());
    s.set_is_online(true);
    assert_eq!(s.restarts(), 1);
}
