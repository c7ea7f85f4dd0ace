use wpe_launcher::launch::{choose_launch_path, Action, LaunchPath, LaunchPolicy, Orchestrator, Phase, WaitPolicy};

#[test]
fn waits_for_platform_then_stops_renderer() {
    let mut o = Orchestrator::new(1, LaunchPolicy::AutoDetect, WaitPolicy::Unbounded);
    assert_eq!(o.step(false), Action::SleepCheckPlatform);
    assert_eq!(o.step(false), Action::SleepCheckPlatform);
    assert_eq!(o.step(true), Action::StopCheckRenderer);
    assert_eq!(o.phase, Phase::Stopping);
}

#[test]
fn stop_is_sent_once_per_running_poll() {
    for n in 0..5usize {
        let mut o = Orchestrator::new(1, LaunchPolicy::AutoDetect, WaitPolicy::Unbounded);
        o.step(true);
        let mut stops = 0;
        let mut polls = 0;
        loop {
            let running = polls < n;
            polls += 1;
            match o.step(running) {
                Action::StopSleepCheckRenderer => stops += 1,
                Action::BindCheckRenderer => break,
                other => panic!("unexpected {:?}", other),
            }
        }
        assert_eq!(stops, n);
        assert_eq!(polls, n + 1);
        assert_eq!(o.phase, Phase::Launching { index: 0 });
    }
}

#[test]
fn first_item_through_platform_later_ones_direct() {
    let mut o = Orchestrator::new(3, LaunchPolicy::AutoDetect, WaitPolicy::Unbounded);
    o.step(true);
    o.step(false);
    assert_eq!(o.step(false), Action::Launch { index: 0, path: LaunchPath::Platform });
    assert_eq!(o.step(true), Action::CheckRenderer);
    assert_eq!(o.step(true), Action::Launch { index: 1, path: LaunchPath::Direct });
    assert_eq!(o.step(false), Action::SleepCheckWindow { index: 1 });
    assert_eq!(o.step(true), Action::CheckRenderer);
    assert_eq!(o.step(true), Action::Launch { index: 2, path: LaunchPath::Direct });
    assert_eq!(o.step(true), Action::FinalStop);
    assert!(o.is_finished());
    assert_eq!(o.phase, Phase::Done);
    assert_eq!(o.step(true), Action::Idle);
}

#[test]
fn always_direct_policy() {
    assert_eq!(choose_launch_path(LaunchPolicy::AlwaysDirect, false), LaunchPath::Direct);
    assert_eq!(choose_launch_path(LaunchPolicy::AutoDetect, false), LaunchPath::Platform);
    assert_eq!(choose_launch_path(LaunchPolicy::AutoDetect, true), LaunchPath::Direct);
}

#[test]
fn bounded_wait_times_out_within_one_interval() {
    let bound: u32 = 20_000;
    let mut o = Orchestrator::new(2, LaunchPolicy::AutoDetect, WaitPolicy::Bounded(bound));
    o.step(true);
    o.step(false);
    o.step(false);
    let mut waited: u64 = 0;
    loop {
        match o.step(false) {
            Action::SleepCheckWindow { index: 0 } => waited += 100,
            Action::FailTimeout { index: 0 } => break,
            other => panic!("unexpected {:?}", other),
        }
    }
    assert!(waited >= bound as u64);
    assert!(waited < bound as u64 + 100);
    assert_eq!(o.phase, Phase::TimedOut { index: 0 });
    assert!(o.is_finished());
}

#[test]
fn bounded_wait_with_uneven_bound() {
    let mut o = Orchestrator::new(1, LaunchPolicy::AutoDetect, WaitPolicy::Bounded(250));
    o.phase = Phase::AwaitingWindow { index: 0, waited_ms: 0 };
    let mut sleeps: u64 = 0;
    while o.step(false) == (Action::SleepCheckWindow { index: 0 }) {
        sleeps += 1;
    }
    assert_eq!(sleeps, 3);
}

#[test]
fn unbounded_wait_never_times_out() {
    let mut o = Orchestrator::new(1, LaunchPolicy::AutoDetect, WaitPolicy::Unbounded);
    o.phase = Phase::AwaitingWindow { index: 0, waited_ms: 0 };
    for _ in 0..1000 {
        assert_eq!(o.step(false), Action::SleepCheckWindow { index: 0 });
    }
    assert_eq!(o.step(true), Action::FinalStop);
}

#[test]
fn no_items_goes_straight_to_final_stop() {
    let mut o = Orchestrator::new(0, LaunchPolicy::AutoDetect, WaitPolicy::Unbounded);
    o.step(true);
    assert_eq!(o.step(false), Action::BindCheckRenderer);
    assert_eq!(o.step(false), Action::FinalStop);
}
