use vstd::prelude::*;

use crate::POLL_INTERVAL_MS;

verus! {

/// How items are launched once the renderer already runs.
#[derive(Clone, Copy, Debug, PartialEq, Eq, Structural)]
pub enum LaunchPolicy {
    /// Through the platform while no renderer runs, directly after that.
    AutoDetect,
    /// Always directly through the compatibility runtime.
    AlwaysDirect,
}

/// How long to wait for an item's window.
#[derive(Clone, Copy, Debug, PartialEq, Eq, Structural)]
pub enum WaitPolicy {
    /// Give up once this many milliseconds have been waited.
    Bounded(u32),
    /// Wait as long as it takes.
    Unbounded,
}

/// The way one item is launched.
#[derive(Clone, Copy, Debug, PartialEq, Eq, Structural)]
pub enum LaunchPath {
    /// The platform's own application-launch command.
    Platform,
    /// The compatibility runtime, run on the renderer's executable.
    Direct,
}

pub open spec fn launch_path_of(policy: LaunchPolicy, renderer_running: bool) -> LaunchPath {
    match policy {
        LaunchPolicy::AutoDetect => if renderer_running {
            LaunchPath::Direct
        } else {
            LaunchPath::Platform
        },
        LaunchPolicy::AlwaysDirect => LaunchPath::Direct,
    }
}

/// Picks the way to launch the next item: the platform's launcher does the
/// first-time setup, so it is used only while no renderer runs.
pub fn choose_launch_path(policy: LaunchPolicy, renderer_running: bool) -> (r: LaunchPath)
    ensures
        r == launch_path_of(policy, renderer_running),
{
    match policy {
        LaunchPolicy::AutoDetect => if renderer_running {
            LaunchPath::Direct
        } else {
            LaunchPath::Platform
        },
        LaunchPolicy::AlwaysDirect => LaunchPath::Direct,
    }
}

/// Where a run of the launcher stands.
#[derive(Clone, Copy, Debug, PartialEq, Eq, Structural)]
pub enum Phase {
    /// Waiting for the platform's client to run.
    AwaitingPlatform,
    /// Stopping a renderer that may still run.
    Stopping,
    /// About to launch item `index`, given whether a renderer runs.
    Launching { index: usize },
    /// Waiting for the window of item `index`; `waited_ms` counts the time
    /// waited under a bounded wait.
    AwaitingWindow { index: usize, waited_ms: u64 },
    /// Every item is up and the renderer has been told to stop rendering.
    Done,
    /// The window of item `index` did not appear in time.
    TimedOut { index: usize },
}

/// What the driver does next. Every action but the last three ends with one
/// query, whose answer is the observation handed to the next step.
#[derive(Clone, Copy, Debug, PartialEq, Eq, Structural)]
pub enum Action {
    /// Wait one interval, then ask whether the platform's client runs.
    SleepCheckPlatform,
    /// Send the platform's stop command for the renderer, then ask whether a
    /// renderer runs.
    StopCheckRenderer,
    /// Send the stop command, wait one interval, then ask whether a renderer runs.
    StopSleepCheckRenderer,
    /// Bind the compatibility tool to the renderer, then ask whether a renderer runs.
    BindCheckRenderer,
    /// Ask whether a renderer runs.
    CheckRenderer,
    /// Launch item `index` by `path`, then ask whether its window exists.
    Launch { index: usize, path: LaunchPath },
    /// Wait one interval, then ask whether the window of item `index` exists.
    SleepCheckWindow { index: usize },
    /// Send the renderer's own stop control; the run is over.
    FinalStop,
    /// The window of item `index` did not appear in time; the run failed.
    FailTimeout { index: usize },
    /// The run is over; nothing is left to do.
    Idle,
}

/// The decisions of one run over `items` content items.
#[derive(Clone, Copy, Debug)]
pub struct Orchestrator {
    pub phase: Phase,
    pub items: usize,
    pub launch_policy: LaunchPolicy,
    pub wait_policy: WaitPolicy,
}

pub open spec fn with_phase(o: Orchestrator, phase: Phase) -> Orchestrator {
    Orchestrator { phase, items: o.items, launch_policy: o.launch_policy, wait_policy: o.wait_policy }
}

/// The next phase and action, given the answer to the last query.
pub open spec fn next(o: Orchestrator, observed: bool) -> (Phase, Action) {
    match o.phase {
        Phase::AwaitingPlatform => if observed {
            (Phase::Stopping, Action::StopCheckRenderer)
        } else {
            (Phase::AwaitingPlatform, Action::SleepCheckPlatform)
        },
        Phase::Stopping => if observed {
            (Phase::Stopping, Action::StopSleepCheckRenderer)
        } else {
            (Phase::Launching { index: 0 }, Action::BindCheckRenderer)
        },
        Phase::Launching { index } => if index < o.items {
            (
                Phase::AwaitingWindow { index, waited_ms: 0 },
                Action::Launch { index, path: launch_path_of(o.launch_policy, observed) },
            )
        } else {
            (Phase::Done, Action::FinalStop)
        },
        Phase::AwaitingWindow { index, waited_ms } => if observed {
            if index + 1 < o.items {
                (Phase::Launching { index: (index + 1) as usize }, Action::CheckRenderer)
            } else {
                (Phase::Done, Action::FinalStop)
            }
        } else {
            match o.wait_policy {
                WaitPolicy::Bounded(bound) => if waited_ms >= bound {
                    (Phase::TimedOut { index }, Action::FailTimeout { index })
                } else {
                    (
                        Phase::AwaitingWindow {
                            index,
                            waited_ms: (waited_ms + POLL_INTERVAL_MS) as u64,
                        },
                        Action::SleepCheckWindow { index },
                    )
                },
                WaitPolicy::Unbounded => (o.phase, Action::SleepCheckWindow { index }),
            }
        },
        Phase::Done => (o.phase, Action::Idle),
        Phase::TimedOut { .. } => (o.phase, Action::Idle),
    }
}

/// The phase reached and the actions taken over a sequence of observations.
pub open spec fn run(o: Orchestrator, observed: Seq<bool>) -> (Orchestrator, Seq<Action>)
    decreases observed.len(),
{
    if observed.len() == 0 {
        (o, seq![])
    } else {
        let (phase, a) = next(o, observed[0]);
        let (end, rest) = run(with_phase(o, phase), observed.drop_first());
        (end, seq![a] + rest)
    }
}

impl Orchestrator {
    /// Every item that a phase names is one of the run's items.
    pub open spec fn wf(&self) -> bool {
        match self.phase {
            Phase::Launching { index } => index <= self.items,
            Phase::AwaitingWindow { index, .. } => index < self.items,
            Phase::TimedOut { index } => index < self.items,
            _ => true,
        }
    }

    /// A run over `items` content items, waiting first for the platform's
    /// client; the driver starts by asking whether it runs.
    pub fn new(items: usize, launch_policy: LaunchPolicy, wait_policy: WaitPolicy) -> (r: Orchestrator)
        ensures
            r.phase == Phase::AwaitingPlatform,
            r.items == items,
            r.launch_policy == launch_policy,
            r.wait_policy == wait_policy,
            r.wf(),
    {
        Orchestrator { phase: Phase::AwaitingPlatform, items, launch_policy, wait_policy }
    }

    /// Whether the run is over.
    pub fn is_finished(&self) -> (r: bool)
        ensures
            r == (self.phase is Done || self.phase is TimedOut),
    {
        match self.phase {
            Phase::Done => true,
            Phase::TimedOut { .. } => true,
            _ => false,
        }
    }

    /// Takes the answer to the last query and says what to do next.
    pub fn step(&mut self, observed: bool) -> (a: Action)
        ensures
            *final(self) == with_phase(*old(self), next(*old(self), observed).0),
            a == next(*old(self), observed).1,
            old(self).wf() ==> final(self).wf(),
    {
        let (phase, a) = match self.phase {
            Phase::AwaitingPlatform => if observed {
                (Phase::Stopping, Action::StopCheckRenderer)
            } else {
                (Phase::AwaitingPlatform, Action::SleepCheckPlatform)
            },
            Phase::Stopping => if observed {
                (Phase::Stopping, Action::StopSleepCheckRenderer)
            } else {
                (Phase::Launching { index: 0 }, Action::BindCheckRenderer)
            },
            Phase::Launching { index } => if index < self.items {
                (
                    Phase::AwaitingWindow { index, waited_ms: 0 },
                    Action::Launch { index, path: choose_launch_path(self.launch_policy, observed) },
                )
            } else {
                (Phase::Done, Action::FinalStop)
            },
            Phase::AwaitingWindow { index, waited_ms } => if observed {
                if index < self.items && index + 1 < self.items {
                    (Phase::Launching { index: index + 1 }, Action::CheckRenderer)
                } else {
                    (Phase::Done, Action::FinalStop)
                }
            } else {
                match self.wait_policy {
                    WaitPolicy::Bounded(bound) => if waited_ms >= bound as u64 {
                        (Phase::TimedOut { index }, Action::FailTimeout { index })
                    } else {
                        (
                            Phase::AwaitingWindow { index, waited_ms: waited_ms + POLL_INTERVAL_MS },
                            Action::SleepCheckWindow { index },
                        )
                    },
                    WaitPolicy::Unbounded => (self.phase, Action::SleepCheckWindow { index }),
                }
            },
            Phase::Done => (self.phase, Action::Idle),
            Phase::TimedOut { .. } => (self.phase, Action::Idle),
        };
        self.phase = phase;
        a
    }
}

/// While a renderer is reported running the stop command is sent once per
/// poll; the first poll that finds none ends the stopping, after `n + 1` polls,
/// and leads to binding the tool and launching the first item.
pub proof fn lemma_stop_loop(o: Orchestrator, n: nat)
    requires
        o.phase == Phase::Stopping,
    ensures
        ({
            let (end, acts) = run(o, Seq::new(n + 1, |k: int| k < n));
            &&& acts.len() == n + 1
            &&& forall|k: int| 0 <= k < n ==> acts[k] == Action::StopSleepCheckRenderer
            &&& acts[n as int] == Action::BindCheckRenderer
            &&& end.phase == Phase::Launching { index: 0 }
        }),
    decreases n,
{
    reveal_with_fuel(run, 2);
    let obs = Seq::new(n + 1, |k: int| k < n);
    if n > 0 {
        let m = (n - 1) as nat;
        let rest = Seq::new(m + 1, |k: int| k < m);
        assert(obs.drop_first() =~= rest);
        assert(obs[0]);
        assert(with_phase(o, Phase::Stopping) == o);
        lemma_stop_loop(o, m);
        let (end, acts) = run(o, obs);
        let (end2, acts2) = run(o, rest);
        assert(acts == seq![Action::StopSleepCheckRenderer] + acts2);
        assert forall|k: int| 0 <= k < n implies acts[k] == Action::StopSleepCheckRenderer by {
            if k > 0 {
                assert(acts[k] == acts2[k - 1]);
            }
        }
        assert(acts[n as int] == acts2[m as int]);
    } else {
        assert(obs.drop_first() =~= Seq::<bool>::empty());
        assert(!obs[0]);
    }
}

/// With launches detected automatically, the platform's launcher is used
/// exactly when no renderer runs (the first item), and the compatibility
/// runtime directly when one already runs (every later item).
pub proof fn lemma_launch_path(o: Orchestrator, renderer_running: bool)
    requires
        o.launch_policy == LaunchPolicy::AutoDetect,
        o.phase is Launching,
        o.phase->Launching_index < o.items,
    ensures
        next(o, renderer_running).1 == (Action::Launch {
            index: o.phase->Launching_index,
            path: if renderer_running {
                LaunchPath::Direct
            } else {
                LaunchPath::Platform
            },
        }),
{
}

/// The number of polls that fail before a bounded wait of `bound`
/// milliseconds gives up.
pub open spec fn polls_before_timeout(bound: u32) -> nat {
    ((bound + POLL_INTERVAL_MS - 1) / POLL_INTERVAL_MS as int) as nat
}

proof fn lemma_timeout_from(o: Orchestrator, bound: u32, index: usize, m: nat)
    requires
        o.wait_policy == WaitPolicy::Bounded(bound),
        m <= polls_before_timeout(bound),
        o.phase == (Phase::AwaitingWindow { index, waited_ms: (m * POLL_INTERVAL_MS) as u64 }),
    ensures
        ({
            let k = polls_before_timeout(bound);
            let (end, acts) = run(o, Seq::new((k - m + 1) as nat, |i: int| false));
            &&& acts.len() == k - m + 1
            &&& forall|i: int| 0 <= i < k - m ==> acts[i] == Action::SleepCheckWindow { index }
            &&& acts[k - m] == Action::FailTimeout { index }
            &&& end.phase == Phase::TimedOut { index }
        }),
    decreases polls_before_timeout(bound) - m,
{
    let k = polls_before_timeout(bound);
    let obs = Seq::new((k - m + 1) as nat, |i: int| false);
    reveal_with_fuel(run, 2);
    assert(m * 100 <= k * 100) by (nonlinear_arith)
        requires m <= k;
    assert(k * 100 < bound + 100 && k * 100 >= bound) by (nonlinear_arith)
        requires k == (bound + 99) / 100, bound >= 0;
    if m < k {
        assert(m * 100 < bound) by (nonlinear_arith)
            requires m < k, k == (bound + 99) / 100, bound >= 0;
        assert(obs.drop_first() =~= Seq::new((k - (m + 1) + 1) as nat, |i: int| false));
        assert((m * 100 + 100) as u64 == ((m + 1) * 100) as u64) by (nonlinear_arith);
        lemma_timeout_from(with_phase(o, next(o, false).0), bound, index, m + 1);
    } else {
        assert(obs.drop_first() =~= Seq::<bool>::empty());
    }
}

/// A bounded wait on a window that never appears fails after the last of
/// `polls_before_timeout(bound)` waits: after no less than `bound` and less
/// than `bound` plus one interval.
pub proof fn lemma_bounded_wait_times_out(o: Orchestrator, bound: u32, index: usize)
    requires
        o.wait_policy == WaitPolicy::Bounded(bound),
        o.phase == (Phase::AwaitingWindow { index, waited_ms: 0 }),
    ensures
        ({
            let k = polls_before_timeout(bound);
            let (end, acts) = run(o, Seq::new(k + 1, |i: int| false));
            &&& acts.len() == k + 1
            &&& forall|i: int| 0 <= i < k ==> acts[i] == Action::SleepCheckWindow { index }
            &&& acts[k as int] == Action::FailTimeout { index }
            &&& end.phase == Phase::TimedOut { index }
            &&& bound <= k * POLL_INTERVAL_MS < bound + POLL_INTERVAL_MS
        }),
{
    let k = polls_before_timeout(bound);
    assert(k * 100 < bound + 100 && k * 100 >= bound) by (nonlinear_arith)
        requires k == (bound + 99) / 100, bound >= 0;
    lemma_timeout_from(o, bound, index, 0);
}

} // verus!
