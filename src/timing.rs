//! Timing of a supervision on an ideal clock: every sleep lasts exactly what
//! was asked and every other action takes no time. A world is told by the
//! report that a staleness check would return at each moment.

use vstd::prelude::*;
use crate::monitor::staleness;
use crate::supervisor::{Config, Phase, Event, Action, expired, next_phase, pending};

verus! {

/// The event that an ideal world delivers to a supervisor in phase `p` at
/// time `t`.
pub open spec fn world_event(p: Phase, t: int, report: spec_fn(int) -> Option<u128>) -> Event {
    match p {
        Phase::Starting => Event::Started,
        Phase::Grace => Event::Woke,
        Phase::Pausing => Event::Woke,
        Phase::Watching => Event::Report(report(t)),
        _ => Event::Killed,
    }
}

/// Time that an action takes on the ideal clock.
pub open spec fn delay(a: Action) -> int {
    match a {
        Action::Sleep(d) => d as int,
        _ => 0,
    }
}

/// Phase and time after `steps` events, from phase `p` with its event due
/// at time `t`.
pub open spec fn run(
    cfg: Config,
    p: Phase,
    t: int,
    report: spec_fn(int) -> Option<u128>,
    steps: nat,
) -> (Phase, int)
    decreases steps,
{
    if steps == 0 {
        (p, t)
    } else {
        let q = next_phase(cfg, p, world_event(p, t, report));
        run(cfg, q, t + delay(pending(cfg, q)), report, (steps - 1) as nat)
    }
}

/// Whether the child has been killed (or is being killed).
pub open spec fn killed(p: Phase) -> bool {
    p == Phase::Terminating || p == Phase::Done
}

/// What holds at every state of a watch whose first check is at `first`:
/// checks come `poll` apart, the kill follows an expired report, and the
/// check before a later one did not expire.
pub open spec fn watch_inv(
    cfg: Config,
    p: Phase,
    t: int,
    report: spec_fn(int) -> Option<u128>,
    first: int,
) -> bool {
    match p {
        Phase::Watching => t >= first && (t == first || !expired(report(t - cfg.poll), cfg.max_age)),
        Phase::Pausing => t - cfg.poll >= first && !expired(report(t - cfg.poll), cfg.max_age),
        Phase::Terminating | Phase::Done => {
            &&& t >= first
            &&& expired(report(t), cfg.max_age)
            &&& (t == first || !expired(report(t - cfg.poll), cfg.max_age))
        },
        _ => false,
    }
}

proof fn lemma_watch_inv(
    cfg: Config,
    p: Phase,
    t: int,
    report: spec_fn(int) -> Option<u128>,
    first: int,
    steps: nat,
)
    requires
        watch_inv(cfg, p, t, report, first),
    ensures
        watch_inv(cfg, run(cfg, p, t, report, steps).0, run(cfg, p, t, report, steps).1, report, first),
    decreases steps,
{
    if steps > 0 {
        let q = next_phase(cfg, p, world_event(p, t, report));
        let u = t + delay(pending(cfg, q));
        assert(watch_inv(cfg, q, u, report, first));
        lemma_watch_inv(cfg, q, u, report, first, (steps - 1) as nat);
    }
}

/// From the start at `s`, the first check is due at `s + grace`.
proof fn lemma_first_check(cfg: Config, s: int, report: spec_fn(int) -> Option<u128>)
    ensures
        cfg.grace > 0 ==> run(cfg, Phase::Starting, s, report, 2) == (Phase::Watching, s + cfg.grace),
        cfg.grace == 0 ==> run(cfg, Phase::Starting, s, report, 1) == (Phase::Watching, s + cfg.grace),
{
    reveal_with_fuel(run, 3);
}

/// The run after `a + b` steps is the run of `b` steps from where `a` steps
/// lead.
proof fn lemma_run_split(
    cfg: Config,
    p: Phase,
    t: int,
    report: spec_fn(int) -> Option<u128>,
    a: nat,
    b: nat,
)
    ensures
        run(cfg, p, t, report, a + b) == run(
            cfg,
            run(cfg, p, t, report, a).0,
            run(cfg, p, t, report, a).1,
            report,
            b,
        ),
    decreases a,
{
    if a > 0 {
        let q = next_phase(cfg, p, world_event(p, t, report));
        let u = t + delay(pending(cfg, q));
        lemma_run_split(cfg, q, u, report, (a - 1) as nat, b);
        assert((a + b - 1) as nat == ((a - 1) as nat + b) as nat);
    }
}

/// Once killed, a run stays killed.
proof fn lemma_stays_killed(
    cfg: Config,
    p: Phase,
    t: int,
    report: spec_fn(int) -> Option<u128>,
    steps: nat,
)
    requires
        killed(p),
    ensures
        killed(run(cfg, p, t, report, steps).0),
    decreases steps,
{
    if steps > 0 {
        let q = next_phase(cfg, p, world_event(p, t, report));
        lemma_stays_killed(cfg, q, t + delay(pending(cfg, q)), report, (steps - 1) as nat);
    }
}

/// A check due at `t`, with every report from `x` on expired and
/// `t + n * poll >= x`, leads to the kill within `2 * n + 1` steps.
proof fn lemma_reaches_kill(
    cfg: Config,
    t: int,
    report: spec_fn(int) -> Option<u128>,
    x: int,
    n: nat,
    steps: nat,
)
    requires
        cfg.wf(),
        forall|u: int| u >= x ==> #[trigger] expired(report(u), cfg.max_age),
        t + n * cfg.poll >= x,
        steps >= 2 * n + 1,
    ensures
        killed(run(cfg, Phase::Watching, t, report, steps).0),
    decreases n,
{
    let q = next_phase(cfg, Phase::Watching, world_event(Phase::Watching, t, report));
    let u = t + delay(pending(cfg, q));
    if expired(report(t), cfg.max_age) {
        lemma_stays_killed(cfg, q, u, report, (steps - 1) as nat);
    } else {
        assert(t < x);
        if n == 0 {
            assert(n * cfg.poll == 0) by (nonlinear_arith)
                requires
                    n == 0,
            ;
        } else {
            assert(u == t + cfg.poll);
            reveal_with_fuel(run, 2);
            assert(run(cfg, Phase::Pausing, u, report, (steps - 1) as nat) == run(
                cfg,
                Phase::Watching,
                u,
                report,
                (steps - 2) as nat,
            ));
            assert(u + (n - 1) * cfg.poll == t + n * cfg.poll) by (nonlinear_arith)
                requires
                    u == t + cfg.poll,
                    n > 0,
            ;
            lemma_reaches_kill(cfg, u, report, x, (n - 1) as nat, (steps - 2) as nat);
        }
    }
}

/// A supervision started at `s` makes no staleness check before the grace
/// period is over: every check comes at `s + grace` or later.
pub proof fn lemma_no_check_during_grace(
    cfg: Config,
    s: int,
    report: spec_fn(int) -> Option<u128>,
    steps: nat,
)
    ensures
        run(cfg, Phase::Starting, s, report, steps).0 == Phase::Watching ==> run(
            cfg,
            Phase::Starting,
            s,
            report,
            steps,
        ).1 >= s + cfg.grace,
{
    lemma_kill_follows_checks(cfg, s, report, steps);
}

/// A supervision started at `s` has its checks at `s + grace` and every poll
/// interval after, and kills the child at the first check that expires: so
/// the kill comes after an expired report, either at the first check or one
/// poll interval after a check that did not expire.
pub proof fn lemma_kill_follows_checks(
    cfg: Config,
    s: int,
    report: spec_fn(int) -> Option<u128>,
    steps: nat,
)
    ensures
        ({
            let (p, t) = run(cfg, Phase::Starting, s, report, steps);
            &&& p == Phase::Watching ==> t >= s + cfg.grace
            &&& killed(p) ==> {
                &&& t >= s + cfg.grace
                &&& expired(report(t), cfg.max_age)
                &&& (t == s + cfg.grace || !expired(report(t - cfg.poll), cfg.max_age))
            }
        }),
{
    let first = s + cfg.grace;
    let k: nat = if cfg.grace > 0 { 2 } else { 1 };
    lemma_first_check(cfg, s, report);
    if steps >= k {
        lemma_run_split(cfg, Phase::Starting, s, report, k, (steps - k) as nat);
        assert(watch_inv(cfg, Phase::Watching, first, report, first));
        lemma_watch_inv(cfg, Phase::Watching, first, report, first, (steps - k) as nat);
    } else {
        reveal_with_fuel(run, 2);
    }
}

/// Age at time `t` of a file last modified at `m`, clamped to what a `u128`
/// holds.
pub open spec fn age_at(m: u128, t: int) -> u128 {
    if t <= m {
        0
    } else if t - m > u128::MAX {
        u128::MAX
    } else {
        (t - m) as u128
    }
}

/// The world of a running child whose watched file was last modified at `m`.
pub open spec fn file_report(m: u128) -> spec_fn(int) -> Option<u128> {
    |t: int| Some(age_at(m, t))
}

/// The file world reports what a file monitor's staleness check returns.
pub proof fn lemma_file_report_is_staleness(m: u128, now: u128)
    ensures
        file_report(m)(now as int) == staleness(false, Some(m), now),
{
}

/// From the start at `s`, the run reaches its first check after `k` steps
/// and is killed within `2 * n + 1` more, when every report from `x` on is
/// expired and the `n`th check after the first comes at `x` or later.
proof fn lemma_killed_by(
    cfg: Config,
    s: int,
    report: spec_fn(int) -> Option<u128>,
    x: int,
    n: nat,
    steps: nat,
)
    requires
        cfg.wf(),
        forall|u: int| u >= x ==> #[trigger] expired(report(u), cfg.max_age),
        s + cfg.grace + n * cfg.poll >= x,
        steps >= 2 * n + 3,
    ensures
        killed(run(cfg, Phase::Starting, s, report, steps).0),
{
    let k: nat = if cfg.grace > 0 { 2 } else { 1 };
    lemma_first_check(cfg, s, report);
    lemma_run_split(cfg, Phase::Starting, s, report, k, (steps - k) as nat);
    lemma_reaches_kill(cfg, s + cfg.grace, report, x, n, (steps - k) as nat);
}

/// A child whose watched file was last modified at `m` and not touched again
/// is killed only once the file is older than the maximum age, and no later
/// than one poll interval after that, or at the first check if the file was
/// already stale when the grace period ended. With enough steps the kill
/// does come.
pub proof fn lemma_file_kill_window(cfg: Config, s: int, m: u128, n: nat, steps: nat)
    requires
        cfg.wf(),
    ensures
        ({
            let (p, t) = run(cfg, Phase::Starting, s, file_report(m), steps);
            &&& killed(p) ==> {
                &&& t > m + cfg.max_age
                &&& t >= s + cfg.grace
                &&& (t == s + cfg.grace || t <= m + cfg.max_age + cfg.poll)
            }
            &&& s + cfg.grace + n * cfg.poll > m + cfg.max_age && steps >= 2 * n + 3 ==> killed(p)
        }),
{
    let report = file_report(m);
    lemma_kill_follows_checks(cfg, s, report, steps);
    let x = m + cfg.max_age + 1;
    assert forall|u: int| u >= x implies #[trigger] expired(report(u), cfg.max_age) by {}
    if s + cfg.grace + n * cfg.poll > m + cfg.max_age && steps >= 2 * n + 3 {
        lemma_killed_by(cfg, s, report, x, n, steps);
    }
}

/// A child that exits at `x`, once the grace period is over, is killed
/// within one poll interval of its exit, whatever its staleness; with enough
/// steps the kill does come.
pub proof fn lemma_exit_kill_window(
    cfg: Config,
    s: int,
    report: spec_fn(int) -> Option<u128>,
    x: int,
    n: nat,
    steps: nat,
)
    requires
        cfg.wf(),
        x >= s + cfg.grace,
        forall|u: int| u >= x ==> #[trigger] report(u) is None,
    ensures
        ({
            let (p, t) = run(cfg, Phase::Starting, s, report, steps);
            &&& killed(p) ==> t < x + cfg.poll
            &&& s + cfg.grace + n * cfg.poll >= x && steps >= 2 * n + 3 ==> killed(p)
        }),
{
    lemma_kill_follows_checks(cfg, s, report, steps);
    assert forall|u: int| u >= x implies #[trigger] expired(report(u), cfg.max_age) by {
        assert(report(u) is None);
    }
    if s + cfg.grace + n * cfg.poll >= x && steps >= 2 * n + 3 {
        lemma_killed_by(cfg, s, report, x, n, steps);
    }
}

/// As long as every check finds fresh evidence, the child is never killed.
pub proof fn lemma_fresh_evidence_never_kills(
    cfg: Config,
    s: int,
    report: spec_fn(int) -> Option<u128>,
    steps: nat,
)
    requires
        forall|u: int| u >= s + cfg.grace ==> !#[trigger] expired(report(u), cfg.max_age),
    ensures
        !killed(run(cfg, Phase::Starting, s, report, steps).0),
{
    lemma_kill_follows_checks(cfg, s, report, steps);
}

} // verus!
