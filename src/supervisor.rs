//! The supervisor: starts the monitor, waits out the grace period, then
//! polls the monitor at a fixed interval until the evidence is too old or
//! gone, and kills the child. It is a state machine; the caller performs each
//! action it asks for and hands back what happened.

use vstd::prelude::*;

verus! {

pub const NANOS_PER_SEC: u128 = 1_000_000_000;

/// Time between two staleness checks: half a second, whatever the maximum
/// age.
pub const POLL_INTERVAL: u128 = 500_000_000;

/// Settings of one supervision, in nanoseconds.
#[derive(Debug, Clone, Copy, PartialEq, Eq)]
pub struct Config {
    /// Evidence older than this gets the child killed.
    pub max_age: u128,
    /// Time after the start during which no check is made.
    pub grace: u128,
    /// Time between two checks.
    pub poll: u128,
}

impl Config {
    pub open spec fn wf(self) -> bool {
        &&& self.poll > 0
        &&& self.max_age < u128::MAX
    }

    /// The settings for a maximum age and a grace time given in seconds.
    pub fn new(max_age_secs: u64, grace_secs: u64) -> (c: Config)
        ensures
            c.wf(),
            c.max_age == max_age_secs * NANOS_PER_SEC,
            c.grace == grace_secs * NANOS_PER_SEC,
            c.poll == POLL_INTERVAL,
    {
        assert(max_age_secs * NANOS_PER_SEC < u128::MAX) by (nonlinear_arith)
            requires
                max_age_secs <= u64::MAX,
        ;
        assert(grace_secs * NANOS_PER_SEC < u128::MAX) by (nonlinear_arith)
            requires
                grace_secs <= u64::MAX,
        ;
        Config {
            max_age: max_age_secs as u128 * NANOS_PER_SEC,
            grace: grace_secs as u128 * NANOS_PER_SEC,
            poll: POLL_INTERVAL,
        }
    }
}

/// Whether a liveness argument asks for relayed standard input (`-`) rather
/// than a watched file.
pub fn watches_stdin(arg: &str) -> (r: bool)
    ensures
        r == (arg@ == seq!['-']),
{
    let r = arg.unicode_len() == 1 && arg.get_char(0) == '-';
    proof {
        if arg@.len() == 1 && arg@[0] == '-' {
            assert(arg@ =~= seq!['-']);
        }
    }
    r
}

#[derive(Debug, Clone, Copy, PartialEq, Eq)]
pub enum Phase {
    /// The monitor is to be started.
    Starting,
    /// Sleeping through the grace period.
    Grace,
    /// A staleness check is due.
    Watching,
    /// Sleeping between two checks.
    Pausing,
    /// The child is to be killed.
    Terminating,
    /// All is done; the process exits.
    Done,
}

/// What the caller reports back.
#[derive(Debug, Clone, Copy, PartialEq, Eq)]
pub enum Event {
    /// The monitor was started.
    Started,
    /// A sleep is over.
    Woke,
    /// A staleness check returned this.
    Report(Option<u128>),
    /// The child was sent its termination request.
    Killed,
}

/// What the caller is to do next.
#[derive(Debug, Clone, Copy, PartialEq, Eq)]
pub enum Action {
    /// Start the monitor, spawning the child.
    Start,
    /// Sleep this many nanoseconds, then report `Woke`.
    Sleep(u128),
    /// Run a staleness check and report what it returned.
    Poll,
    /// Kill the child, then report `Killed`.
    Kill,
    /// Exit the process with this code.
    Exit(i32),
}

/// A check ends the watch when the child is gone or the evidence is absent
/// (`None`), or when it is strictly older than the maximum age.
pub open spec fn expired(r: Option<u128>, max_age: u128) -> bool {
    match r {
        None => true,
        Some(d) => d > max_age,
    }
}

/// The phase after `e` arrives in phase `p`; an event that the phase does not
/// wait for changes nothing.
pub open spec fn next_phase(cfg: Config, p: Phase, e: Event) -> Phase {
    match (p, e) {
        (Phase::Starting, Event::Started) => if cfg.grace > 0 {
            Phase::Grace
        } else {
            Phase::Watching
        },
        (Phase::Grace, Event::Woke) => Phase::Watching,
        (Phase::Watching, Event::Report(r)) => if expired(r, cfg.max_age) {
            Phase::Terminating
        } else {
            Phase::Pausing
        },
        (Phase::Pausing, Event::Woke) => Phase::Watching,
        (Phase::Terminating, Event::Killed) => Phase::Done,
        _ => p,
    }
}

/// The action that phase `p` asks of the caller.
pub open spec fn pending(cfg: Config, p: Phase) -> Action {
    match p {
        Phase::Starting => Action::Start,
        Phase::Grace => Action::Sleep(cfg.grace),
        Phase::Watching => Action::Poll,
        Phase::Pausing => Action::Sleep(cfg.poll),
        Phase::Terminating => Action::Kill,
        Phase::Done => Action::Exit(0),
    }
}

pub struct Supervisor {
    pub config: Config,
    pub phase: Phase,
}

impl Supervisor {
    /// A supervisor about to start its monitor.
    pub fn new(config: Config) -> (s: Supervisor)
        ensures
            s.config == config,
            s.phase == Phase::Starting,
    {
        Supervisor { config, phase: Phase::Starting }
    }

    /// The action that the current phase asks for.
    pub fn action(&self) -> (a: Action)
        ensures
            a == pending(self.config, self.phase),
    {
        match self.phase {
            Phase::Starting => Action::Start,
            Phase::Grace => Action::Sleep(self.config.grace),
            Phase::Watching => Action::Poll,
            Phase::Pausing => Action::Sleep(self.config.poll),
            Phase::Terminating => Action::Kill,
            Phase::Done => Action::Exit(0),
        }
    }

    /// Takes what happened and returns the next action.
    pub fn step(&mut self, e: Event) -> (a: Action)
        ensures
            final(self).config == old(self).config,
            final(self).phase == next_phase(old(self).config, old(self).phase, e),
            a == pending(final(self).config, final(self).phase),
    {
        let next = match (self.phase, e) {
            (Phase::Starting, Event::Started) => if self.config.grace > 0 {
                Phase::Grace
            } else {
                Phase::Watching
            },
            (Phase::Grace, Event::Woke) => Phase::Watching,
            (Phase::Watching, Event::Report(r)) => {
                let stop = match r {
                    None => true,
                    Some(d) => d > self.config.max_age,
                };
                if stop {
                    Phase::Terminating
                } else {
                    Phase::Pausing
                }
            },
            (Phase::Pausing, Event::Woke) => Phase::Watching,
            (Phase::Terminating, Event::Killed) => Phase::Done,
            (p, _) => p,
        };
        self.phase = next;
        self.action()
    }
}

} // verus!
