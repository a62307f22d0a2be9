//! The contingency monitors: where liveness evidence comes from, and how
//! stale it is at a given moment. Times are nanoseconds on the wall clock.

use vstd::prelude::*;

verus! {

/// Time elapsed from `from` to `now`; a `from` later than `now` counts as
/// no time at all.
pub open spec fn elapsed(from: u128, now: u128) -> u128 {
    if now >= from {
        (now - from) as u128
    } else {
        0
    }
}

/// What a staleness check reports: `None` once the child has exited or when
/// there is no evidence at all, otherwise the age of the latest evidence.
pub open spec fn staleness(exited: bool, evidence: Option<u128>, now: u128) -> Option<u128> {
    if exited {
        None
    } else {
        match evidence {
            None => None,
            Some(at) => Some(elapsed(at, now)),
        }
    }
}

/// The child process that the caller is to spawn.
pub struct Launch {
    pub program: String,
    pub args: Vec<String>,
    /// Whether the child's standard input is to be the read end of a fresh
    /// pipe whose write end the caller keeps for relaying.
    pub pipe_stdin: bool,
}

/// The launch that a command line (program first) calls for.
pub open spec fn launches(l: Launch, cmd: Seq<String>, pipe_stdin: bool) -> bool {
    &&& cmd.len() > 0
    &&& l.program == cmd[0]
    &&& l.args@ == cmd.subrange(1, cmd.len() as int)
    &&& l.pipe_stdin == pipe_stdin
}

/// A source of liveness evidence tied to one child process.
pub trait Contingency: Sized {
    /// The monitor's own invariant: a command to run, and no evidence
    /// before the start.
    spec fn wf(&self) -> bool;

    /// The command line of the child, program first.
    spec fn command(&self) -> Seq<String>;

    /// Whether the child has been handed out for spawning.
    spec fn started(&self) -> bool;

    /// Whether the child reads the relayed standard input.
    spec fn pipes_stdin(&self) -> bool;

    /// Time of the latest liveness evidence, if any.
    spec fn evidence(&self) -> Option<u128>;

    /// Starts the monitor: the first call hands out the child to spawn, a
    /// later one hands out nothing, as a monitor owns one child at most.
    fn start(&mut self) -> (launch: Option<Launch>)
        requires
            old(self).wf(),
        ensures
            final(self).wf(),
            final(self).started(),
            final(self).command() == old(self).command(),
            final(self).pipes_stdin() == old(self).pipes_stdin(),
            final(self).evidence() == old(self).evidence(),
            old(self).started() ==> launch is None,
            !old(self).started() ==> launch is Some && launches(
                launch->0,
                old(self).command(),
                old(self).pipes_stdin(),
            ),
    ;

    /// Reports how stale the evidence is at `now`, given whether the child has
    /// already exited. `None` means: stop watching.
    fn last_dose(&mut self, exited: bool, now: u128) -> (r: Option<u128>)
        requires
            old(self).wf(),
            old(self).started(),
        ensures
            *final(self) == *old(self),
            r == staleness(exited, old(self).evidence(), now),
    ;

    /// Whether there is a child to send a termination request to.
    fn kill(&mut self) -> (signal: bool)
        requires
            old(self).wf(),
        ensures
            *final(self) == *old(self),
            signal == old(self).started(),
    ;
}

/// Copies `v[from..]`.
fn tail(v: &Vec<String>, from: usize) -> (r: Vec<String>)
    requires
        from <= v.len(),
    ensures
        r@ == v@.subrange(from as int, v.len() as int),
{
    let mut r: Vec<String> = Vec::new();
    let mut i: usize = from;
    while i < v.len()
        invariant
            from <= i <= v.len(),
            r@ == v@.subrange(from as int, i as int),
        decreases v.len() - i,
    {
        r.push(v[i].clone());
        i = i + 1;
    }
    r
}

fn launch_of(cmd: &Vec<String>, pipe_stdin: bool) -> (l: Launch)
    requires
        cmd.len() > 0,
    ensures
        launches(l, cmd@, pipe_stdin),
{
    Launch { program: cmd[0].clone(), args: tail(cmd, 1), pipe_stdin }
}

/// Age of `at` as seen at `now`, clamped at zero.
fn age(at: u128, now: u128) -> (r: u128)
    ensures
        r == elapsed(at, now),
{
    if now >= at {
        now - at
    } else {
        0
    }
}

/// Liveness from a watched file: its modification time, read by the caller
/// through a handle opened once, is the evidence.
pub struct File {
    cmd: Vec<String>,
    started: bool,
    modified: Option<u128>,
}

impl File {
    /// A monitor for `cmd` (program first), not yet started.
    pub fn new(cmd: Vec<String>) -> (r: File)
        requires
            cmd.len() > 0,
        ensures
            r.wf(),
            !r.started(),
            r.command() == cmd@,
            !r.pipes_stdin(),
            r.evidence() is None,
    {
        File { cmd, started: false, modified: None }
    }

    /// Records the modification time just read from the watched file.
    pub fn observe(&mut self, modified: u128)
        requires
            old(self).wf(),
            old(self).started(),
        ensures
            final(self).wf(),
            final(self).started(),
            final(self).command() == old(self).command(),
            final(self).evidence() == Some(modified),
    {
        self.modified = Some(modified);
    }
}

impl Contingency for File {
    closed spec fn wf(&self) -> bool {
        &&& self.cmd.len() > 0
        &&& !self.started ==> self.modified is None
    }

    closed spec fn command(&self) -> Seq<String> {
        self.cmd@
    }

    closed spec fn started(&self) -> bool {
        self.started
    }

    open spec fn pipes_stdin(&self) -> bool {
        false
    }

    closed spec fn evidence(&self) -> Option<u128> {
        self.modified
    }

    fn start(&mut self) -> (launch: Option<Launch>) {
        if self.started {
            None
        } else {
            self.started = true;
            Some(launch_of(&self.cmd, false))
        }
    }

    fn last_dose(&mut self, exited: bool, now: u128) -> (r: Option<u128>) {
        if exited {
            return None;
        }
        match self.modified {
            None => None,
            Some(at) => Some(age(at, now)),
        }
    }

    fn kill(&mut self) -> (signal: bool) {
        self.started
    }
}

/// What one read of the supervisor's own standard input gave.
#[derive(Debug, Clone, Copy, PartialEq, Eq)]
pub enum Intake {
    /// This many bytes arrived.
    Bytes(usize),
    /// The stream has ended.
    Ended,
    /// The read failed.
    Failed,
    /// Nothing is available right now.
    Idle,
}

/// What the relay does next.
#[derive(Debug, Clone, Copy, PartialEq, Eq)]
pub enum Relay {
    /// Write the bytes just read to the child, then report the outcome.
    Forward(usize),
    /// Stop reading until the next staleness check.
    Stop,
}

/// Liveness from relayed input: every byte of the supervisor's standard input
/// is forwarded to the child, and the time of the latest forward is the
/// evidence.
pub struct Stdin {
    cmd: Vec<String>,
    started: bool,
    last_byte: Option<u128>,
}

impl Stdin {
    /// A monitor for `cmd` (program first), not yet started.
    pub fn new(cmd: Vec<String>) -> (r: Stdin)
        requires
            cmd.len() > 0,
        ensures
            r.wf(),
            !r.started(),
            r.command() == cmd@,
            r.pipes_stdin(),
            r.evidence() is None,
    {
        Stdin { cmd, started: false, last_byte: None }
    }

    /// Decides what to do with a read of standard input: bytes are forwarded
    /// once the child runs; anything else ends this round of reading.
    pub fn on_read(&self, read: Intake) -> (r: Relay)
        ensures
            r == (match read {
                Intake::Bytes(n) => if self.started() && n > 0 {
                    Relay::Forward(n)
                } else {
                    Relay::Stop
                },
                _ => Relay::Stop,
            }),
    {
        match read {
            Intake::Bytes(n) => if self.started && n > 0 {
                Relay::Forward(n)
            } else {
                Relay::Stop
            },
            _ => Relay::Stop,
        }
    }

    /// Takes the outcome of a forward to the child at `now`: a delivered
    /// forward is fresh evidence and reading goes on; a failed one (the child
    /// closed its input) ends this round of reading.
    pub fn forwarded(&mut self, delivered: bool, now: u128) -> (more: bool)
        requires
            old(self).wf(),
        ensures
            final(self).wf(),
            final(self).started() == old(self).started(),
            final(self).command() == old(self).command(),
            final(self).evidence() == if delivered && old(self).started() {
                Some(now)
            } else {
                old(self).evidence()
            },
            more == (delivered && old(self).started()),
    {
        if delivered && self.started {
            self.last_byte = Some(now);
            true
        } else {
            false
        }
    }
}

impl Contingency for Stdin {
    closed spec fn wf(&self) -> bool {
        &&& self.cmd.len() > 0
        &&& !self.started ==> self.last_byte is None
    }

    closed spec fn command(&self) -> Seq<String> {
        self.cmd@
    }

    closed spec fn started(&self) -> bool {
        self.started
    }

    open spec fn pipes_stdin(&self) -> bool {
        true
    }

    closed spec fn evidence(&self) -> Option<u128> {
        self.last_byte
    }

    fn start(&mut self) -> (launch: Option<Launch>) {
        if self.started {
            None
        } else {
            self.started = true;
            Some(launch_of(&self.cmd, true))
        }
    }

    fn last_dose(&mut self, exited: bool, now: u128) -> (r: Option<u128>) {
        if exited {
            return None;
        }
        match self.last_byte {
            None => None,
            Some(at) => Some(age(at, now)),
        }
    }

    fn kill(&mut self) -> (signal: bool) {
        self.started
    }
}

/// Repeated staleness checks with no new evidence in between report ages
/// that never decrease, as long as the clock does not go back.
pub proof fn lemma_checks_non_decreasing<C: Contingency>(c: C, t1: u128, t2: u128)
    requires
        t1 <= t2,
    ensures
        staleness(false, c.evidence(), t1) matches Some(d1) ==> staleness(
            false,
            c.evidence(),
            t2,
        ) matches Some(d2) && d1 <= d2,
        staleness(false, c.evidence(), t1) is None ==> staleness(false, c.evidence(), t2) is None,
{
}

/// After a relay forwards input at `at` and the input then pauses, its
/// staleness at each later check is the time since `at`, exactly as for a
/// watched file last modified at `at`.
pub proof fn lemma_relay_clock_resets(relay: Stdin, file: File, at: u128, now: u128)
    requires
        relay.evidence() == Some(at),
        file.evidence() == Some(at),
        at <= now,
    ensures
        staleness(false, relay.evidence(), now) == Some((now - at) as u128),
        staleness(false, relay.evidence(), now) == staleness(false, file.evidence(), now),
{
}

} // verus!
