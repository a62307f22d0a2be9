use lysine::monitor::{Contingency, File, Intake, Relay, Stdin};
use lysine::supervisor::{watches_stdin, Action, Config, Event, Phase, Supervisor, NANOS_PER_SEC, POLL_INTERVAL};

const SEC: u128 = NANOS_PER_SEC;

fn cmd() -> Vec<String> {
    vec!["sleep".to_string(), "100".to_string()]
}

/// Drives a file-watching supervision on an ideal clock: the file is last
/// modified at `modified`, the child exits at `exit_at` if ever. Returns the
/// kill time and the exit code, or `None` if no exit comes before `limit`.
fn run_file(
    max_age: u64,
    grace: u64,
    modified: u128,
    exit_at: Option<u128>,
    limit: u128,
) -> Option<(u128, i32)> {
    let mut sup = Supervisor::new(Config::new(max_age, grace));
    let mut mon = File::new(cmd());
    let mut t: u128 = 0;
    let mut kill_time: u128 = 0;
    let mut action = sup.action();
    while t <= limit {
        let event = match action {
            Action::Start => {
                let launch = mon.start().unwrap();
                assert!(!launch.pipe_stdin);
                Event::Started
            }
            Action::Sleep(d) => {
                t += d;
                Event::Woke
            }
            Action::Poll => {
                mon.observe(modified);
                let exited = matches!(exit_at, Some(x) if t >= x);
                Event::Report(mon.last_dose(exited, t))
            }
            Action::Kill => {
                assert!(mon.kill());
                kill_time = t;
                Event::Killed
            }
            Action::Exit(code) => return Some((kill_time, code)),
        };
        action = sup.step(event);
    }
    None
}

/// Drives a relaying supervision on an ideal clock: input arrives at the
/// given times, and standard input ends at `eof_at` if ever.
fn run_stdin(
    max_age: u64,
    writes: &[u128],
    eof_at: Option<u128>,
    limit: u128,
) -> Option<(u128, i32)> {
    let mut sup = Supervisor::new(Config::new(max_age, 0));
    let mut mon = Stdin::new(cmd());
    let mut t: u128 = 0;
    let mut kill_time: u128 = 0;
    let mut next_write: usize = 0;
    let mut action = sup.action();
    while t <= limit {
        let event = match action {
            Action::Start => {
                let launch = mon.start().unwrap();
                assert!(launch.pipe_stdin);
                Event::Started
            }
            Action::Sleep(d) => {
                t += d;
                Event::Woke
            }
            Action::Poll => {
                loop {
                    let read = if next_write < writes.len() && writes[next_write] <= t {
                        next_write += 1;
                        Intake::Bytes(1)
                    } else if matches!(eof_at, Some(e) if t >= e) {
                        Intake::Ended
                    } else {
                        Intake::Idle
                    };
                    match mon.on_read(read) {
                        Relay::Forward(n) => {
                            assert_eq!(n, 1);
                            if !mon.forwarded(true, t) {
                                break;
                            }
                        }
                        Relay::Stop => break,
                    }
                }
                Event::Report(mon.last_dose(false, t))
            }
            Action::Kill => {
                assert!(mon.kill());
                kill_time = t;
                Event::Killed
            }
            Action::Exit(code) => return Some((kill_time, code)),
        };
        action = sup.step(event);
    }
    None
}

#[test]
fn untouched_file_killed_after_max_age() {
    // maximum age 2 s, no grace: checks at 0, 0.5, ..., 2.0 s see no more
    // than 2 s; the check at 2.5 s kills.
    let (kill, code) = run_file(2, 0, 0, None, 100 * SEC).unwrap();
    assert!(kill > 2 * SEC);
    assert!(kill <= 2 * SEC + POLL_INTERVAL);
    assert_eq!(kill, 2 * SEC + SEC / 2);
    assert_eq!(code, 0);
}

#[test]
fn grace_defers_first_check() {
    // maximum age 2 s, grace 5 s: nothing happens at 2 s; the first check at
    // 5 s already finds the file too old.
    let (kill, code) = run_file(2, 5, 0, None, 100 * SEC).unwrap();
    assert_eq!(kill, 5 * SEC);
    assert_eq!(code, 0);
}

#[test]
fn grace_with_fresh_file_kills_after_max_age() {
    // The file is touched at 4 s; grace 5 s; maximum age 2 s: killed at the
    // first check past 6 s.
    let (kill, _) = run_file(2, 5, 4 * SEC, None, 100 * SEC).unwrap();
    assert_eq!(kill, 6 * SEC + SEC / 2);
}

#[test]
fn steady_input_keeps_child_alive() {
    // a byte every second from the start, maximum age 2 s: no kill within a
    // minute.
    let writes: Vec<u128> = (0..=60).map(|i| i as u128 * SEC).collect();
    assert_eq!(run_stdin(2, &writes, None, 59 * SEC), None);
}

#[test]
fn closed_stdin_without_input_kills_at_once() {
    let (kill, code) = run_stdin(2, &[], Some(0), 100 * SEC).unwrap();
    assert_eq!(kill, 0);
    assert_eq!(code, 0);
}

#[test]
fn input_then_pause_ages_from_last_forward() {
    // bytes at 0 s, 1.5 s and 3 s, then nothing: killed at the first check
    // more than 2 s after 3 s.
    let (kill, _) = run_stdin(2, &[0, SEC + SEC / 2, 3 * SEC], None, 100 * SEC).unwrap();
    assert_eq!(kill, 5 * SEC + SEC / 2);
}

#[test]
fn child_exit_kills_within_one_poll() {
    // the file is fresh all along, but the child exits at 10.2 s.
    let exit = 10 * SEC + SEC / 5;
    let (kill, code) = run_file(60, 0, 0, Some(exit), 100 * SEC).unwrap();
    assert!(kill >= exit);
    assert!(kill < exit + POLL_INTERVAL);
    assert_eq!(code, 0);
}

#[test]
fn config_in_nanoseconds() {
    let c = Config::new(60, 3);
    assert_eq!(c.max_age, 60 * SEC);
    assert_eq!(c.grace, 3 * SEC);
    assert_eq!(c.poll, 500_000_000);
}

#[test]
fn dash_selects_stdin() {
    assert!(watches_stdin("-"));
    assert!(!watches_stdin("--"));
    assert!(!watches_stdin(""));
    assert!(!watches_stdin("heartbeat"));
}

#[test]
fn start_hands_out_command_once() {
    let mut mon = File::new(vec!["prog".to_string(), "a".to_string(), "b".to_string()]);
    let launch = mon.start().unwrap();
    assert_eq!(launch.program, "prog");
    assert_eq!(launch.args, vec!["a".to_string(), "b".to_string()]);
    assert!(!launch.pipe_stdin);
    assert!(mon.start().is_none());
}

#[test]
fn stdin_launch_pipes_input() {
    let mut mon = Stdin::new(vec!["cat".to_string()]);
    let launch = mon.start().unwrap();
    assert_eq!(launch.program, "cat");
    assert!(launch.args.is_empty());
    assert!(launch.pipe_stdin);
}

#[test]
fn kill_before_start_has_no_child() {
    let mut f = File::new(cmd());
    assert!(!f.kill());
    let mut s = Stdin::new(cmd());
    assert!(!s.kill());
    s.start();
    assert!(s.kill());
}

#[test]
fn file_staleness_reports() {
    let mut f = File::new(cmd());
    f.start();
    f.observe(10 * SEC);
    assert_eq!(f.last_dose(false, 13 * SEC), Some(3 * SEC));
    // repeated checks without new evidence do not go down
    assert_eq!(f.last_dose(false, 14 * SEC), Some(4 * SEC));
    // a modification time in the future counts as zero
    assert_eq!(f.last_dose(false, 9 * SEC), Some(0));
    // an exited child ends the watch
    assert_eq!(f.last_dose(true, 13 * SEC), None);
}

#[test]
fn relay_decisions() {
    let mut s = Stdin::new(cmd());
    // before the start nothing is forwarded
    assert_eq!(s.on_read(Intake::Bytes(5)), Relay::Stop);
    assert!(!s.forwarded(true, SEC));
    s.start();
    assert_eq!(s.last_dose(false, SEC), None);
    assert_eq!(s.on_read(Intake::Bytes(5)), Relay::Forward(5));
    assert_eq!(s.on_read(Intake::Bytes(0)), Relay::Stop);
    assert_eq!(s.on_read(Intake::Ended), Relay::Stop);
    assert_eq!(s.on_read(Intake::Failed), Relay::Stop);
    assert_eq!(s.on_read(Intake::Idle), Relay::Stop);
    assert!(s.forwarded(true, 2 * SEC));
    assert_eq!(s.last_dose(false, 5 * SEC), Some(3 * SEC));
    // a failed forward is no evidence
    assert!(!s.forwarded(false, 4 * SEC));
    assert_eq!(s.last_dose(false, 5 * SEC), Some(3 * SEC));
    assert_eq!(s.last_dose(true, 5 * SEC), None);
}

#[test]
fn age_equal_to_max_is_not_expired() {
    let mut sup = Supervisor::new(Config::new(2, 0));
    assert_eq!(sup.step(Event::Started), Action::Poll);
    assert_eq!(sup.step(Event::Report(Some(2 * SEC))), Action::Sleep(POLL_INTERVAL));
    assert_eq!(sup.step(Event::Woke), Action::Poll);
    assert_eq!(sup.step(Event::Report(Some(2 * SEC + 1))), Action::Kill);
    assert_eq!(sup.step(Event::Killed), Action::Exit(0));
    assert_eq!(sup.phase, Phase::Done);
}

#[test]
fn grace_sleep_then_poll() {
    let mut sup = Supervisor::new(Config::new(2, 5));
    assert_eq!(sup.action(), Action::Start);
    assert_eq!(sup.step(Event::Started), Action::Sleep(5 * SEC));
    assert_eq!(sup.phase, Phase::Grace);
    assert_eq!(sup.step(Event::Woke), Action::Poll);
    assert_eq!(sup.step(Event::Report(None)), Action::Kill);
}

#[test]
fn unexpected_event_changes_nothing() {
    let mut sup = Supervisor::new(Config::new(2, 0));
    assert_eq!(sup.step(Event::Woke), Action::Start);
    assert_eq!(sup.phase, Phase::Starting);
    sup.step(Event::Started);
    assert_eq!(sup.step(Event::Killed), Action::Poll);
    assert_eq!(sup.phase, Phase::Watching);
}
