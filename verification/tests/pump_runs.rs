use yazi_plugin::pump::{Action, Event, Phase, Pump};

/// Drives the decision machine the way the I/O loop does: `lines` are
/// the subprocess's output, `ok[k]` is the resolver's verdict on the
/// k-th path the machine asks to resolve. Returns the paths handed to
/// the resolver, the paths whose descriptors were forwarded, and whether
/// the machine finished.
fn line_event(lines: &[&str], next: &mut usize) -> Event {
    if *next < lines.len() {
        *next += 1;
        Event::Line(lines[*next - 1].to_string())
    } else {
        Event::Eof
    }
}

fn drive(cwd: &str, lines: &[&str], ok: &[bool]) -> (Vec<String>, Vec<String>, bool) {
    let mut pump = Pump::new(cwd.to_string());
    let mut resolves: Vec<String> = Vec::new();
    let mut forwarded: Vec<String> = Vec::new();
    let mut next: usize = 0;
    let mut ev = line_event(lines, &mut next);
    loop {
        match pump.step(ev) {
            Action::NextLine => ev = line_event(lines, &mut next),
            Action::Resolve(p) => {
                let verdict = ok[resolves.len()];
                resolves.push(p);
                ev = if verdict {
                    Event::ResolvedOk
                } else {
                    Event::ResolvedErr
                };
            }
            Action::Forward => {
                forwarded.push(resolves.last().unwrap().clone());
                ev = Event::Forwarded;
            }
            Action::Reap => ev = Event::Reaped,
            Action::Finish => break,
        }
    }
    (resolves, forwarded, pump.phase == Phase::Done)
}

#[test]
fn two_lines_all_resolved_in_order() {
    let (resolves, forwarded, done) = drive("/repo", &["src/a.rs", "src/b.rs"], &[true, true]);
    assert_eq!(resolves, vec!["/repo/src/a.rs", "/repo/src/b.rs"]);
    assert_eq!(forwarded, vec!["/repo/src/a.rs", "/repo/src/b.rs"]);
    assert!(done);
}

#[test]
fn zero_lines_zero_descriptors() {
    let (resolves, forwarded, done) = drive("/repo", &[], &[]);
    assert!(resolves.is_empty());
    assert!(forwarded.is_empty());
    assert!(done);
}

#[test]
fn failed_resolution_is_skipped_stream_continues() {
    let (resolves, forwarded, done) = drive(
        "/repo",
        &["a.txt", "gone.txt", "b.txt"],
        &[true, false, true],
    );
    assert_eq!(resolves.len(), 3);
    assert_eq!(forwarded, vec!["/repo/a.txt", "/repo/b.txt"]);
    assert!(done);
}

#[test]
fn all_resolutions_fail_stream_still_ends() {
    let (resolves, forwarded, done) = drive("/d", &["x", "y"], &[false, false]);
    assert_eq!(resolves, vec!["/d/x", "/d/y"]);
    assert!(forwarded.is_empty());
    assert!(done);
}

#[test]
fn empty_lines_are_not_resolved() {
    let (resolves, forwarded, done) = drive("/r", &["", "a", "\r", "b"], &[true, true]);
    assert_eq!(resolves, vec!["/r/a", "/r/b"]);
    assert_eq!(forwarded, vec!["/r/a", "/r/b"]);
    assert!(done);
}

#[test]
fn carriage_returns_are_trimmed() {
    let (resolves, _, _) = drive("/r", &["a.rs\r", "s/b.rs\r"], &[true, true]);
    assert_eq!(resolves, vec!["/r/a.rs", "/r/s/b.rs"]);
}

#[test]
fn working_directory_with_trailing_separator() {
    let (resolves, _, _) = drive("/repo/", &["src/a.rs"], &[true]);
    assert_eq!(resolves, vec!["/repo/src/a.rs"]);
}

#[test]
fn disconnected_consumer_reaps_the_subprocess() {
    let mut pump = Pump::new("/repo".to_string());
    let a = pump.step(Event::Line("src/a.rs".to_string()));
    assert!(matches!(a, Action::Resolve(p) if p == "/repo/src/a.rs"));
    let a = pump.step(Event::ResolvedOk);
    assert!(matches!(a, Action::Forward));
    let a = pump.step(Event::Disconnected);
    assert!(matches!(a, Action::Reap));
    let a = pump.step(Event::Reaped);
    assert!(matches!(a, Action::Finish));
    assert_eq!(pump.phase, Phase::Done);
}

#[test]
fn end_of_output_reaps_the_subprocess() {
    let mut pump = Pump::new("/repo".to_string());
    let a = pump.step(Event::Eof);
    assert!(matches!(a, Action::Reap));
    let a = pump.step(Event::Reaped);
    assert!(matches!(a, Action::Finish));
    assert_eq!(pump.phase, Phase::Done);
}
