use launchpad::checker::CheckerCause;
use launchpad::checker::CheckerEvent;
use launchpad::checker::LogChecker;
use launchpad::checker::PollChecker;
use launchpad::checker::ProbeOutcome;
use launchpad::checker::parse_progress;
use launchpad::config::InnerEvent;
use launchpad::config::WalletIdentity;

#[test]
fn parse_extracts_percentage_after_whitespace() {
    assert_eq!(parse_progress(b"progress 10%"), Some(10));
    assert_eq!(parse_progress(b"Bootstrapped 55%"), Some(55));
    assert_eq!(parse_progress(b"done\t100%"), Some(100));
    assert_eq!(parse_progress(b"x 007% trailing"), Some(7));
}

#[test]
fn parse_tolerates_lines_without_percentage() {
    assert_eq!(parse_progress(b""), None);
    assert_eq!(parse_progress(b"no percent here"), None);
    assert_eq!(parse_progress(b"55%"), None);
    assert_eq!(parse_progress(b"abc55"), None);
    assert_eq!(parse_progress(b"glued55%"), None);
}

#[test]
fn parse_rejects_values_above_one_hundred() {
    assert_eq!(parse_progress(b"x 101%"), None);
    assert_eq!(parse_progress(b"x 99999999999999999999%"), None);
}

#[test]
fn parse_takes_the_first_figure() {
    assert_eq!(parse_progress(b"a 10% b 55%"), Some(10));
}

#[test]
fn log_checker_emits_progress_then_ready() {
    // A log-driven checker on three bootstrap lines ends with readiness
    // and falls silent afterwards.
    let mut c = LogChecker::new();
    assert_eq!(c.on_log_line(b"progress 10%"), vec![CheckerEvent::Progress(10)]);
    assert_eq!(c.on_log_line(b"progress 55%"), vec![CheckerEvent::Progress(55)]);
    assert_eq!(
        c.on_log_line(b"progress 100%"),
        vec![CheckerEvent::Progress(100), CheckerEvent::Ready]
    );
    assert_eq!(c.on_log_line(b"progress 10%"), Vec::<CheckerEvent>::new());
    assert_eq!(c.on_log_line(b"progress 100%"), Vec::<CheckerEvent>::new());
}

#[test]
fn log_checker_ignores_unmatched_and_regressing_lines() {
    let mut c = LogChecker::new();
    assert_eq!(c.on_log_line(b"starting up"), Vec::<CheckerEvent>::new());
    assert_eq!(c.on_log_line(b"progress 55%"), vec![CheckerEvent::Progress(55)]);
    assert_eq!(c.on_log_line(b"progress 10%"), Vec::<CheckerEvent>::new());
    assert_eq!(c.on_log_line(b"progress 55%"), vec![CheckerEvent::Progress(55)]);
}

#[test]
fn log_checker_progress_is_non_decreasing() {
    let mut c = LogChecker::new();
    let lines: [&[u8]; 6] = [
        b"progress 30%",
        b"progress 10%",
        b"progress 44%",
        b"noise",
        b"progress 20%",
        b"progress 90%",
    ];
    let mut seen: Vec<u8> = Vec::new();
    for line in lines {
        for ev in c.on_log_line(line) {
            if let CheckerEvent::Progress(p) = ev {
                seen.push(p);
            }
        }
    }
    assert_eq!(seen, vec![30, 44, 90]);
    assert!(seen.windows(2).all(|w| w[0] <= w[1]));
}

fn identity() -> WalletIdentity {
    WalletIdentity { public_key: vec![1, 2, 3], public_address: "/ip4/1.2.3.4".to_string() }
}

#[test]
fn poll_checker_reports_ready_once() {
    let mut c = PollChecker::new();
    let step = c.on_poll(ProbeOutcome::Identity(identity()));
    assert_eq!(step.events, vec![CheckerEvent::Ready]);
    match step.notify {
        Some(InnerEvent::WalletIdentityReady(id)) => {
            assert_eq!(id.public_key, vec![1, 2, 3]);
        },
        _ => panic!("expected the wallet identity broadcast"),
    }
    let again = c.on_poll(ProbeOutcome::Identity(identity()));
    assert!(again.events.is_empty());
    assert!(again.notify.is_none());
}

#[test]
fn poll_checker_is_silent_on_miss() {
    let mut c = PollChecker::new();
    let step = c.on_poll(ProbeOutcome::NotReady);
    assert!(step.events.is_empty());
    assert!(step.notify.is_none());
}

#[test]
fn poll_checker_reports_probe_errors() {
    let mut c = PollChecker::new();
    let step = c.on_poll(ProbeOutcome::ProbeFailed(CheckerCause::ProbeTimeout));
    assert_eq!(step.events, vec![CheckerEvent::Failed(CheckerCause::ProbeTimeout)]);
    assert!(step.notify.is_none());
}
