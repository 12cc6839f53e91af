//! Health-checker state machines: they turn raw log lines or probe results
//! into structured lifecycle events for one running container.
//!
//! A log-driven checker scans each line for a bootstrap percentage and
//! reports monotone progress until it reaches one hundred; a poll-driven
//! checker reports readiness on its first successful probe and a failure
//! whenever a probe errors out.

use vstd::prelude::*;
use crate::config::InnerEvent;
use crate::config::WalletIdentity;

verus! {

/// Structured event a checker emits toward its task's lifecycle manager.
#[derive(Clone, PartialEq, Eq, Debug)]
pub enum CheckerEvent {
    /// Bootstrap progress, in percent, between zero and one hundred.
    Progress(u8),
    /// The container answers as fully operational.
    Ready,
    /// A probe or log subscription errored out.
    Failed(CheckerCause),
}

/// Cause of a checker failure.
#[derive(Clone, Copy, PartialEq, Eq, Structural, Debug)]
pub enum CheckerCause {
    /// An external probe call returned an error.
    ProbeError,
    /// A probe did not finish inside its bounded window.
    ProbeTimeout,
}

/// Byte is an ASCII decimal digit.
pub open spec fn is_digit(b: u8) -> bool {
    48 <= b <= 57
}

/// Byte is a space or a tab.
pub open spec fn is_space(b: u8) -> bool {
    b == 32 || b == 9
}

/// First position at or after `i` that does not continue a digit run.
pub open spec fn run_end(s: Seq<u8>, i: int) -> int
    decreases s.len() - i,
{
    if 0 <= i < s.len() && is_digit(s[i]) {
        run_end(s, i + 1)
    } else {
        i
    }
}

/// A progress figure starts at `i`: whitespace, then digits, then `%`.
pub open spec fn match_at(s: Seq<u8>, i: int) -> bool {
    &&& 1 <= i < s.len()
    &&& is_space(s[i - 1])
    &&& is_digit(s[i])
    &&& run_end(s, i) < s.len()
    &&& s[run_end(s, i)] == 37
}

/// Position of the first progress figure at or after `i`, if any.
pub open spec fn first_match_from(s: Seq<u8>, i: int) -> Option<int>
    decreases s.len() - i,
{
    if i >= s.len() {
        None
    } else if match_at(s, i) {
        Some(i)
    } else {
        first_match_from(s, i + 1)
    }
}

/// Decimal value of the digits from `i` (inclusive) to `j` (exclusive).
pub open spec fn digits_val(s: Seq<u8>, i: int, j: int) -> int
    decreases j - i,
{
    if i >= j {
        0
    } else {
        digits_val(s, i, j - 1) * 10 + (s[j - 1] - 48)
    }
}

/// The percentage a log line reports: the first whitespace-preceded digit
/// run ending in `%`, read as a decimal number, accepted only up to one
/// hundred.
pub open spec fn line_progress(s: Seq<u8>) -> Option<int> {
    match first_match_from(s, 1) {
        Some(i) => {
            let v = digits_val(s, i, run_end(s, i));
            if v <= 100 {
                Some(v)
            } else {
                None
            }
        },
        None => None,
    }
}

/// Extracts the bootstrap percentage from one log line, if the line
/// carries one.
pub fn parse_progress(line: &[u8]) -> (r: Option<u8>)
    ensures
        match r {
            Some(p) => line_progress(line@) == Some(p as int),
            None => line_progress(line@) is None,
        },
{
    let n = line.len();
    let mut i: usize = 1;
    while i < n
        invariant
            n == line@.len(),
            1 <= i,
            first_match_from(line@, 1) == first_match_from(line@, i as int),
        decreases n - i,
    {
        let prev = line[i - 1];
        let cur = line[i];
        if (prev == 32 || prev == 9) && 48 <= cur && cur <= 57 {
            // Walk to the end of the digit run, accumulating its value and
            // saturating just above the accepted range.
            let mut j: usize = i;
            let mut acc: u32 = 0;
            while j < n && 48 <= line[j] && line[j] <= 57
                invariant
                    n == line@.len(),
                    1 <= i <= j <= n,
                    run_end(line@, i as int) == run_end(line@, j as int),
                    acc <= 101,
                    digits_val(line@, i as int, j as int) <= 100 ==> acc == digits_val(
                        line@,
                        i as int,
                        j as int,
                    ),
                    digits_val(line@, i as int, j as int) > 100 ==> acc == 101,
                decreases n - j,
            {
                let d: u32 = (line[j] - 48) as u32;
                if acc > 100 {
                    acc = 101;
                } else {
                    acc = acc * 10 + d;
                    if acc > 100 {
                        proof {
                            assert(digits_val(line@, i as int, j + 1) == digits_val(
                                line@,
                                i as int,
                                j as int,
                            ) * 10 + (line@[j as int] - 48));
                        }
                        if acc > 101 {
                            acc = 101;
                        }
                    }
                }
                proof {
                    assert(run_end(line@, j as int) == run_end(line@, j + 1));
                    assert(digits_val(line@, i as int, j + 1) == digits_val(
                        line@,
                        i as int,
                        j as int,
                    ) * 10 + (line@[j as int] - 48));
                }
                j += 1;
            }
            proof {
                assert(run_end(line@, j as int) == j as int);
            }
            if j < n && line[j] == 37 {
                assert(match_at(line@, i as int));
                assert(first_match_from(line@, i as int) == Some(i as int));
                if acc <= 100 {
                    return Some(acc as u8);
                } else {
                    return None;
                }
            } else {
                proof {
                    assert(!match_at(line@, i as int));
                    assert(first_match_from(line@, i as int) == first_match_from(line@, i + 1));
                }
            }
        } else {
            proof {
                assert(!match_at(line@, i as int));
                assert(first_match_from(line@, i as int) == first_match_from(line@, i + 1));
            }
        }
        i += 1;
    }
    proof {
        assert(first_match_from(line@, i as int) is None);
    }
    None
}

/// State of a log-driven checker: the highest progress reported so far and
/// whether the readiness event has terminated the sequence.
#[derive(Clone, Copy, PartialEq, Eq, Structural, Debug)]
pub struct LogCheckerState {
    pub last: u8,
    pub done: bool,
}

/// What one log line does to a log-driven checker: no event for unmatched
/// or regressing lines, monotone progress otherwise, readiness exactly at
/// one hundred, and silence forever after readiness.
pub open spec fn log_step(st: LogCheckerState, parsed: Option<int>) -> (
    LogCheckerState,
    Seq<CheckerEvent>,
) {
    if st.done {
        (st, Seq::empty())
    } else {
        match parsed {
            Some(p) => {
                if p < st.last {
                    (st, Seq::empty())
                } else if p == 100 {
                    (
                        LogCheckerState { last: 100, done: true },
                        seq![CheckerEvent::Progress(100), CheckerEvent::Ready],
                    )
                } else {
                    (
                        LogCheckerState { last: p as u8, done: false },
                        seq![CheckerEvent::Progress(p as u8)],
                    )
                }
            },
            None => (st, Seq::empty()),
        }
    }
}

/// Log-driven health checker for one running container.
pub struct LogChecker {
    pub state: LogCheckerState,
}

impl LogChecker {
    pub fn new() -> (c: LogChecker)
        ensures
            c.state == (LogCheckerState { last: 0, done: false }),
    {
        LogChecker { state: LogCheckerState { last: 0, done: false } }
    }

    /// Consumes one log line and returns the events to report, in order.
    /// Unmatched lines are tolerated silently.
    pub fn on_log_line(&mut self, line: &[u8]) -> (events: Vec<CheckerEvent>)
        ensures
            (final(self).state, events@) == log_step(old(self).state, line_progress(line@)),
    {
        let mut events: Vec<CheckerEvent> = Vec::new();
        if self.state.done {
            return events;
        }
        match parse_progress(line) {
            Some(p) => {
                if p < self.state.last {
                    // A regressed figure is dropped so observed progress
                    // stays non-decreasing.
                } else if p == 100 {
                    self.state = LogCheckerState { last: 100, done: true };
                    events.push(CheckerEvent::Progress(100));
                    events.push(CheckerEvent::Ready);
                } else {
                    self.state = LogCheckerState { last: p, done: false };
                    events.push(CheckerEvent::Progress(p));
                }
            },
            None => {},
        }
        proof {
            assert(events@ == log_step(old(self).state, line_progress(line@)).1);
        }
        events
    }
}

/// A digit run covers digits only and does not go backwards.
proof fn lemma_run_digits(s: Seq<u8>, i: int)
    ensures
        run_end(s, i) >= i,
        forall|k: int| i <= k < run_end(s, i) ==> is_digit(s[k]),
    decreases s.len() - i,
{
    if 0 <= i < s.len() && is_digit(s[i]) {
        lemma_run_digits(s, i + 1);
    }
}

/// Digit runs read as nonnegative numbers.
proof fn lemma_digits_val_nonneg(s: Seq<u8>, i: int, j: int)
    requires
        forall|k: int| i <= k < j ==> is_digit(s[k]),
    ensures
        digits_val(s, i, j) >= 0,
    decreases j - i,
{
    if i < j {
        lemma_digits_val_nonneg(s, i, j - 1);
    }
}

/// A line's progress figure, when present, lies between zero and one
/// hundred.
pub proof fn lemma_line_progress_bounds(s: Seq<u8>)
    ensures
        match line_progress(s) {
            Some(p) => 0 <= p <= 100,
            None => true,
        },
{
    match first_match_from(s, 1) {
        Some(i) => {
            lemma_first_match_is_match(s, 1);
            lemma_run_digits(s, i);
            lemma_digits_val_nonneg(s, i, run_end(s, i));
        },
        None => {},
    }
}

/// The position the scan returns indeed starts a progress figure.
proof fn lemma_first_match_is_match(s: Seq<u8>, i: int)
    ensures
        match first_match_from(s, i) {
            Some(m) => match_at(s, m),
            None => true,
        },
    decreases s.len() - i,
{
    if i < s.len() && !match_at(s, i) {
        lemma_first_match_is_match(s, i + 1);
    }
}

/// Law: a log-driven checker never reports a progress figure below the one
/// it reported before, and its stored high-water mark never decreases.
pub proof fn lemma_log_progress_monotone(st: LogCheckerState, parsed: Option<int>)
    requires
        match parsed {
            Some(p) => 0 <= p <= 100,
            None => true,
        },
    ensures
        log_step(st, parsed).0.last >= st.last,
        forall|x: int|
            (0 <= x < log_step(st, parsed).1.len() && (log_step(st, parsed).1[x] matches
            CheckerEvent::Progress(p))) ==> log_step(st, parsed).1[x]->Progress_0 >= st.last,
{
}

/// Law: after the readiness event has terminated the sequence, no further
/// line produces any event or changes the checker.
pub proof fn lemma_log_silent_after_ready(st: LogCheckerState, parsed: Option<int>)
    requires
        st.done,
    ensures
        log_step(st, parsed) == (st, Seq::<CheckerEvent>::empty()),
{
}

/// The checker's state after a whole sequence of parsed lines, and every
/// event it emitted along the way, in order.
pub open spec fn log_run(st: LogCheckerState, parsed: Seq<Option<int>>) -> (
    LogCheckerState,
    Seq<CheckerEvent>,
)
    decreases parsed.len(),
{
    if parsed.len() == 0 {
        (st, Seq::empty())
    } else {
        let head = log_step(st, parsed[0]);
        let rest = log_run(head.0, parsed.drop_first());
        (rest.0, head.1 + rest.1)
    }
}

/// The progress payloads of an event sequence, in order.
pub open spec fn progress_values(evs: Seq<CheckerEvent>) -> Seq<int>
    decreases evs.len(),
{
    if evs.len() == 0 {
        Seq::empty()
    } else {
        match evs[0] {
            CheckerEvent::Progress(p) => seq![p as int] + progress_values(evs.drop_first()),
            _ => progress_values(evs.drop_first()),
        }
    }
}

/// A sequence that never goes down.
pub open spec fn non_decreasing(s: Seq<int>) -> bool {
    forall|i: int, j: int| 0 <= i <= j < s.len() ==> s[i] <= s[j]
}

proof fn lemma_progress_values_concat(a: Seq<CheckerEvent>, b: Seq<CheckerEvent>)
    ensures
        progress_values(a + b) =~= progress_values(a) + progress_values(b),
    decreases a.len(),
{
    if a.len() == 0 {
        assert(a + b =~= b);
    } else {
        assert((a + b).drop_first() =~= a.drop_first() + b);
        lemma_progress_values_concat(a.drop_first(), b);
    }
}

/// Law: over any whole sequence of log lines, the progress figures a
/// log-driven checker reports are non-decreasing, never below its stored
/// mark, and its mark never decreases — the observed progress of one
/// container lifetime only ever grows until readiness ends the sequence.
pub proof fn lemma_log_run_monotone(st: LogCheckerState, parsed: Seq<Option<int>>)
    requires
        forall|x: int|
            (0 <= x < parsed.len() && (#[trigger] parsed[x]) matches Some(p)) ==> (0
                <= parsed[x]->0 <= 100),
    ensures
        non_decreasing(progress_values(log_run(st, parsed).1)),
        forall|x: int|
            0 <= x < progress_values(log_run(st, parsed).1).len() ==> st.last <= #[trigger]
            progress_values(log_run(st, parsed).1)[x],
        log_run(st, parsed).0.last >= st.last,
    decreases parsed.len(),
{
    if parsed.len() > 0 {
        let head = log_step(st, parsed[0]);
        let rest = log_run(head.0, parsed.drop_first());
        assert(parsed.drop_first().len() == parsed.len() - 1);
        assert forall|x: int|
            (0 <= x < parsed.drop_first().len() && (#[trigger] parsed.drop_first()[x]) matches Some(
                p,
            )) implies (0 <= parsed.drop_first()[x]->0 <= 100) by {
            assert(parsed.drop_first()[x] == parsed[x + 1]);
        }
        lemma_log_run_monotone(head.0, parsed.drop_first());
        lemma_progress_values_concat(head.1, rest.1);
        let hv = progress_values(head.1);
        let rv = progress_values(rest.1);
        // The step emits at most one progress figure, at the new mark.
        assert(hv.len() <= 1 && (hv.len() == 1 ==> st.last <= hv[0] <= head.0.last)) by {
            assert(head.1.len() <= 2);
            if head.1.len() == 1 {
                let t = head.1.drop_first();
                assert(t.len() == 0);
                assert(progress_values(t) =~= Seq::<int>::empty());
                assert(head.1[0] is Progress);
                assert(hv =~= seq![head.1[0]->Progress_0 as int] + progress_values(t));
            }
            if head.1.len() == 2 {
                assert(head.1[0] is Progress && head.1[1] is Ready);
                let t = head.1.drop_first();
                assert(t.len() == 1 && t[0] is Ready);
                let t2 = t.drop_first();
                assert(t2.len() == 0);
                assert(progress_values(t2) =~= Seq::<int>::empty());
                assert(progress_values(t) =~= progress_values(t2));
                assert(hv =~= seq![head.1[0]->Progress_0 as int] + progress_values(t));
            }
        }
        assert(progress_values(log_run(st, parsed).1) =~= hv + rv);
    }
}

/// Result of one poll-driven probe, as handed back by the caller that
/// performed the external call.
pub enum ProbeOutcome {
    /// The probe answered with the service's identity.
    Identity(WalletIdentity),
    /// The probe gave no answer yet; not an error.
    NotReady,
    /// The external call itself errored out.
    ProbeFailed(CheckerCause),
}

/// State of a poll-driven checker: whether the identity was already
/// broadcast and readiness reported.
#[derive(Clone, Copy, PartialEq, Eq, Structural, Debug)]
pub struct PollCheckerState {
    pub identity_sent: bool,
}

/// Events and cross-task notification of one poll tick.
pub struct PollStep {
    pub events: Vec<CheckerEvent>,
    pub notify: Option<InnerEvent>,
}

/// Poll-driven health checker for one running container.
pub struct PollChecker {
    pub state: PollCheckerState,
}

impl PollChecker {
    pub fn new() -> (c: PollChecker)
        ensures
            c.state == (PollCheckerState { identity_sent: false }),
    {
        PollChecker { state: PollCheckerState { identity_sent: false } }
    }

    /// Consumes one probe outcome.  The first successful probe broadcasts
    /// the retrieved identity and reports readiness; a silent miss reports
    /// nothing; an explicit probe error reports a failure.
    pub fn on_poll(&mut self, outcome: ProbeOutcome) -> (r: PollStep)
        ensures
            match outcome {
                ProbeOutcome::Identity(id) => {
                    if old(self).state.identity_sent {
                        &&& r.events@ == Seq::<CheckerEvent>::empty()
                        &&& r.notify is None
                        &&& final(self).state == old(self).state
                    } else {
                        &&& r.events@ == seq![CheckerEvent::Ready]
                        &&& r.notify == Some(InnerEvent::WalletIdentityReady(id))
                        &&& final(self).state == (PollCheckerState { identity_sent: true })
                    }
                },
                ProbeOutcome::NotReady => {
                    &&& r.events@ == Seq::<CheckerEvent>::empty()
                    &&& r.notify is None
                    &&& final(self).state == old(self).state
                },
                ProbeOutcome::ProbeFailed(cause) => {
                    &&& r.events@ == seq![CheckerEvent::Failed(cause)]
                    &&& r.notify is None
                    &&& final(self).state == old(self).state
                },
            },
    {
        match outcome {
            ProbeOutcome::Identity(id) => {
                if self.state.identity_sent {
                    PollStep { events: Vec::new(), notify: None }
                } else {
                    self.state = PollCheckerState { identity_sent: true };
                    let mut events: Vec<CheckerEvent> = Vec::new();
                    events.push(CheckerEvent::Ready);
                    PollStep { events, notify: Some(InnerEvent::WalletIdentityReady(id)) }
                }
            },
            ProbeOutcome::NotReady => PollStep { events: Vec::new(), notify: None },
            ProbeOutcome::ProbeFailed(cause) => {
                let mut events: Vec<CheckerEvent> = Vec::new();
                events.push(CheckerEvent::Failed(cause));
                PollStep { events, notify: None }
            },
        }
    }
}

} // verus!
