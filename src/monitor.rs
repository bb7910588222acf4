//! The cancellation monitor: reads lines of the side channel and decides when
//! the shared cancellation flag is set.
use crate::message::MessageCommunicate;
use vstd::prelude::*;
use vstd::string::StringExecFns;

verus! {

/// What `str::trim_end` makes of a line.
pub uninterp spec fn trimmed_end(s: Seq<char>) -> Seq<char>;

/// Relies on `str::trim_end`: the line without its trailing whitespace, which
/// is a prefix of the line.
#[verifier::external_body]
fn trim_end(s: &str) -> (r: String)
    ensures
        r@ == trimmed_end(s@),
        r@.len() <= s@.len(),
        r@ == s@.subrange(0, r@.len() as int),
{
    s.trim_end().to_string()
}

/// Whether a side-channel line is the shutdown sentinel, trailing whitespace
/// (such as the line break) aside.
pub open spec fn spec_is_closed_signal(line: Seq<char>) -> bool {
    trimmed_end(line) == MessageCommunicate::CLOSED_SIGNAL@
}

/// Whether `line` is the shutdown sentinel, trailing whitespace aside.
pub fn is_closed_signal(line: &str) -> (r: bool)
    ensures
        r == spec_is_closed_signal(line@),
{
    let trimmed = trim_end(line);
    let signal = String::from_str(MessageCommunicate::CLOSED_SIGNAL);
    trimmed == signal
}

/// What the monitor asks of its runner after a line, or the end of the stream.
#[derive(Debug, Clone, Copy, PartialEq, Eq, Structural)]
pub enum MonitorAction {
    /// Discard the line and read the next one.
    ReadLine,
    /// Set the cancellation flag; the monitor has ended.
    Cancel,
    /// The monitor has ended without setting the flag.
    Stop,
}

/// The state of the cancellation monitor.
#[derive(Debug, Clone, Copy, PartialEq, Eq, Structural)]
pub struct CancelMonitor {
    /// Whether the monitor has set the cancellation flag.
    pub cancelled: bool,
    /// Whether the monitor has ended.
    pub finished: bool,
}

/// One step of the monitor on a line, or on the end of the stream (`None`).
pub open spec fn monitor_step(m: CancelMonitor, line: Option<Seq<char>>) -> (
    CancelMonitor,
    MonitorAction,
) {
    if m.finished {
        (m, MonitorAction::Stop)
    } else {
        match line {
            None => (CancelMonitor { cancelled: m.cancelled, finished: true }, MonitorAction::Stop),
            Some(l) => if spec_is_closed_signal(l) {
                (CancelMonitor { cancelled: true, finished: true }, MonitorAction::Cancel)
            } else {
                (m, MonitorAction::ReadLine)
            },
        }
    }
}

/// The monitor after the lines `lines`, in order, starting from `m`.
pub open spec fn run_monitor(m: CancelMonitor, lines: Seq<Option<Seq<char>>>) -> CancelMonitor
    decreases lines.len(),
{
    if lines.len() == 0 {
        m
    } else {
        monitor_step(run_monitor(m, lines.drop_last()), lines.last()).0
    }
}

impl CancelMonitor {
    /// A monitor that has neither ended nor set the flag.
    pub fn new() -> (r: CancelMonitor)
        ensures
            !r.cancelled,
            !r.finished,
    {
        CancelMonitor { cancelled: false, finished: false }
    }

    /// Takes one line of the side channel, or `None` at its end. The sentinel
    /// sets the flag and ends the monitor; the end of the stream ends it and
    /// leaves the flag as it was; any other line is discarded. An ended
    /// monitor stays as it is.
    pub fn on_line(&mut self, line: Option<&str>) -> (r: MonitorAction)
        ensures
            (*final(self), r) == monitor_step(
                *old(self),
                match line {
                    Some(l) => Some(l@),
                    None => None,
                },
            ),
            old(self).cancelled ==> final(self).cancelled,
    {
        if self.finished {
            return MonitorAction::Stop;
        }
        match line {
            None => {
                self.finished = true;
                MonitorAction::Stop
            },
            Some(l) => {
                if is_closed_signal(l) {
                    self.cancelled = true;
                    self.finished = true;
                    MonitorAction::Cancel
                } else {
                    MonitorAction::ReadLine
                }
            },
        }
    }
}

/// Once the monitor has set the cancellation flag it stays set, whatever
/// lines come after: the flag, seen set after the first `i` lines, is set
/// after any later count `j`.
pub proof fn lemma_cancel_monotone(
    m: CancelMonitor,
    lines: Seq<Option<Seq<char>>>,
    i: int,
    j: int,
)
    requires
        0 <= i <= j <= lines.len(),
        run_monitor(m, lines.take(i)).cancelled,
    ensures
        run_monitor(m, lines.take(j)).cancelled,
    decreases j - i,
{
    if j > i {
        lemma_cancel_monotone(m, lines, i, j - 1);
        assert(lines.take(j).drop_last() =~= lines.take(j - 1));
    }
}

/// The sentinel, with or without trailing whitespace, ends the monitor with
/// the flag set; the end of the stream ends it with the flag as it was.
pub proof fn lemma_sentinel_cancels(m: CancelMonitor, line: Seq<char>)
    requires
        !m.finished,
        spec_is_closed_signal(line),
    ensures
        monitor_step(m, Some(line)) == (
        CancelMonitor { cancelled: true, finished: true },
        MonitorAction::Cancel,
        ),
        monitor_step(m, None) == (
        CancelMonitor { cancelled: m.cancelled, finished: true },
        MonitorAction::Stop,
        ),
{
}

} // verus!
