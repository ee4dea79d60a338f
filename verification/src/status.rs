//! The lifecycle status of a tracked task, and the reconciliation of a
//! polled process state into such a status.

use vstd::prelude::*;
use vstd::string::StringExecFns;

verus! {

/// The status of a tracked task: still running, exited successfully with an
/// exit code, or failed (non-zero exit, death by signal, or a poll error)
/// with a human-readable reason.
#[derive(Debug, Clone)]
pub enum TaskStatus {
    Running,
    Completed(i32),
    Failed(String),
}

/// The mathematical model of a [`TaskStatus`]: the failure reason is a
/// sequence of characters.
pub enum StatusModel {
    Running,
    Completed(i32),
    Failed(Seq<char>),
}

impl View for TaskStatus {
    type V = StatusModel;

    open spec fn view(&self) -> StatusModel {
        match self {
            TaskStatus::Running => StatusModel::Running,
            TaskStatus::Completed(code) => StatusModel::Completed(*code),
            TaskStatus::Failed(reason) => StatusModel::Failed(reason@),
        }
    }
}

/// A status is terminal when it is no longer `Running`; a task's status
/// transitions at most once, from `Running` into a terminal status.
pub open spec fn is_terminal(s: StatusModel) -> bool {
    !(s is Running)
}

/// An exact copy of a status: same variant, same payload.
pub(crate) fn clone_status(s: &TaskStatus) -> (r: TaskStatus)
    ensures
        r@ == s@,
{
    match s {
        TaskStatus::Running => TaskStatus::Running,
        TaskStatus::Completed(code) => TaskStatus::Completed(*code),
        TaskStatus::Failed(reason) => TaskStatus::Failed(reason.clone()),
    }
}

/// The character of one decimal digit.
pub open spec fn decimal_digit(d: int) -> char
    recommends
        0 <= d < 10,
{
    if d == 0 {
        '0'
    } else if d == 1 {
        '1'
    } else if d == 2 {
        '2'
    } else if d == 3 {
        '3'
    } else if d == 4 {
        '4'
    } else if d == 5 {
        '5'
    } else if d == 6 {
        '6'
    } else if d == 7 {
        '7'
    } else if d == 8 {
        '8'
    } else {
        '9'
    }
}

/// The decimal digits of a non-negative integer, most significant first.
pub open spec fn decimal_of(n: int) -> Seq<char>
    recommends
        n >= 0,
    decreases n,
{
    if n < 10 {
        seq![decimal_digit(n)]
    } else {
        decimal_of(n / 10).push(decimal_digit(n % 10))
    }
}

/// The decimal rendering of an integer: its digits, after a `-` sign when it
/// is negative.
pub open spec fn decimal_int(n: int) -> Seq<char> {
    if n < 0 {
        seq!['-'] + decimal_of(-n)
    } else {
        decimal_of(n)
    }
}

/// The one-character string of one decimal digit.
fn digit_str(d: u32) -> (r: &'static str)
    requires
        d < 10,
    ensures
        r@ == seq![decimal_digit(d as int)],
{
    proof {
        reveal_strlit("0");
        reveal_strlit("1");
        reveal_strlit("2");
        reveal_strlit("3");
        reveal_strlit("4");
        reveal_strlit("5");
        reveal_strlit("6");
        reveal_strlit("7");
        reveal_strlit("8");
        reveal_strlit("9");
    }
    let r = match d {
        0 => "0",
        1 => "1",
        2 => "2",
        3 => "3",
        4 => "4",
        5 => "5",
        6 => "6",
        7 => "7",
        8 => "8",
        _ => "9",
    };
    proof {
        assert(r@ =~= seq![decimal_digit(d as int)]);
    }
    r
}

/// Appends the decimal digits of `n`, most significant first.
fn append_decimal(out: &mut String, n: u32)
    ensures
        final(out)@ == old(out)@ + decimal_of(n as int),
    decreases n,
{
    if n < 10 {
        out.append(digit_str(n));
    } else {
        append_decimal(out, n / 10);
        out.append(digit_str(n % 10));
        proof {
            assert(out@ =~= old(out)@ + decimal_of(n as int));
        }
    }
}

/// Renders an integer in decimal: its digits, after a `-` sign when it is
/// negative.
fn decimal_string(n: i32) -> (r: String)
    ensures
        r@ == decimal_int(n as int),
{
    let mut out = String::new();
    if n < 0 {
        proof {
            reveal_strlit("-");
        }
        out.append("-");
        proof {
            assert(out@ =~= seq!['-']);
        }
        let magnitude = (-(n as i64)) as u32;
        append_decimal(&mut out, magnitude);
        proof {
            assert(out@ =~= decimal_int(n as int));
        }
    } else {
        append_decimal(&mut out, n as u32);
    }
    out
}

/// The reason recorded for a process that exited unsuccessfully: its exit
/// code rendered as an optional value, so that a missing code (death by
/// signal) stays distinguishable from every real code.
pub open spec fn exit_reason(code: Option<i32>) -> Seq<char> {
    match code {
        Option::Some(c) => "Exit code: Some("@ + decimal_int(c as int) + ")"@,
        Option::None => "Exit code: None"@,
    }
}

/// Renders the failure reason for an unsuccessful exit status.
pub fn format_exit_reason(code: Option<i32>) -> (r: String)
    ensures
        r@ == exit_reason(code),
{
    match code {
        Option::Some(c) => {
            let mut m = String::from_str("Exit code: Some(");
            let digits = decimal_string(c);
            m.append(digits.as_str());
            m.append(")");
            proof {
                assert(m@ =~= exit_reason(code));
            }
            m
        },
        Option::None => String::from_str("Exit code: None"),
    }
}

/// The outcome of one non-blocking poll of a live process handle.
#[derive(Debug)]
pub enum PollResult {
    /// The process has not exited yet.
    StillRunning,
    /// The process has exited: `success` is whether the OS reported the exit
    /// as successful, `code` its exit code (`None` when the process was
    /// terminated by a signal).
    Exited { success: bool, code: Option<i32> },
    /// The OS failed to report the process state; the reason is its error.
    PollFailed(String),
}

/// The mathematical model of a [`PollResult`].
pub enum PollModel {
    StillRunning,
    Exited { success: bool, code: Option<i32> },
    PollFailed(Seq<char>),
}

impl View for PollResult {
    type V = PollModel;

    open spec fn view(&self) -> PollModel {
        match self {
            PollResult::StillRunning => PollModel::StillRunning,
            PollResult::Exited { success, code } => PollModel::Exited {
                success: *success,
                code: *code,
            },
            PollResult::PollFailed(reason) => PollModel::PollFailed(reason@),
        }
    }
}

/// The status that one poll outcome reconciles to: a process that has not
/// exited is still `Running`; a successful exit completes the task with its
/// exit code (0 when the OS reported success without a code); an
/// unsuccessful exit, or a failed poll, fails it with the reason.
pub open spec fn reconciled(o: PollModel) -> StatusModel {
    match o {
        PollModel::StillRunning => StatusModel::Running,
        PollModel::Exited { success, code } => if success {
            StatusModel::Completed(
                match code {
                    Option::Some(c) => c,
                    Option::None => 0,
                },
            )
        } else {
            StatusModel::Failed(exit_reason(code))
        },
        PollModel::PollFailed(reason) => StatusModel::Failed(reason),
    }
}

/// Reconciliation: folds one poll outcome into the status it stands for.
pub fn reconcile(outcome: PollResult) -> (r: TaskStatus)
    ensures
        r@ == reconciled(outcome@),
{
    match outcome {
        PollResult::StillRunning => TaskStatus::Running,
        PollResult::Exited { success, code } => {
            if success {
                TaskStatus::Completed(code.unwrap_or(0))
            } else {
                TaskStatus::Failed(format_exit_reason(code))
            }
        },
        PollResult::PollFailed(reason) => TaskStatus::Failed(reason),
    }
}

/// One observation step of a task's status, as the reconciler allows it: a
/// terminal status never changes; only a running task may move on.
pub open spec fn status_step(pre: StatusModel, post: StatusModel) -> bool {
    is_terminal(pre) ==> post == pre
}

proof fn lemma_terminal_persists(trace: Seq<StatusModel>, j: int, k: int)
    requires
        forall|m: int| 0 <= m && m + 1 < trace.len() ==> #[trigger] status_step(trace[m], trace[m + 1]),
        0 <= j <= k < trace.len(),
        is_terminal(trace[j]),
    ensures
        trace[k] == trace[j],
    decreases k - j,
{
    if j < k {
        let m: int = k - 1;
        assert(status_step(trace[m], trace[m + 1]));
        lemma_terminal_persists(trace, j, m);
    }
}

/// Monotone status: along any run of observed statuses in which every step
/// obeys [`status_step`] — what repeated reconciliation of one task yields —
/// every status before the first terminal one is `Running`, and once a
/// terminal status appears, every later observation is that same value.
pub proof fn lemma_status_monotone(trace: Seq<StatusModel>)
    requires
        forall|m: int| 0 <= m && m + 1 < trace.len() ==> #[trigger] status_step(trace[m], trace[m + 1]),
    ensures
        forall|m: int| 0 <= m < trace.len() && !is_terminal(trace[m]) ==> trace[m] is Running,
        forall|j: int, k: int|
            0 <= j <= k < trace.len() && is_terminal(trace[j]) ==> trace[k] == trace[j],
{
    assert forall|j: int, k: int|
        0 <= j <= k < trace.len() && is_terminal(trace[j]) implies trace[k] == trace[j] by {
        lemma_terminal_persists(trace, j, k);
    }
}

} // verus!
