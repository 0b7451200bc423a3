//! Supervising the profile-training bench: what each event from the running
//! engine means, and how the training run ends.
use vstd::prelude::*;
use crate::text::{seq_contains, seq_starts_with, str_contains, str_starts_with, string_of};

verus! {

/// How long training may run, in seconds.
pub const PGO_TRAINING_TIMEOUT_SECS: u64 = 1200;

/// How long the engine gets to exit after `quit`, in seconds.
pub const QUIT_TIMEOUT_SECS: u64 = 10;

/// What the supervisor observes while the bench runs.
#[derive(Clone, Debug, PartialEq, Eq)]
pub enum BenchEvent {
    /// The training deadline has passed.
    DeadlinePassed,
    /// The engine printed a line.
    Line(String),
    /// Reading the engine's output failed, with the error's text.
    ReadFailed(String),
    /// No line arrived in the polling interval. `exited` is the engine's exit,
    /// if it has exited: whether it succeeded, and its status as text.
    Quiet { exited: Option<(bool, String)> },
    /// The engine closed its output.
    Disconnected,
}

/// What the supervisor does next.
#[derive(Clone, Debug, PartialEq, Eq)]
pub enum BenchAction {
    /// Keep waiting for output.
    Continue,
    /// Stop reading: ask the engine to quit and judge its exit.
    Finish,
    /// Give up with the message, killing the engine first when `kill`.
    Fail { kill: bool, msg: String },
}

pub enum BenchActionSpec {
    Continue,
    Finish,
    Fail { kill: bool, msg: Seq<char> },
}

pub open spec fn action_view(a: BenchAction) -> BenchActionSpec {
    match a {
        BenchAction::Continue => BenchActionSpec::Continue,
        BenchAction::Finish => BenchActionSpec::Finish,
        BenchAction::Fail { kill, msg } => BenchActionSpec::Fail { kill, msg: msg@ },
    }
}

/// A line from the bench that shows a position was refused, which must
/// never be allowed to train a profile.
pub open spec fn is_illegal_position_line(line: Seq<char>) -> bool {
    seq_contains(line, "failed to parse"@) || seq_contains(line, "more than 8 pawns"@)
        || seq_contains(line, "not legal on the first or eighth rank"@)
}

/// The bench's closing summary.
pub open spec fn is_summary_line(line: Seq<char>) -> bool {
    seq_starts_with(line, "Nodes/second"@)
}

/// Response to one event, and whether the summary has now been seen.
pub open spec fn bench_step_spec(saw_summary: bool, event: BenchEvent) -> (bool, BenchActionSpec) {
    match event {
        BenchEvent::DeadlinePassed => (
            saw_summary,
            BenchActionSpec::Fail { kill: true, msg: "training bench timed out after 1200 seconds"@ },
        ),
        BenchEvent::Line(line) => if is_illegal_position_line(line@) {
            (
                saw_summary,
                BenchActionSpec::Fail {
                    kill: true,
                    msg: "PGO training hit an illegal bench position: "@ + line@,
                },
            )
        } else if is_summary_line(line@) {
            (true, BenchActionSpec::Finish)
        } else {
            (saw_summary, BenchActionSpec::Continue)
        },
        BenchEvent::ReadFailed(err) => (
            saw_summary,
            BenchActionSpec::Fail { kill: true, msg: "failed reading engine output: "@ + err@ },
        ),
        BenchEvent::Quiet { exited } => match exited {
            None => (saw_summary, BenchActionSpec::Continue),
            Some((true, _)) => (saw_summary, BenchActionSpec::Finish),
            Some((false, status)) => (
                saw_summary,
                BenchActionSpec::Fail {
                    kill: false,
                    msg: "training bench exited with status "@ + status@,
                },
            ),
        },
        BenchEvent::Disconnected => (saw_summary, BenchActionSpec::Finish),
    }
}

pub fn bench_step(saw_summary: &mut bool, event: BenchEvent) -> (action: BenchAction)
    ensures
        (*final(saw_summary), action_view(action)) == bench_step_spec(*old(saw_summary), event),
{
    match event {
        BenchEvent::DeadlinePassed => BenchAction::Fail {
            kill: true,
            msg: string_of("training bench timed out after 1200 seconds"),
        },
        BenchEvent::Line(line) => {
            let l = line.as_str();
            if str_contains(l, "failed to parse") || str_contains(l, "more than 8 pawns")
                || str_contains(l, "not legal on the first or eighth rank") {
                let mut msg = string_of("PGO training hit an illegal bench position: ");
                msg.append(l);
                BenchAction::Fail { kill: true, msg }
            } else if str_starts_with(l, "Nodes/second") {
                *saw_summary = true;
                BenchAction::Finish
            } else {
                BenchAction::Continue
            }
        },
        BenchEvent::ReadFailed(err) => {
            let mut msg = string_of("failed reading engine output: ");
            msg.append(err.as_str());
            BenchAction::Fail { kill: true, msg }
        },
        BenchEvent::Quiet { exited } => match exited {
            None => BenchAction::Continue,
            Some((success, status)) => {
                if success {
                    BenchAction::Finish
                } else {
                    let mut msg = string_of("training bench exited with status ");
                    msg.append(status.as_str());
                    BenchAction::Fail { kill: false, msg }
                }
            },
        },
        BenchEvent::Disconnected => BenchAction::Finish,
    }
}

/// How a finished training run is judged: the engine must exit successfully
/// after `quit`, and must have printed its summary.
pub open spec fn bench_outcome_spec(saw_summary: bool, exit_success: bool, status: Seq<char>) -> Result<
    (),
    Seq<char>,
> {
    if !exit_success {
        Err("training bench exited with status "@ + status)
    } else if !saw_summary {
        Err("training bench did not produce a bench summary"@)
    } else {
        Ok(())
    }
}

pub fn bench_outcome(saw_summary: bool, exit_success: bool, status: &str) -> (res: Result<
    (),
    String,
>)
    ensures
        match res {
            Ok(()) => bench_outcome_spec(saw_summary, exit_success, status@) == Ok::<(), Seq<char>>(()),
            Err(m) => bench_outcome_spec(saw_summary, exit_success, status@) == Err::<(), Seq<char>>(m@),
        },
{
    if !exit_success {
        let mut msg = string_of("training bench exited with status ");
        msg.append(status);
        return Err(msg);
    }
    if !saw_summary {
        return Err(string_of("training bench did not produce a bench summary"));
    }
    Ok(())
}

// ---------------------------------------------------------------- waiting for exit

/// How often a waiting supervisor looks at the engine, in milliseconds.
pub const WAIT_POLL_MILLIS: u64 = 25;

/// What waiting for the engine to exit does next.
#[derive(Clone, Debug, PartialEq, Eq)]
pub enum WaitNext<S> {
    /// The engine exited with this status.
    Exited(S),
    /// The deadline passed: kill the engine and take the status it dies with.
    KillAndWait,
    /// Sleep for the poll interval and look again.
    Sleep,
}

/// An exit seen is taken at once, even at the deadline; only a still-running
/// engine is killed when the deadline has passed.
pub fn wait_step<S>(exited: Option<S>, deadline_passed: bool) -> (n: WaitNext<S>)
    ensures
        match n {
            WaitNext::Exited(s) => exited == Some(s),
            WaitNext::KillAndWait => exited is None && deadline_passed,
            WaitNext::Sleep => exited is None && !deadline_passed,
        },
{
    match exited {
        Some(s) => WaitNext::Exited(s),
        None => if deadline_passed {
            WaitNext::KillAndWait
        } else {
            WaitNext::Sleep
        },
    }
}

// ---------------------------------------------------------------- profiles

/// Index of the last `.` in `name[..j]`, or -1 when there is none.
pub open spec fn last_dot_before(name: Seq<char>, j: int) -> int
    decreases j,
{
    if j <= 0 || j > name.len() {
        -1
    } else if name[j - 1] == '.' {
        j - 1
    } else {
        last_dot_before(name, j - 1)
    }
}

/// The extension of a file name, as `Path::extension` documents it: none
/// without a `.`, none when the only `.` begins the name, else what follows
/// the last `.`.
pub open spec fn file_extension(name: Seq<char>) -> Option<Seq<char>> {
    let p = last_dot_before(name, name.len() as int);
    if p <= 0 {
        None
    } else {
        Some(name.subrange(p + 1, name.len() as int))
    }
}

/// Whether a file in the raw-profile directory is a raw profile.
pub fn is_profraw_file(name: &str) -> (b: bool)
    ensures
        b == (file_extension(name@) == Some("profraw"@)),
{
    let n = name.unicode_len();
    let mut j = n;
    while j > 0 && name.get_char(j - 1) != '.'
        invariant
            n == name@.len(),
            j <= n,
            last_dot_before(name@, n as int) == last_dot_before(name@, j as int),
        decreases j,
    {
        j -= 1;
    }
    if j <= 1 {
        return false;
    }
    let ext = name.substring_char(j, n);
    crate::text::str_equals(ext, "profraw")
}

/// The error for a failed merge: its status, then the target's hint.
pub open spec fn merge_failure_message_spec(status: Seq<char>, target: Seq<char>) -> Seq<char> {
    "llvm-profdata merge failed with status "@ + status + crate::release::pgo_merge_hint_spec(
        target,
    )
}

pub fn merge_failure_message(status: &str, target: &str) -> (msg: String)
    ensures
        msg@ == merge_failure_message_spec(status@, target@),
{
    let mut msg = string_of("llvm-profdata merge failed with status ");
    msg.append(status);
    let hint = crate::release::pgo_merge_hint(target);
    msg.append(hint.as_str());
    msg
}

// ---------------------------------------------------------------- laws

/// A refused bench position never trains a profile: whatever was seen
/// before, the run is stopped and the engine killed at once.
pub proof fn lemma_illegal_position_stops_training(saw_summary: bool, line: String)
    requires
        is_illegal_position_line(line@),
    ensures
        bench_step_spec(saw_summary, BenchEvent::Line(line)).1 matches BenchActionSpec::Fail {
            kill,
            ..
        } && kill,
{
}

/// A training run succeeds only when the engine printed its summary and then
/// exited successfully.
pub proof fn lemma_training_success_needs_summary(saw_summary: bool, exit_success: bool, status: Seq<char>)
    ensures
        bench_outcome_spec(saw_summary, exit_success, status) is Ok <==> (saw_summary
            && exit_success),
{
}

} // verus!
