//! The decisions of a comparison run.
//!
//! A run checks whether the two inputs are one and the same, reads them, runs
//! the diff engine of the chosen format, writes its output and ends with an
//! exit status: 0 when no differences were found, 1 when some were found,
//! and 2 on trouble. The work with files, streams and the engines is done by
//! the caller; what to do next, and how the run ends, is decided here, one
//! step per outcome that the caller reports.

use vstd::prelude::*;
use crate::format::Format;
use crate::params::{Params, stdin_operand};

verus! {

/// Where a run stands: what it waits for.
#[derive(Clone, Copy, Debug, PartialEq, Eq, Structural)]
pub enum CompareState {
    /// Waits to learn whether both operands name the same file.
    AwaitSameFile,
    /// Waits for the contents of both inputs.
    AwaitInputs,
    /// Waits for the output of the diff engine.
    AwaitDiff,
    /// Waits for the engine's output to be written; records whether that
    /// output is empty (no differences).
    AwaitWrite { result_empty: bool },
    /// The run has ended.
    Done,
}

/// How writing the engine's output went.
#[derive(Clone, Copy, Debug, PartialEq, Eq, Structural)]
pub enum WriteOutcome {
    Written,
    /// The reader of the output went away.
    BrokenPipe,
    /// Any other write error.
    Failed,
}

/// What the caller reports back after doing what it was asked.
#[derive(Clone, Copy, Debug, PartialEq, Eq, Structural)]
pub enum CompareEvent {
    /// Whether the file system reports both operands as the same file
    /// (false where it cannot tell).
    SameFile(bool),
    /// Whether each input could be read.
    InputsRead { from_ok: bool, to_ok: bool },
    /// The engine ran; whether its output is empty.
    Diffed { result_empty: bool },
    /// The engine refused the inputs.
    DiffFailed,
    /// How writing the output went.
    Written(WriteOutcome),
}

/// Which inputs could not be read.
#[derive(Clone, Copy, Debug, PartialEq, Eq, Structural)]
pub enum ReadFailure {
    /// The first input (the second was read).
    From,
    /// The second input (the first was read).
    To,
    /// Both inputs; both errors are reported.
    Both,
}

/// How a run ends when it ends normally.
#[derive(Clone, Copy, Debug, PartialEq, Eq, Structural)]
pub struct Conclusion {
    /// Report that the files are identical.
    pub report_identical: bool,
    /// Report that the files differ (in place of the differences).
    pub report_different: bool,
    /// Show the error that the output's reader went away.
    pub show_broken_pipe: bool,
    /// Show the error that writing the output failed.
    pub show_write_error: bool,
    /// The exit status.
    pub exit_code: i32,
}

/// What the caller is to do next.
#[derive(Clone, Copy, Debug, PartialEq, Eq, Structural)]
pub enum CompareAction {
    /// Ask the file system whether both operands name the same file.
    CheckSameFile,
    /// Read both inputs.
    ReadInputs,
    /// Run the diff engine of this output format on the two inputs read.
    RunDiff(Format),
    /// Write the engine's output.
    WriteResult,
    /// End the run with the read error(s).
    FailRead(ReadFailure),
    /// End the run with the engine's error.
    FailDiff,
    /// End the run.
    Finish(Conclusion),
}

/// Whether both operands are standard input.
pub open spec fn both_stdin(p: Params) -> bool {
    p.from@ == stdin_operand() && p.to@ == stdin_operand()
}

/// The end of a run whose inputs are identical, or whose engine found no
/// differences and whose output was written (or its reader went away).
pub open spec fn no_differences(p: Params, broken_pipe: bool) -> Conclusion {
    Conclusion {
        report_identical: p.report_identical_files,
        report_different: false,
        show_broken_pipe: broken_pipe,
        show_write_error: false,
        exit_code: 0,
    }
}

/// The end of a run whose engine found differences.
pub open spec fn differences(report_different: bool, broken_pipe: bool) -> Conclusion {
    Conclusion {
        report_identical: false,
        report_different,
        show_broken_pipe: broken_pipe,
        show_write_error: false,
        exit_code: 1,
    }
}

/// How a run starts.
pub open spec fn start_spec(p: Params) -> (CompareState, CompareAction) {
    if both_stdin(p) {
        (CompareState::Done, CompareAction::Finish(no_differences(p, false)))
    } else {
        (CompareState::AwaitSameFile, CompareAction::CheckSameFile)
    }
}

/// Whether `e` answers what a run in state `s` waits for.
pub open spec fn event_fits(s: CompareState, e: CompareEvent) -> bool {
    match s {
        CompareState::AwaitSameFile => e is SameFile,
        CompareState::AwaitInputs => e is InputsRead,
        CompareState::AwaitDiff => e is Diffed || e is DiffFailed,
        CompareState::AwaitWrite { .. } => e is Written,
        CompareState::Done => false,
    }
}

/// One step of a run: the state it goes to and what the caller does next.
pub open spec fn step_spec(p: Params, s: CompareState, e: CompareEvent) -> (
    CompareState,
    CompareAction,
) {
    match (s, e) {
        (CompareState::AwaitSameFile, CompareEvent::SameFile(same)) => if same {
            (CompareState::Done, CompareAction::Finish(no_differences(p, false)))
        } else {
            (CompareState::AwaitInputs, CompareAction::ReadInputs)
        },
        (CompareState::AwaitInputs, CompareEvent::InputsRead { from_ok, to_ok }) => if from_ok
            && to_ok {
            (CompareState::AwaitDiff, CompareAction::RunDiff(p.format_out))
        } else if !from_ok && to_ok {
            (CompareState::Done, CompareAction::FailRead(ReadFailure::From))
        } else if !from_ok {
            (CompareState::Done, CompareAction::FailRead(ReadFailure::Both))
        } else {
            (CompareState::Done, CompareAction::FailRead(ReadFailure::To))
        },
        (CompareState::AwaitDiff, CompareEvent::Diffed { result_empty }) => if p.brief
            && !result_empty {
            (CompareState::Done, CompareAction::Finish(differences(true, false)))
        } else {
            (CompareState::AwaitWrite { result_empty }, CompareAction::WriteResult)
        },
        (CompareState::AwaitDiff, CompareEvent::DiffFailed) => (
            CompareState::Done,
            CompareAction::FailDiff,
        ),
        (CompareState::AwaitWrite { result_empty }, CompareEvent::Written(outcome)) => match outcome {
            WriteOutcome::Failed => (
                CompareState::Done,
                CompareAction::Finish(
                    Conclusion {
                        report_identical: false,
                        report_different: false,
                        show_broken_pipe: false,
                        show_write_error: true,
                        exit_code: 2,
                    },
                ),
            ),
            _ => {
                let broken_pipe = outcome == WriteOutcome::BrokenPipe;
                if result_empty {
                    (CompareState::Done, CompareAction::Finish(no_differences(p, broken_pipe)))
                } else {
                    (CompareState::Done, CompareAction::Finish(differences(false, broken_pipe)))
                }
            },
        },
        _ => (CompareState::Done, CompareAction::FailDiff),
    }
}

/// Whether both operands are standard input, "-".
fn is_stdin_pair(from: &Vec<u8>, to: &Vec<u8>) -> (r: bool)
    ensures
        r == (from@ == stdin_operand() && to@ == stdin_operand()),
{
    let r = from.len() == 1 && from[0] == 45u8 && to.len() == 1 && to[0] == 45u8;
    proof {
        if from@.len() == 1 && from@[0] == 45u8 {
            assert(from@ =~= stdin_operand());
        }
        if to@.len() == 1 && to@[0] == 45u8 {
            assert(to@ =~= stdin_operand());
        }
    }
    r
}

/// Starts a run: operands that are both standard input need no comparison
/// (the run ends as for identical files); otherwise the file system is asked
/// whether both name the same file.
pub fn compare_start(params: &Params) -> (r: (CompareState, CompareAction))
    ensures
        r == start_spec(*params),
        r.1 matches CompareAction::Finish(c) ==> c.exit_code == 0 && c.report_identical
            == params.report_identical_files,
{
    if is_stdin_pair(&params.from, &params.to) {
        (CompareState::Done, CompareAction::Finish(finish_no_differences(params, false)))
    } else {
        (CompareState::AwaitSameFile, CompareAction::CheckSameFile)
    }
}

fn finish_no_differences(params: &Params, broken_pipe: bool) -> (c: Conclusion)
    ensures
        c == no_differences(*params, broken_pipe),
{
    Conclusion {
        report_identical: params.report_identical_files,
        report_different: false,
        show_broken_pipe: broken_pipe,
        show_write_error: false,
        exit_code: 0,
    }
}

/// Takes one step of a run: from the state and the caller's report to the
/// next state and what the caller does next.
///
/// Identical inputs end the run at once (status 0, reported if asked for).
/// An input that cannot be read ends it with that error, or both errors.
/// With `brief`, differences are reported in one line instead of written.
/// After the output is written the status is 0 without differences and 1
/// with them; a reader that went away is shown but does not change the
/// status; any other write error is shown and the status is 2.
pub fn compare_step(params: &Params, state: CompareState, event: CompareEvent) -> (r: (
    CompareState,
    CompareAction,
))
    requires
        event_fits(state, event),
    ensures
        r == step_spec(*params, state, event),
        r.1 matches CompareAction::RunDiff(f) ==> f == params.format_out,
        state == CompareState::AwaitInputs && event == (CompareEvent::InputsRead {
            from_ok: true,
            to_ok: true,
        }) ==> r == (CompareState::AwaitDiff, CompareAction::RunDiff(params.format_out)),
        event == CompareEvent::SameFile(true) ==> r.0 == CompareState::Done && (r.1 matches CompareAction::Finish(c)
            && c.exit_code == 0 && c.report_identical == params.report_identical_files),
        r.1 matches CompareAction::Finish(c) ==> (c.exit_code == 0 ==> c.report_identical
            == params.report_identical_files),
        event matches CompareEvent::InputsRead { from_ok, to_ok } ==> (r.1 matches CompareAction::FailRead(f)
            ==> ((f == ReadFailure::From) == (!from_ok && to_ok) && (f == ReadFailure::To) == (
        from_ok && !to_ok) && (f == ReadFailure::Both) == (!from_ok && !to_ok))) && ((from_ok
            && to_ok) != (r.1 is FailRead)),
{
    match (state, event) {
        (CompareState::AwaitSameFile, CompareEvent::SameFile(same)) => {
            if same {
                (CompareState::Done, CompareAction::Finish(finish_no_differences(params, false)))
            } else {
                (CompareState::AwaitInputs, CompareAction::ReadInputs)
            }
        },
        (CompareState::AwaitInputs, CompareEvent::InputsRead { from_ok, to_ok }) => {
            if from_ok && to_ok {
                (CompareState::AwaitDiff, CompareAction::RunDiff(params.format_out))
            } else if !from_ok && to_ok {
                (CompareState::Done, CompareAction::FailRead(ReadFailure::From))
            } else if !from_ok {
                (CompareState::Done, CompareAction::FailRead(ReadFailure::Both))
            } else {
                (CompareState::Done, CompareAction::FailRead(ReadFailure::To))
            }
        },
        (CompareState::AwaitDiff, CompareEvent::Diffed { result_empty }) => {
            if params.brief && !result_empty {
                (
                    CompareState::Done,
                    CompareAction::Finish(
                        Conclusion {
                            report_identical: false,
                            report_different: true,
                            show_broken_pipe: false,
                            show_write_error: false,
                            exit_code: 1,
                        },
                    ),
                )
            } else {
                (CompareState::AwaitWrite { result_empty }, CompareAction::WriteResult)
            }
        },
        (CompareState::AwaitDiff, CompareEvent::DiffFailed) => (
            CompareState::Done,
            CompareAction::FailDiff,
        ),
        (CompareState::AwaitWrite { result_empty }, CompareEvent::Written(outcome)) => {
            match outcome {
                WriteOutcome::Failed => (
                    CompareState::Done,
                    CompareAction::Finish(
                        Conclusion {
                            report_identical: false,
                            report_different: false,
                            show_broken_pipe: false,
                            show_write_error: true,
                            exit_code: 2,
                        },
                    ),
                ),
                _ => {
                    let broken_pipe = match outcome {
                        WriteOutcome::BrokenPipe => true,
                        _ => false,
                    };
                    if result_empty {
                        (
                            CompareState::Done,
                            CompareAction::Finish(finish_no_differences(params, broken_pipe)),
                        )
                    } else {
                        (
                            CompareState::Done,
                            CompareAction::Finish(
                                Conclusion {
                                    report_identical: false,
                                    report_different: false,
                                    show_broken_pipe: broken_pipe,
                                    show_write_error: false,
                                    exit_code: 1,
                                },
                            ),
                        )
                    }
                },
            }
        },
        _ => (CompareState::Done, CompareAction::FailDiff),
    }
}


/// How far a run is from its end: each stage waits for less than the one
/// before it.
pub open spec fn stages_left(s: CompareState) -> nat {
    match s {
        CompareState::AwaitSameFile => 4,
        CompareState::AwaitInputs => 3,
        CompareState::AwaitDiff => 2,
        CompareState::AwaitWrite { .. } => 1,
        CompareState::Done => 0,
    }
}

/// Whether an action ends the run.
pub open spec fn ends_run(a: CompareAction) -> bool {
    a is FailRead || a is FailDiff || a is Finish
}

/// A run always makes progress and ends: every step leads to a later stage,
/// and the run is over exactly when the action ends it. So a run takes at
/// most five steps.
pub proof fn lemma_compare_progress(p: Params, s: CompareState, e: CompareEvent)
    requires
        event_fits(s, e),
    ensures
        stages_left(step_spec(p, s, e).0) < stages_left(s),
        (step_spec(p, s, e).0 == CompareState::Done) == ends_run(step_spec(p, s, e).1),
        (start_spec(p).0 == CompareState::Done) == ends_run(start_spec(p).1),
{
}

/// The exit status of a run that ends normally is 0 when no differences were
/// found (the operands are identical, or the engine's output is empty), 1
/// when some were found, and 2 on trouble (the output could not be
/// written). Identical files are reported only when asked for, and only with
/// status 0; differences are reported in one line only in brief mode.
pub proof fn lemma_compare_exit_status(p: Params, s: CompareState, e: CompareEvent)
    requires
        event_fits(s, e),
    ensures
        start_spec(p).1 matches CompareAction::Finish(c) ==> c.exit_code == 0 && both_stdin(p),
        step_spec(p, s, e).1 matches CompareAction::Finish(c) ==> {
            &&& c.exit_code == 0 <==> (e == CompareEvent::SameFile(true) || (s
                == CompareState::AwaitWrite { result_empty: true } && e != CompareEvent::Written(
                WriteOutcome::Failed,
            )))
            &&& c.exit_code == 1 <==> (e == CompareEvent::Diffed { result_empty: false } || (s
                == CompareState::AwaitWrite { result_empty: false } && e != CompareEvent::Written(
                WriteOutcome::Failed,
            )))
            &&& c.exit_code == 2 <==> e == CompareEvent::Written(WriteOutcome::Failed)
            &&& c.report_identical ==> p.report_identical_files && c.exit_code == 0
            &&& c.report_different ==> p.brief && c.exit_code == 1
        },
{
}


/// The engine that runs is the one of the output format chosen in the
/// settings (an ed script for `-e`, and so on), and it runs exactly when
/// both inputs were read.
pub proof fn lemma_engine_of_chosen_format(p: Params, s: CompareState, e: CompareEvent)
    requires
        event_fits(s, e),
    ensures
        step_spec(p, s, e).1 matches CompareAction::RunDiff(f) ==> f == p.format_out && s
            == CompareState::AwaitInputs && e == (CompareEvent::InputsRead {
            from_ok: true,
            to_ok: true,
        }),
        s == CompareState::AwaitInputs && e == (CompareEvent::InputsRead {
            from_ok: true,
            to_ok: true,
        }) ==> step_spec(p, s, e) == (CompareState::AwaitDiff, CompareAction::RunDiff(p.format_out)),
        !(start_spec(p).1 is RunDiff),
{
}

/// Whenever a run ends without differences (status 0) the identical files
/// are reported exactly when the settings ask for it (`-s`), whether the
/// operands were one file or the engine found nothing; and operands that
/// are one file end the run at once in that way.
pub proof fn lemma_identical_report_follows_setting(p: Params, s: CompareState, e: CompareEvent)
    requires
        event_fits(s, e),
    ensures
        start_spec(p).1 matches CompareAction::Finish(c) ==> c.report_identical
            == p.report_identical_files,
        step_spec(p, s, e).1 matches CompareAction::Finish(c) ==> (c.exit_code == 0
            ==> c.report_identical == p.report_identical_files),
        e == CompareEvent::SameFile(true) ==> step_spec(p, s, e).0 == CompareState::Done && (step_spec(
            p,
            s,
            e,
        ).1 matches CompareAction::Finish(c) && c.exit_code == 0 && c.report_identical
            == p.report_identical_files),
{
}

} // verus!
