use uu_diff::args::DiffArgs;
use uu_diff::compare::{
    compare_start, compare_step, CompareAction, CompareEvent, CompareState, Conclusion,
    ReadFailure, WriteOutcome,
};
use uu_diff::format::Format;
use uu_diff::params::Params;

fn params(from: &str, to: &str) -> Params {
    let a = DiffArgs {
        files: vec![from.as_bytes().to_vec(), to.as_bytes().to_vec()],
        ..DiffArgs::default()
    };
    Params::try_from(a, "diff").unwrap()
}

fn finish(exit_code: i32) -> Conclusion {
    Conclusion {
        report_identical: false,
        report_different: false,
        show_broken_pipe: false,
        show_write_error: false,
        exit_code,
    }
}

#[test]
fn both_stdin_needs_no_comparison() {
    let p = params("-", "-");
    assert_eq!(compare_start(&p), (CompareState::Done, CompareAction::Finish(finish(0))));
}

#[test]
fn identical_files_are_reported_when_asked() {
    let mut p = params("-", "-");
    p.report_identical_files = true;
    let (_, action) = compare_start(&p);
    assert_eq!(action, CompareAction::Finish(Conclusion { report_identical: true, ..finish(0) }));
}

#[test]
fn same_file_ends_the_run() {
    let p = params("a", "a");
    let (s, a) = compare_start(&p);
    assert_eq!((s, a), (CompareState::AwaitSameFile, CompareAction::CheckSameFile));
    assert_eq!(
        compare_step(&p, s, CompareEvent::SameFile(true)),
        (CompareState::Done, CompareAction::Finish(finish(0)))
    );
}

#[test]
fn read_failures() {
    let p = params("a", "b");
    let s = CompareState::AwaitInputs;
    let read = |from_ok, to_ok| compare_step(&p, s, CompareEvent::InputsRead { from_ok, to_ok });
    assert_eq!(read(true, true), (CompareState::AwaitDiff, CompareAction::RunDiff(Format::Normal)));
    assert_eq!(read(false, true), (CompareState::Done, CompareAction::FailRead(ReadFailure::From)));
    assert_eq!(read(true, false), (CompareState::Done, CompareAction::FailRead(ReadFailure::To)));
    assert_eq!(read(false, false), (CompareState::Done, CompareAction::FailRead(ReadFailure::Both)));
}

#[test]
fn full_run_with_differences() {
    let p = params("a", "b");
    let (s, _) = compare_start(&p);
    let (s, a) = compare_step(&p, s, CompareEvent::SameFile(false));
    assert_eq!(a, CompareAction::ReadInputs);
    let (s, a) = compare_step(&p, s, CompareEvent::InputsRead { from_ok: true, to_ok: true });
    assert_eq!(a, CompareAction::RunDiff(Format::Normal));
    let (s, a) = compare_step(&p, s, CompareEvent::Diffed { result_empty: false });
    assert_eq!(a, CompareAction::WriteResult);
    assert_eq!(s, CompareState::AwaitWrite { result_empty: false });
    let (s, a) = compare_step(&p, s, CompareEvent::Written(WriteOutcome::Written));
    assert_eq!((s, a), (CompareState::Done, CompareAction::Finish(finish(1))));
}

#[test]
fn empty_result_exits_zero() {
    let mut p = params("a", "b");
    p.report_identical_files = true;
    let s = CompareState::AwaitWrite { result_empty: true };
    assert_eq!(
        compare_step(&p, s, CompareEvent::Written(WriteOutcome::Written)).1,
        CompareAction::Finish(Conclusion { report_identical: true, ..finish(0) })
    );
}

#[test]
fn broken_pipe_keeps_the_status() {
    let p = params("a", "b");
    let s = CompareState::AwaitWrite { result_empty: false };
    assert_eq!(
        compare_step(&p, s, CompareEvent::Written(WriteOutcome::BrokenPipe)).1,
        CompareAction::Finish(Conclusion { show_broken_pipe: true, ..finish(1) })
    );
}

#[test]
fn write_failure_exits_two() {
    let mut p = params("a", "b");
    p.report_identical_files = true;
    let s = CompareState::AwaitWrite { result_empty: true };
    assert_eq!(
        compare_step(&p, s, CompareEvent::Written(WriteOutcome::Failed)).1,
        CompareAction::Finish(Conclusion { show_write_error: true, ..finish(2) })
    );
}

#[test]
fn brief_reports_differences_in_one_line() {
    let mut p = params("a", "b");
    p.brief = true;
    assert_eq!(
        compare_step(&p, CompareState::AwaitDiff, CompareEvent::Diffed { result_empty: false }),
        (CompareState::Done, CompareAction::Finish(Conclusion { report_different: true, ..finish(1) }))
    );
    assert_eq!(
        compare_step(&p, CompareState::AwaitDiff, CompareEvent::Diffed { result_empty: true }),
        (CompareState::AwaitWrite { result_empty: true }, CompareAction::WriteResult)
    );
}

#[test]
fn engine_failure_ends_the_run() {
    let p = params("a", "b");
    assert_eq!(
        compare_step(&p, CompareState::AwaitDiff, CompareEvent::DiffFailed),
        (CompareState::Done, CompareAction::FailDiff)
    );
}
