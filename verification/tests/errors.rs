use uu_diff::errors::MessageArg::{Operand, Text};
use uu_diff::errors::{DiffError, ParseDiffError, SizeError};
use uu_diff::format::Format;

#[test]
fn parse_error_codes_and_usage() {
    let e = ParseDiffError::NotYetImplemented("brief");
    assert_eq!(e.code(), 2);
    assert!(e.usage());
    assert_eq!(DiffError::MissingNL.code(), 2);
}

#[test]
fn parse_error_message_ids() {
    let cases = vec![
        (
            ParseDiffError::ParseSizeError("bytes", "1X".to_string(), SizeError::InvalidSuffix("1X".to_string())),
            Some("diff-error-invalid-value-unit"),
        ),
        (
            ParseDiffError::ParseSizeError("bytes", "x".to_string(), SizeError::ParseFailure("x".to_string())),
            Some("diff-error-invalid-value"),
        ),
        (
            ParseDiffError::ParseSizeError("bytes", "9E".to_string(), SizeError::SizeTooBig("9E".to_string())),
            Some("diff-error-invalid-value-overflow"),
        ),
        (
            ParseDiffError::ParseSizeError("bytes", "50%".to_string(), SizeError::PhysicalMem("no memory info".to_string())),
            None,
        ),
        (
            ParseDiffError::ConflictingOutputStyle(Format::Normal, Format::Ed),
            Some("diff-error-conflicting-output-options"),
        ),
        (ParseDiffError::ExtraOperand(b"e".to_vec()), Some("base-common-extra-operand")),
        (ParseDiffError::NoOperands("diff".to_string()), Some("diff-error-missing-operands")),
        (ParseDiffError::OptionsIncompatible("a", "b"), Some("diff-error-incompatible-options")),
        (ParseDiffError::NotYetImplemented("brief"), Some("diff-error-not-yet-implemented")),
    ];
    for (e, id) in cases {
        assert_eq!(e.message_id(), id);
    }
}

#[test]
fn diff_error_message_id() {
    assert_eq!(DiffError::MissingNL.message_id(), "diff-error-missing-newline");
}

#[test]
fn parse_error_message_args() {
    let t = |s: &str| Text(s.to_string());
    assert_eq!(
        ParseDiffError::ParseSizeError("WIDTH", "x".to_string(), SizeError::ParseFailure("x".to_string())).message_args("diff"),
        vec![("option", t("WIDTH")), ("value", t("x"))]
    );
    assert_eq!(
        ParseDiffError::ParseSizeError("bytes", "50%".to_string(), SizeError::PhysicalMem("m".to_string())).message_args("diff"),
        vec![]
    );
    assert_eq!(
        ParseDiffError::ConflictingOutputStyle(Format::Ed, Format::SideBySide).message_args("diff"),
        vec![("opt1", t("ed")), ("opt2", t("side-by-side"))]
    );
    assert_eq!(
        ParseDiffError::ExtraOperand(b"e f".to_vec()).message_args("diff"),
        vec![("operand", Operand(b"e f".to_vec()))]
    );
    assert_eq!(
        ParseDiffError::NoOperands("exe".to_string()).message_args("cmpdiff"),
        vec![("util_name", t("cmpdiff"))]
    );
    assert_eq!(
        ParseDiffError::OptionsIncompatible("a", "b").message_args("diff"),
        vec![("opt1", t("a")), ("opt2", t("b"))]
    );
    assert_eq!(
        ParseDiffError::NotYetImplemented("brief").message_args("diff"),
        vec![("option", t("brief"))]
    );
}

#[test]
fn two_io_errors_are_joined() {
    assert_eq!(
        uu_diff::errors::io_double_text("a: No such file", "diff", "b: Permission denied"),
        "a: No such file\ndiff: b: Permission denied"
    );
    assert_eq!(uu_diff::errors::io_double_text("", "", ""), "\n: ");
}
