use uu_diff::args::DiffArgs;
use uu_diff::errors::{ParseDiffError, SizeError};
use uu_diff::format::Format;
use uu_diff::options;
use uu_diff::params::Params;

fn with_files(files: &[&str]) -> DiffArgs {
    DiffArgs {
        files: files.iter().map(|f| f.as_bytes().to_vec()).collect(),
        ..DiffArgs::default()
    }
}

fn err_of(a: DiffArgs) -> ParseDiffError {
    match Params::try_from(a, "diff") {
        Ok(p) => panic!("accepted: {p:?}"),
        Err(e) => e,
    }
}

#[test]
fn one_operand_is_compared_with_stdin() {
    let p = Params::try_from(with_files(&["a.txt"]), "diff").unwrap();
    assert_eq!(p.from, b"a.txt".to_vec());
    assert_eq!(p.to, b"-".to_vec());
    assert_eq!(p.format_out, Format::Normal);
    assert!(!p.ed);
    assert_eq!(p.n_context_lines, 3);
    assert_eq!(p.n_unified_lines, 3);
    assert_eq!(p.tabsize, 8);
    assert_eq!(p.width, 130);
    assert!(!p.brief && !p.report_identical_files && !p.normal);
    assert_eq!(p.color, None);
}

#[test]
fn two_operands_with_ed() {
    let mut a = with_files(&["a", "b"]);
    a.ed = true;
    let p = Params::try_from(a, "diff").unwrap();
    assert_eq!(p.from, b"a".to_vec());
    assert_eq!(p.to, b"b".to_vec());
    assert_eq!(p.format_out, Format::Ed);
    assert!(p.ed);
}

#[test]
fn no_operands() {
    assert_eq!(err_of(with_files(&[])), ParseDiffError::NoOperands("diff".to_string()));
}

#[test]
fn five_operands_report_the_fifth() {
    assert_eq!(
        err_of(with_files(&["1", "2", "3", "4", "5"])),
        ParseDiffError::ExtraOperand(b"5".to_vec())
    );
    assert_eq!(
        err_of(with_files(&["1", "2", "3", "4", "5", "6"])),
        ParseDiffError::ExtraOperand(b"5".to_vec())
    );
}

#[test]
fn conflicting_formats() {
    let mut a = with_files(&["a", "b"]);
    a.normal = true;
    a.ed = true;
    a.side_by_side = true;
    assert_eq!(err_of(a), ParseDiffError::ConflictingOutputStyle(Format::Normal, Format::Ed));

    let mut a = with_files(&["a", "b"]);
    a.ed = true;
    a.side_by_side = true;
    assert_eq!(err_of(a), ParseDiffError::ConflictingOutputStyle(Format::Ed, Format::SideBySide));

    let mut a = with_files(&["a", "b"]);
    a.normal = true;
    a.side_by_side = true;
    assert_eq!(err_of(a), ParseDiffError::ConflictingOutputStyle(Format::Normal, Format::SideBySide));
}

#[test]
fn conflict_comes_before_missing_operands() {
    let mut a = with_files(&[]);
    a.normal = true;
    a.ed = true;
    assert_eq!(err_of(a), ParseDiffError::ConflictingOutputStyle(Format::Normal, Format::Ed));
}

fn invalid_value(option: &'static str, value: &str) -> ParseDiffError {
    ParseDiffError::ParseSizeError(option, value.to_string(), SizeError::ParseFailure(value.to_string()))
}

#[test]
fn numbers_that_do_not_parse() {
    for (field, value) in [("width", "abc"), ("tabsize", ""), ("context", "-1"), ("unified", "99999999999999999999999"), ("width", " 1"), ("tabsize", "+")] {
        let mut a = with_files(&["a", "b"]);
        let v = Some(value.to_string());
        let option = match field {
            "width" => {
                a.width = v;
                options::WIDTH
            }
            "tabsize" => {
                a.tabsize = v;
                options::TABSIZE
            }
            "context" => {
                a.context = v;
                options::CONTEXT_LINES
            }
            _ => {
                a.unified = v;
                options::UNIFIED_LINES
            }
        };
        let e = err_of(a);
        assert_eq!(e, invalid_value(option, value), "{field}={value}");
        assert_eq!(e.message_id(), Some("diff-error-invalid-value"));
        assert_eq!(e.code(), 2);
    }
}

#[test]
fn first_bad_number_is_reported() {
    let mut a = with_files(&["a", "b"]);
    a.width = Some("x".to_string());
    a.unified = Some("y".to_string());
    assert_eq!(err_of(a), invalid_value(options::UNIFIED_LINES, "y"));
    let mut a = with_files(&["a", "b"]);
    a.width = Some("x".to_string());
    a.context = Some("z".to_string());
    a.tabsize = Some("8".to_string());
    assert_eq!(err_of(a), invalid_value(options::CONTEXT_LINES, "z"));
}

#[test]
fn bad_number_comes_before_missing_operands() {
    let mut a = with_files(&[]);
    a.tabsize = Some("x".to_string());
    assert_eq!(err_of(a), invalid_value(options::TABSIZE, "x"));
}

#[test]
fn conflict_comes_before_bad_number() {
    let mut a = with_files(&["a", "b"]);
    a.ed = true;
    a.side_by_side = true;
    a.width = Some("x".to_string());
    assert_eq!(err_of(a), ParseDiffError::ConflictingOutputStyle(Format::Ed, Format::SideBySide));
}

#[test]
fn numbers_that_parse_are_not_implemented() {
    let mut a = with_files(&["a", "b"]);
    a.width = Some("12".to_string());
    assert_eq!(err_of(a), ParseDiffError::NotYetImplemented(options::WIDTH));
    let mut a = with_files(&["a", "b"]);
    a.tabsize = Some("+8".to_string());
    assert_eq!(err_of(a), ParseDiffError::NotYetImplemented(options::TABSIZE));
    let mut a = with_files(&["a"]);
    a.context = Some("007".to_string());
    assert_eq!(err_of(a), ParseDiffError::NotYetImplemented(options::CONTEXT_LINES));
    let mut a = with_files(&["a"]);
    a.unified = Some("18446744073709551615".to_string());
    assert_eq!(err_of(a), ParseDiffError::NotYetImplemented(options::UNIFIED_LINES));
}

#[test]
fn not_yet_implemented_options() {
    let mut a = with_files(&["a", "b"]);
    a.brief = true;
    assert_eq!(err_of(a), ParseDiffError::NotYetImplemented("brief"));
    let mut a = with_files(&["a", "b"]);
    a.color = Some("auto".to_string());
    assert_eq!(err_of(a), ParseDiffError::NotYetImplemented("COLOR"));
    let mut a = with_files(&["a", "b"]);
    a.normal = true;
    assert_eq!(err_of(a), ParseDiffError::NotYetImplemented("normal"));
    let mut a = with_files(&["a", "b"]);
    a.side_by_side = true;
    assert_eq!(err_of(a), ParseDiffError::NotYetImplemented("side-by-side"));
    let mut a = with_files(&["a", "b"]);
    a.unidirectional_new_file = true;
    assert_eq!(err_of(a), ParseDiffError::NotYetImplemented("unidirectional-new-file"));
}

#[test]
fn first_unimplemented_option_is_reported() {
    let mut a = with_files(&["a", "b"]);
    a.text = true;
    a.brief = true;
    a.color = Some("never".to_string());
    assert_eq!(err_of(a), ParseDiffError::NotYetImplemented("brief"));
    let mut a = with_files(&["a", "b"]);
    a.text = true;
    a.recursive = true;
    assert_eq!(err_of(a), ParseDiffError::NotYetImplemented("recursive"));
}

#[test]
fn missing_operands_come_before_unimplemented_options() {
    let mut a = with_files(&[]);
    a.brief = true;
    assert_eq!(err_of(a), ParseDiffError::NoOperands("diff".to_string()));
}

#[test]
fn params_default_is_empty() {
    let p = Params::default();
    assert!(p.from.is_empty() && p.to.is_empty());
    assert_eq!((p.n_context_lines, p.n_unified_lines, p.tabsize, p.width), (0, 0, 0, 0));
    assert_eq!(p.format_out, Format::Normal);
    assert!(!p.ed && !p.brief && p.color.is_none());
}

#[test]
fn args_default_is_empty() {
    let a = DiffArgs::default();
    assert!(a.files.is_empty() && !a.ed && !a.normal && a.width.is_none());
}

#[test]
fn indexes_past_operands_only_with_three_or_four() {
    assert!(Params::indexes_past_operands(&with_files(&["1", "2", "3"])));
    assert!(Params::indexes_past_operands(&with_files(&["1", "2", "3", "4"])));
    assert!(!Params::indexes_past_operands(&with_files(&["1", "2"])));
    assert!(!Params::indexes_past_operands(&with_files(&["1", "2", "3", "4", "5"])));
    let mut a = with_files(&["1", "2", "3"]);
    a.width = Some("wide".to_string());
    assert!(!Params::indexes_past_operands(&a));
    let mut a = with_files(&["1", "2", "3"]);
    a.ed = true;
    a.normal = true;
    assert!(!Params::indexes_past_operands(&a));
}
