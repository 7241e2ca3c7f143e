//! The settings of one `diff` run, and their derivation from the command line.

use vstd::prelude::*;
use crate::args::DiffArgs;
use crate::errors::{ParseDiffError, SizeError};
use crate::format::{Format, format_option, is_format_option, lemma_format_options_distinct};
use crate::number::{parse_usize, parsed_usize};
use crate::options;

verus! {

/// Holds the given command line arguments except "--version" and "--help".
#[derive(Debug)]
pub struct Params {
    /// path or "-" for stdin (the bytes of the OS string)
    pub from: Vec<u8>,
    /// path or "-" for stdin (the bytes of the OS string)
    pub to: Vec<u8>,
    /// report only when files differ
    pub brief: bool,
    /// color output; WHEN is 'never', 'always', or 'auto';
    pub color: Option<String>,
    /// output NUM (default 3) lines of copied context
    pub n_context_lines: usize,
    /// output an ed script
    pub ed: bool,
    /// exclude files that match PAT
    pub exclude: Option<String>,
    /// exclude files that match any pattern in FILE
    pub exclude_from: Option<String>,
    /// expand tabs to spaces in output
    pub expand_tabs: bool,
    /// output format
    pub format_out: Format,
    /// compare FILE1 to all operands;
    pub from_file: Option<String>,
    /// format GTYPE input groups with GFMT
    pub gtype_group_format: Option<String>,
    /// keep NUM lines of the common prefix and suffix
    pub horizon_lines: Option<String>,
    /// output merged file with '#ifdef NAME' diffs
    pub ifdef: Option<String>,
    /// ignore all white space
    pub ignore_all_space: bool,
    /// ignore changes where lines are all blank
    pub ignore_blank_lines: bool,
    /// ignore case differences in file contents
    pub ignore_case: bool,
    /// ignore case when comparing file names
    pub ignore_file_name_case: bool,
    /// ignore changes where all lines match RE
    pub ignore_matching_lines: Option<String>,
    /// ignore changes in the amount of white space
    pub ignore_space_change: bool,
    /// ignore changes due to tab expansion
    pub ignore_tab_expansion: bool,
    /// ignore white space at line end
    pub ignore_trailing_space: bool,
    /// make tabs line up by prepending a tab
    pub initial_tab: bool,
    /// use LABEL instead of file name and timestamp
    pub label: bool,
    /// output only the left column of common lines
    pub left_column: bool,
    /// format all input lines with LFMT
    pub line_format: Option<String>,
    /// format LTYPE input lines with LFMT
    pub ltype_line_format: Option<String>,
    /// try hard to find a smaller set of changes
    pub minimal: bool,
    /// treat absent files as empty
    pub new_file: bool,
    /// don't follow symbolic links
    pub no_dereference: bool,
    /// consider case when comparing file names
    pub no_ignore_file_name_case: bool,
    /// output a normal diff (the default)
    pub normal: bool,
    /// pass output through 'pr' to paginate it
    pub paginate: bool,
    /// the colors to use when --color is active
    pub palette: Option<String>,
    /// output an RCS format diff
    pub rcs: bool,
    /// recursively compare any subdirectories found
    pub recursive: bool,
    /// report when two files are the same
    pub report_identical_files: bool,
    /// show which C function each change is in
    pub show_c_function: bool,
    /// show the most recent line matching RE
    pub show_function_line: Option<String>,
    /// output in two columns
    pub side_by_side: bool,
    /// assume large files and many scattered small changes
    pub speed_large_files: bool,
    /// start with FILE when comparing directories
    pub starting_file: Option<String>,
    /// strip trailing carriage return on input
    pub strip_trailing_cr: bool,
    /// suppress space or tab before empty output lines
    pub suppress_blank_empty: bool,
    /// do not output common lines
    pub suppress_common_lines: bool,
    /// tab stops every NUM (default 8) print columns
    pub tabsize: usize,
    /// treat all files as text
    pub text: bool,
    /// compare all operands to FILE2;
    pub to_file: Option<String>,
    /// treat absent first files as empty
    pub unidirectional_new_file: bool,
    /// output NUM (default 3) lines of unified context
    pub n_unified_lines: usize,
    /// output at most NUM (default 130) print columns
    pub width: usize,
}

/// The settings in which no option but `ed` is set: every other flag off,
/// every valued option absent.
pub open spec fn no_settings(p: Params) -> bool {
    &&& !p.brief && !p.expand_tabs && !p.ignore_all_space && !p.ignore_blank_lines
    &&& !p.ignore_case && !p.ignore_file_name_case && !p.ignore_space_change
    &&& !p.ignore_tab_expansion && !p.ignore_trailing_space && !p.initial_tab && !p.label
    &&& !p.left_column && !p.minimal && !p.new_file && !p.no_dereference
    &&& !p.no_ignore_file_name_case && !p.normal && !p.paginate && !p.rcs && !p.recursive
    &&& !p.report_identical_files && !p.show_c_function && !p.side_by_side
    &&& !p.speed_large_files && !p.strip_trailing_cr && !p.suppress_blank_empty
    &&& !p.suppress_common_lines && !p.text && !p.unidirectional_new_file
    &&& p.color is None && p.exclude is None && p.exclude_from is None
    &&& p.from_file is None && p.gtype_group_format is None && p.horizon_lines is None
    &&& p.ifdef is None && p.ignore_matching_lines is None && p.line_format is None
    &&& p.ltype_line_format is None && p.palette is None && p.show_function_line is None
    &&& p.starting_file is None && p.to_file is None
}

/// The settings that parsing starts from before it reads any option:
/// nothing set, 3 lines of context (copied and unified), tab stops every 8
/// columns and 130 columns of width.
pub open spec fn baseline(p: Params) -> bool {
    &&& no_settings(p)
    &&& p.n_context_lines == 3
    &&& p.n_unified_lines == 3
    &&& p.tabsize == 8
    &&& p.width == 130
}

/// The bytes of the operand "-", which stands for standard input.
pub open spec fn stdin_operand() -> Seq<u8> {
    seq![45u8]
}

impl Default for Params {
    /// Every field empty, off, zero or `Normal`.
    fn default() -> (p: Params)
        ensures
            no_settings(p),
            !p.ed,
            p.from@.len() == 0,
            p.to@.len() == 0,
            p.n_context_lines == 0,
            p.n_unified_lines == 0,
            p.tabsize == 0,
            p.width == 0,
            p.format_out == Format::Normal,
    {
        Params {
            from: Vec::new(),
            to: Vec::new(),
            brief: false,
            color: None,
            n_context_lines: 0,
            ed: false,
            exclude: None,
            exclude_from: None,
            expand_tabs: false,
            format_out: Format::Normal,
            from_file: None,
            gtype_group_format: None,
            horizon_lines: None,
            ifdef: None,
            ignore_all_space: false,
            ignore_blank_lines: false,
            ignore_case: false,
            ignore_file_name_case: false,
            ignore_matching_lines: None,
            ignore_space_change: false,
            ignore_tab_expansion: false,
            ignore_trailing_space: false,
            initial_tab: false,
            label: false,
            left_column: false,
            line_format: None,
            ltype_line_format: None,
            minimal: false,
            new_file: false,
            no_dereference: false,
            no_ignore_file_name_case: false,
            normal: false,
            paginate: false,
            palette: None,
            rcs: false,
            recursive: false,
            report_identical_files: false,
            show_c_function: false,
            show_function_line: None,
            side_by_side: false,
            speed_large_files: false,
            starting_file: None,
            strip_trailing_cr: false,
            suppress_blank_empty: false,
            suppress_common_lines: false,
            tabsize: 0,
            text: false,
            to_file: None,
            unidirectional_new_file: false,
            n_unified_lines: 0,
            width: 0,
        }
    }
}

/// The output formats that the command line selects, in the order in which
/// they are considered: `--normal`, then `--ed`, then `--side-by-side`.
pub open spec fn selected_formats(a: DiffArgs) -> Seq<Format> {
    (if a.normal { seq![Format::Normal] } else { Seq::empty() })
        + (if a.ed { seq![Format::Ed] } else { Seq::empty() })
        + (if a.side_by_side { seq![Format::SideBySide] } else { Seq::empty() })
}

/// Whether an option value is absent or reads as a `usize`.
pub open spec fn absent_or_number(v: Option<String>) -> bool {
    v matches Some(s) ==> parsed_usize(s@) is Some
}

/// Whether every numeric option given (context, tab size, unified context,
/// width) reads as a `usize`.
pub open spec fn numbers_parse(a: DiffArgs) -> bool {
    &&& absent_or_number(a.context)
    &&& absent_or_number(a.tabsize)
    &&& absent_or_number(a.unified)
    &&& absent_or_number(a.width)
}

/// The first numeric option, in the order context, tab size, unified
/// context, width, whose value does not read as a `usize`: its id and its
/// value.
pub open spec fn first_bad_number(a: DiffArgs) -> Option<(&'static str, String)> {
    if !absent_or_number(a.context) {
        Some((options::CONTEXT_LINES, a.context.unwrap()))
    } else if !absent_or_number(a.tabsize) {
        Some((options::TABSIZE, a.tabsize.unwrap()))
    } else if !absent_or_number(a.unified) {
        Some((options::UNIFIED_LINES, a.unified.unwrap()))
    } else if !absent_or_number(a.width) {
        Some((options::WIDTH, a.width.unwrap()))
    } else {
        None
    }
}

/// Whether parsing gets as far as the operands: at most one output format
/// is selected and every numeric option reads as a number.
pub open spec fn reaches_operands(a: DiffArgs) -> bool {
    selected_formats(a).len() < 2 && numbers_parse(a)
}

/// The first option, in the order in which they are checked, that is given
/// on the command line but not yet implemented (every option but `ed`).
pub open spec fn first_unimplemented(a: DiffArgs) -> Option<&'static str> {
    if a.brief {
        Some(options::BRIEF)
    } else if a.color is Some {
        Some(options::COLOR)
    } else if a.context is Some {
        Some(options::CONTEXT_LINES)
    } else if a.exclude is Some {
        Some(options::EXCLUDE)
    } else if a.exclude_from is Some {
        Some(options::EXCLUDE_FROM)
    } else if a.expand_tabs {
        Some(options::EXPAND_TABS)
    } else if a.from_file is Some {
        Some(options::FROM_FILE)
    } else if a.gtype_group_format is Some {
        Some(options::GTYPE_GROUP_FORMAT)
    } else if a.horizon_lines is Some {
        Some(options::HORIZON_LINES)
    } else if a.ifdef is Some {
        Some(options::IFDEF)
    } else if a.ignore_all_space {
        Some(options::IGNORE_ALL_SPACE)
    } else if a.ignore_blank_lines {
        Some(options::IGNORE_BLANK_LINES)
    } else if a.ignore_case {
        Some(options::IGNORE_CASE)
    } else if a.ignore_file_name_case {
        Some(options::IGNORE_FILE_NAME_CASE)
    } else if a.ignore_matching_lines is Some {
        Some(options::IGNORE_MATCHING_LINES)
    } else if a.ignore_space_change {
        Some(options::IGNORE_SPACE_CHANGE)
    } else if a.ignore_tab_expansion {
        Some(options::IGNORE_TAB_EXPANSION)
    } else if a.ignore_trailing_space {
        Some(options::IGNORE_TRAILING_SPACE)
    } else if a.initial_tab {
        Some(options::INITIAL_TAB)
    } else if a.label {
        Some(options::LABEL)
    } else if a.left_column {
        Some(options::LEFT_COLUMN)
    } else if a.line_format is Some {
        Some(options::LINE_FORMAT)
    } else if a.ltype_line_format is Some {
        Some(options::LTYPE_LINE_FORMAT)
    } else if a.minimal {
        Some(options::MINIMAL)
    } else if a.new_file {
        Some(options::NEW_FILE)
    } else if a.no_dereference {
        Some(options::NO_DEREFERENCE)
    } else if a.no_ignore_file_name_case {
        Some(options::NO_IGNORE_FILE_NAME_CASE)
    } else if a.normal {
        Some(options::NORMAL)
    } else if a.paginate {
        Some(options::PAGINATE)
    } else if a.palette is Some {
        Some(options::PALETTE)
    } else if a.rcs {
        Some(options::RCS)
    } else if a.recursive {
        Some(options::RECURSIVE)
    } else if a.report_identical_files {
        Some(options::REPORT_IDENTICAL_FILES)
    } else if a.show_c_function {
        Some(options::SHOW_C_FUNCTION)
    } else if a.show_function_line is Some {
        Some(options::SHOW_FUNCTION_LINE)
    } else if a.side_by_side {
        Some(options::SIDE_BY_SIDE)
    } else if a.speed_large_files {
        Some(options::SPEED_LARGE_FILES)
    } else if a.starting_file is Some {
        Some(options::STARTING_FILE)
    } else if a.strip_trailing_cr {
        Some(options::STRIP_TRAILING_CR)
    } else if a.suppress_blank_empty {
        Some(options::SUPPRESS_BLANK_EMPTY)
    } else if a.suppress_common_lines {
        Some(options::SUPPRESS_COMMON_LINES)
    } else if a.tabsize is Some {
        Some(options::TABSIZE)
    } else if a.text {
        Some(options::TEXT)
    } else if a.to_file is Some {
        Some(options::TO_FILE)
    } else if a.unidirectional_new_file {
        Some(options::UNIDIRECTIONAL_NEW_FILE)
    } else if a.unified is Some {
        Some(options::UNIFIED_LINES)
    } else if a.width is Some {
        Some(options::WIDTH)
    } else {
        None
    }
}

/// Whether the command line gives no option but (perhaps) `--ed`: the only
/// option that is implemented so far.
pub open spec fn only_ed_given(a: DiffArgs) -> bool {
    &&& !a.brief && !a.expand_tabs && !a.ignore_all_space && !a.ignore_blank_lines
    &&& !a.ignore_case && !a.ignore_file_name_case && !a.ignore_space_change
    &&& !a.ignore_tab_expansion && !a.ignore_trailing_space && !a.initial_tab && !a.label
    &&& !a.left_column && !a.minimal && !a.new_file && !a.no_dereference
    &&& !a.no_ignore_file_name_case && !a.normal && !a.paginate && !a.rcs && !a.recursive
    &&& !a.report_identical_files && !a.show_c_function && !a.side_by_side
    &&& !a.speed_large_files && !a.strip_trailing_cr && !a.suppress_blank_empty
    &&& !a.suppress_common_lines && !a.text && !a.unidirectional_new_file
    &&& a.color is None && a.context is None && a.exclude is None && a.exclude_from is None
    &&& a.from_file is None && a.gtype_group_format is None && a.horizon_lines is None
    &&& a.ifdef is None && a.ignore_matching_lines is None && a.line_format is None
    &&& a.ltype_line_format is None && a.palette is None && a.show_function_line is None
    &&& a.starting_file is None && a.tabsize is None && a.to_file is None
    &&& a.unified is None && a.width is None
}

/// A command line gets past every check but the one on the operands exactly
/// when it gives no option but `--ed`: every other option, whether it would
/// fail earlier (a second output format, a value that is no number) or not,
/// is refused.
pub proof fn lemma_only_ed_is_accepted(a: DiffArgs)
    ensures
        (reaches_operands(a) && first_unimplemented(a) is None) <==> only_ed_given(a),
{
    if only_ed_given(a) {
        assert(selected_formats(a) =~= (if a.ed { seq![Format::Ed] } else { Seq::empty() }));
    }
}

/// Whether an option value is absent or reads as a `usize`.
fn number_or_absent(v: &Option<String>) -> (r: bool)
    ensures
        r == absent_or_number(*v),
{
    match v {
        Some(s) => parse_usize(s.as_str()).is_some(),
        None => true,
    }
}

impl Params {
    /// Records that the output format option `option` was given (`value`)
    /// or not; a second format option is an error.
    pub fn set_format(format: &mut Option<Format>, option: &str, value: bool) -> (r: Result<
        (),
        ParseDiffError,
    >)
        requires
            value ==> is_format_option(option@),
        ensures
            !value ==> r is Ok && *final(format) == *old(format),
            value && *old(format) is None ==> r is Ok && (*final(format) matches Some(f)
                && format_option(f)@ == option@),
            value && *old(format) is Some ==> *final(format) == *old(format) && (r matches Err(
                ParseDiffError::ConflictingOutputStyle(prev, new),
            ) && prev == old(format).unwrap() && format_option(new)@ == option@),
    {
        if value {
            let new = Format::from_option(option);
            match format {
                Some(f) => {
                    return Err(ParseDiffError::ConflictingOutputStyle(*f, new));
                },
                None => *format = Some(new),
            }
        }
        Ok(())
    }

    /// Converts the parsed command line to the settings of the run.
    ///
    /// The checks come in this order: at most one output format may be
    /// selected; every numeric option must read as a number (the first one
    /// that does not is reported with its value); there must be
    /// one or two operands (a single operand is compared with standard
    /// input), or at least five, of which the fifth is reported; and no option
    /// but `ed` may be given, for none of the others is implemented yet.
    /// `util_name` is the name under which the utility was invoked; it names
    /// the utility in the error about missing operands.
    ///
    /// Three or four operands, where parsing gets as far as the operands, are
    /// a logic error of the caller: they index past the operands given.
    pub fn try_from(a: DiffArgs, util_name: &str) -> (r: Result<Params, ParseDiffError>)
        requires
            reaches_operands(a) ==> !(3 <= a.files@.len() <= 4),
        ensures
            r is Ok <==> only_ed_given(a) && 1 <= a.files@.len() <= 2,
            r matches Ok(p) ==> {
                &&& p.from@ == a.files@[0]@
                &&& p.to@ == (if a.files@.len() == 1 {
                    stdin_operand()
                } else {
                    a.files@[1]@
                })
                &&& p.format_out == (if p.ed {
                    Format::Ed
                } else {
                    Format::Normal
                })
                &&& baseline(p)
            },
            selected_formats(a).len() >= 2 ==> r == Err::<Params, ParseDiffError>(
                ParseDiffError::ConflictingOutputStyle(
                    selected_formats(a)[0],
                    selected_formats(a)[1],
                ),
            ),
            selected_formats(a).len() < 2 && first_bad_number(a) is Some ==> (r matches Err(
                ParseDiffError::ParseSizeError(o, v, SizeError::ParseFailure(d)),
            ) && o == first_bad_number(a).unwrap().0 && v@ == first_bad_number(a).unwrap().1@
                && d@ == v@),
            reaches_operands(a) && a.files@.len() == 0 ==> (r matches Err(
                ParseDiffError::NoOperands(s),
            ) && s@ == util_name@),
            reaches_operands(a) && a.files@.len() >= 5 ==> (r matches Err(
                ParseDiffError::ExtraOperand(o),
            ) && o@ == a.files@[4]@),
            reaches_operands(a) && 1 <= a.files@.len() <= 2 && first_unimplemented(a) is Some
                ==> r == Err::<Params, ParseDiffError>(
                ParseDiffError::NotYetImplemented(first_unimplemented(a).unwrap()),
            ),
            reaches_operands(a) && 1 <= a.files@.len() <= 2 && first_unimplemented(a) is None
                ==> (r matches Ok(p) && {
                &&& p.from@ == a.files@[0]@
                &&& p.to@ == (if a.files@.len() == 1 {
                    stdin_operand()
                } else {
                    a.files@[1]@
                })
                &&& p.ed == a.ed
                &&& p.format_out == (if a.ed {
                    Format::Ed
                } else {
                    Format::Normal
                })
                &&& baseline(p)
            }),
    {
        let mut params = Params {
            from: Vec::new(),
            to: Vec::new(),
            brief: a.brief,
            color: None,
            n_context_lines: 3,
            ed: a.ed,
            exclude: None,
            exclude_from: None,
            expand_tabs: a.expand_tabs,
            format_out: Format::Normal,
            from_file: None,
            gtype_group_format: None,
            horizon_lines: None,
            ifdef: None,
            ignore_all_space: a.ignore_all_space,
            ignore_blank_lines: a.ignore_blank_lines,
            ignore_case: a.ignore_case,
            ignore_file_name_case: a.ignore_file_name_case,
            ignore_matching_lines: None,
            ignore_space_change: a.ignore_space_change,
            ignore_tab_expansion: a.ignore_tab_expansion,
            ignore_trailing_space: a.ignore_trailing_space,
            initial_tab: a.initial_tab,
            label: a.label,
            left_column: a.left_column,
            line_format: None,
            ltype_line_format: None,
            minimal: a.minimal,
            new_file: a.new_file,
            no_dereference: a.no_dereference,
            no_ignore_file_name_case: a.no_ignore_file_name_case,
            normal: false,
            paginate: a.paginate,
            palette: None,
            rcs: a.rcs,
            recursive: a.recursive,
            report_identical_files: a.report_identical_files,
            show_c_function: a.show_c_function,
            show_function_line: None,
            side_by_side: a.side_by_side,
            speed_large_files: a.speed_large_files,
            starting_file: None,
            strip_trailing_cr: a.strip_trailing_cr,
            suppress_blank_empty: a.suppress_blank_empty,
            suppress_common_lines: a.suppress_common_lines,
            tabsize: 8,
            text: a.text,
            to_file: None,
            unidirectional_new_file: a.unidirectional_new_file,
            n_unified_lines: 3,
            width: 130,
        };

        proof {
            lemma_only_ed_is_accepted(a);
        }

        // set output format
        proof {
            lemma_format_options_distinct();
            assert(format_option(Format::Ed) == options::ED);
            assert(format_option(Format::SideBySide) == options::SIDE_BY_SIDE);
        }
        let mut format_out = if a.normal {
            Some(Format::Normal)
        } else {
            None
        };
        match Self::set_format(&mut format_out, options::ED, a.ed) {
            Ok(()) => {},
            Err(e) => {
                return Err(e);
            },
        }
        match Self::set_format(&mut format_out, options::SIDE_BY_SIDE, a.side_by_side) {
            Ok(()) => {},
            Err(e) => {
                return Err(e);
            },
        }
        if let Some(format) = format_out {
            params.format_out = format;
        }

        params.color = a.color;

        if let Some(context) = &a.context {
            match parse_usize(context.as_str()) {
                Some(context_size) => {
                    params.n_context_lines = context_size;
                },
                None => {
                    return Err(
                        ParseDiffError::ParseSizeError(
                            options::CONTEXT_LINES,
                            context.clone(),
                            SizeError::ParseFailure(context.clone()),
                        ),
                    );
                },
            }
        }

        params.exclude = a.exclude;
        params.exclude_from = a.exclude_from;
        params.from_file = a.from_file;
        params.gtype_group_format = a.gtype_group_format;
        params.horizon_lines = a.horizon_lines;
        params.ifdef = a.ifdef;
        params.ignore_matching_lines = a.ignore_matching_lines;
        params.line_format = a.line_format;
        params.ltype_line_format = a.ltype_line_format;
        params.palette = a.palette;
        params.show_function_line = a.show_function_line;
        params.starting_file = a.starting_file;

        if let Some(tabsize) = &a.tabsize {
            match parse_usize(tabsize.as_str()) {
                Some(n) => {
                    params.tabsize = n;
                },
                None => {
                    return Err(
                        ParseDiffError::ParseSizeError(
                            options::TABSIZE,
                            tabsize.clone(),
                            SizeError::ParseFailure(tabsize.clone()),
                        ),
                    );
                },
            }
        }

        params.to_file = a.to_file;

        if let Some(unified) = &a.unified {
            match parse_usize(unified.as_str()) {
                Some(n_unified) => {
                    params.n_unified_lines = n_unified;
                },
                None => {
                    return Err(
                        ParseDiffError::ParseSizeError(
                            options::UNIFIED_LINES,
                            unified.clone(),
                            SizeError::ParseFailure(unified.clone()),
                        ),
                    );
                },
            }
        }

        if let Some(width) = &a.width {
            match parse_usize(width.as_str()) {
                Some(n) => {
                    params.width = n;
                },
                None => {
                    return Err(
                        ParseDiffError::ParseSizeError(
                            options::WIDTH,
                            width.clone(),
                            SizeError::ParseFailure(width.clone()),
                        ),
                    );
                },
            }
        }

        // get files
        let n_files = a.files.len();
        if n_files == 0 {
            return Err(ParseDiffError::NoOperands(util_name.to_owned()));
        } else if n_files == 1 {
            // A single operand is compared with standard input.
            params.from = a.files[0].clone();
            params.to = vec![45u8];
        } else if n_files == 2 {
            params.from = a.files[0].clone();
            params.to = a.files[1].clone();
        } else {
            return Err(ParseDiffError::ExtraOperand(a.files[4].clone()));
        }

        // not yet implemented options
        if a.brief {
            return Err(ParseDiffError::NotYetImplemented(options::BRIEF));
        }
        if params.color.is_some() {
            return Err(ParseDiffError::NotYetImplemented(options::COLOR));
        }
        if a.context.is_some() {
            return Err(ParseDiffError::NotYetImplemented(options::CONTEXT_LINES));
        }
        if params.exclude.is_some() {
            return Err(ParseDiffError::NotYetImplemented(options::EXCLUDE));
        }
        if params.exclude_from.is_some() {
            return Err(ParseDiffError::NotYetImplemented(options::EXCLUDE_FROM));
        }
        if a.expand_tabs {
            return Err(ParseDiffError::NotYetImplemented(options::EXPAND_TABS));
        }
        if params.from_file.is_some() {
            return Err(ParseDiffError::NotYetImplemented(options::FROM_FILE));
        }
        if params.gtype_group_format.is_some() {
            return Err(ParseDiffError::NotYetImplemented(options::GTYPE_GROUP_FORMAT));
        }
        if params.horizon_lines.is_some() {
            return Err(ParseDiffError::NotYetImplemented(options::HORIZON_LINES));
        }
        if params.ifdef.is_some() {
            return Err(ParseDiffError::NotYetImplemented(options::IFDEF));
        }
        if a.ignore_all_space {
            return Err(ParseDiffError::NotYetImplemented(options::IGNORE_ALL_SPACE));
        }
        if a.ignore_blank_lines {
            return Err(ParseDiffError::NotYetImplemented(options::IGNORE_BLANK_LINES));
        }
        if a.ignore_case {
            return Err(ParseDiffError::NotYetImplemented(options::IGNORE_CASE));
        }
        if a.ignore_file_name_case {
            return Err(ParseDiffError::NotYetImplemented(options::IGNORE_FILE_NAME_CASE));
        }
        if params.ignore_matching_lines.is_some() {
            return Err(ParseDiffError::NotYetImplemented(options::IGNORE_MATCHING_LINES));
        }
        if a.ignore_space_change {
            return Err(ParseDiffError::NotYetImplemented(options::IGNORE_SPACE_CHANGE));
        }
        if a.ignore_tab_expansion {
            return Err(ParseDiffError::NotYetImplemented(options::IGNORE_TAB_EXPANSION));
        }
        if a.ignore_trailing_space {
            return Err(ParseDiffError::NotYetImplemented(options::IGNORE_TRAILING_SPACE));
        }
        if a.initial_tab {
            return Err(ParseDiffError::NotYetImplemented(options::INITIAL_TAB));
        }
        if a.label {
            return Err(ParseDiffError::NotYetImplemented(options::LABEL));
        }
        if a.left_column {
            return Err(ParseDiffError::NotYetImplemented(options::LEFT_COLUMN));
        }
        if params.line_format.is_some() {
            return Err(ParseDiffError::NotYetImplemented(options::LINE_FORMAT));
        }
        if params.ltype_line_format.is_some() {
            return Err(ParseDiffError::NotYetImplemented(options::LTYPE_LINE_FORMAT));
        }
        if a.minimal {
            return Err(ParseDiffError::NotYetImplemented(options::MINIMAL));
        }
        if a.new_file {
            return Err(ParseDiffError::NotYetImplemented(options::NEW_FILE));
        }
        if a.no_dereference {
            return Err(ParseDiffError::NotYetImplemented(options::NO_DEREFERENCE));
        }
        if a.no_ignore_file_name_case {
            return Err(ParseDiffError::NotYetImplemented(options::NO_IGNORE_FILE_NAME_CASE));
        }
        if a.normal {
            return Err(ParseDiffError::NotYetImplemented(options::NORMAL));
        }
        if a.paginate {
            return Err(ParseDiffError::NotYetImplemented(options::PAGINATE));
        }
        if params.palette.is_some() {
            return Err(ParseDiffError::NotYetImplemented(options::PALETTE));
        }
        if a.rcs {
            return Err(ParseDiffError::NotYetImplemented(options::RCS));
        }
        if a.recursive {
            return Err(ParseDiffError::NotYetImplemented(options::RECURSIVE));
        }
        if a.report_identical_files {
            return Err(ParseDiffError::NotYetImplemented(options::REPORT_IDENTICAL_FILES));
        }
        if a.show_c_function {
            return Err(ParseDiffError::NotYetImplemented(options::SHOW_C_FUNCTION));
        }
        if params.show_function_line.is_some() {
            return Err(ParseDiffError::NotYetImplemented(options::SHOW_FUNCTION_LINE));
        }
        if a.side_by_side {
            return Err(ParseDiffError::NotYetImplemented(options::SIDE_BY_SIDE));
        }
        if a.speed_large_files {
            return Err(ParseDiffError::NotYetImplemented(options::SPEED_LARGE_FILES));
        }
        if params.starting_file.is_some() {
            return Err(ParseDiffError::NotYetImplemented(options::STARTING_FILE));
        }
        if a.strip_trailing_cr {
            return Err(ParseDiffError::NotYetImplemented(options::STRIP_TRAILING_CR));
        }
        if a.suppress_blank_empty {
            return Err(ParseDiffError::NotYetImplemented(options::SUPPRESS_BLANK_EMPTY));
        }
        if a.suppress_common_lines {
            return Err(ParseDiffError::NotYetImplemented(options::SUPPRESS_COMMON_LINES));
        }
        if a.tabsize.is_some() {
            return Err(ParseDiffError::NotYetImplemented(options::TABSIZE));
        }
        if a.text {
            return Err(ParseDiffError::NotYetImplemented(options::TEXT));
        }
        if params.to_file.is_some() {
            return Err(ParseDiffError::NotYetImplemented(options::TO_FILE));
        }
        if a.unidirectional_new_file {
            return Err(ParseDiffError::NotYetImplemented(options::UNIDIRECTIONAL_NEW_FILE));
        }
        if a.unified.is_some() {
            return Err(ParseDiffError::NotYetImplemented(options::UNIFIED_LINES));
        }
        if a.width.is_some() {
            return Err(ParseDiffError::NotYetImplemented(options::WIDTH));
        }

        Ok(params)
    }

    /// Whether [`Params::try_from`] would index past the operands given:
    /// parsing gets as far as the operands, and there are three or four of
    /// them. A caller tests this before the conversion.
    pub fn indexes_past_operands(a: &DiffArgs) -> (r: bool)
        ensures
            r == (reaches_operands(*a) && 3 <= a.files@.len() <= 4),
    {
        let n = a.files.len();
        if n < 3 || n > 4 {
            return false;
        }
        let formats = (if a.normal { 1usize } else { 0 }) + (if a.ed { 1usize } else { 0 }) + (if a.side_by_side { 1usize } else { 0 });
        proof {
            assert(selected_formats(*a).len() == formats);
        }
        formats < 2 && number_or_absent(&a.context) && number_or_absent(&a.tabsize)
            && number_or_absent(&a.unified) && number_or_absent(&a.width)
    }
}

} // verus!
