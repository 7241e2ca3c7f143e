//! The parsed command line of `diff`, as plain values.

use vstd::prelude::*;

verus! {

/// What the argument parser found on the command line: for each flag whether
/// it was given, for each option that takes a value the first value given
/// (if the option was given), and the operands in order (each the bytes of
/// an OS string).
#[derive(Debug)]
pub struct DiffArgs {
    pub brief: bool,
    pub ed: bool,
    pub expand_tabs: bool,
    pub ignore_all_space: bool,
    pub ignore_blank_lines: bool,
    pub ignore_case: bool,
    pub ignore_file_name_case: bool,
    pub ignore_space_change: bool,
    pub ignore_tab_expansion: bool,
    pub ignore_trailing_space: bool,
    pub initial_tab: bool,
    pub label: bool,
    pub left_column: bool,
    pub minimal: bool,
    pub new_file: bool,
    pub no_dereference: bool,
    pub no_ignore_file_name_case: bool,
    pub normal: bool,
    pub paginate: bool,
    pub rcs: bool,
    pub recursive: bool,
    pub report_identical_files: bool,
    pub show_c_function: bool,
    pub side_by_side: bool,
    pub speed_large_files: bool,
    pub strip_trailing_cr: bool,
    pub suppress_blank_empty: bool,
    pub suppress_common_lines: bool,
    pub text: bool,
    pub unidirectional_new_file: bool,
    pub color: Option<String>,
    pub context: Option<String>,
    pub exclude: Option<String>,
    pub exclude_from: Option<String>,
    pub from_file: Option<String>,
    pub gtype_group_format: Option<String>,
    pub horizon_lines: Option<String>,
    pub ifdef: Option<String>,
    pub ignore_matching_lines: Option<String>,
    pub line_format: Option<String>,
    pub ltype_line_format: Option<String>,
    pub palette: Option<String>,
    pub show_function_line: Option<String>,
    pub starting_file: Option<String>,
    pub tabsize: Option<String>,
    pub to_file: Option<String>,
    pub unified: Option<String>,
    pub width: Option<String>,
    pub files: Vec<Vec<u8>>,
}

/// A command line without any option or operand.
pub open spec fn is_empty_command_line(a: DiffArgs) -> bool {
    &&& !a.brief && !a.ed && !a.expand_tabs && !a.ignore_all_space && !a.ignore_blank_lines
    &&& !a.ignore_case && !a.ignore_file_name_case && !a.ignore_space_change
    &&& !a.ignore_tab_expansion && !a.ignore_trailing_space && !a.initial_tab && !a.label
    &&& !a.left_column && !a.minimal && !a.new_file && !a.no_dereference
    &&& !a.no_ignore_file_name_case && !a.normal && !a.paginate && !a.rcs && !a.recursive
    &&& !a.report_identical_files && !a.show_c_function && !a.side_by_side
    &&& !a.speed_large_files && !a.strip_trailing_cr && !a.suppress_blank_empty
    &&& !a.suppress_common_lines && !a.text && !a.unidirectional_new_file
    &&& a.color is None && a.context is None && a.exclude is None && a.exclude_from is None
    &&& a.from_file is None && a.gtype_group_format is None && a.horizon_lines is None
    &&& a.ifdef is None && a.ignore_matching_lines is None && a.line_format is None
    &&& a.ltype_line_format is None && a.palette is None && a.show_function_line is None
    &&& a.starting_file is None && a.tabsize is None && a.to_file is None
    &&& a.unified is None && a.width is None
    &&& a.files@.len() == 0
}

impl Default for DiffArgs {
    fn default() -> (a: DiffArgs)
        ensures
            is_empty_command_line(a),
    {
        DiffArgs {
            brief: false,
            ed: false,
            expand_tabs: false,
            ignore_all_space: false,
            ignore_blank_lines: false,
            ignore_case: false,
            ignore_file_name_case: false,
            ignore_space_change: false,
            ignore_tab_expansion: false,
            ignore_trailing_space: false,
            initial_tab: false,
            label: false,
            left_column: false,
            minimal: false,
            new_file: false,
            no_dereference: false,
            no_ignore_file_name_case: false,
            normal: false,
            paginate: false,
            rcs: false,
            recursive: false,
            report_identical_files: false,
            show_c_function: false,
            side_by_side: false,
            speed_large_files: false,
            strip_trailing_cr: false,
            suppress_blank_empty: false,
            suppress_common_lines: false,
            text: false,
            unidirectional_new_file: false,
            color: None,
            context: None,
            exclude: None,
            exclude_from: None,
            from_file: None,
            gtype_group_format: None,
            horizon_lines: None,
            ifdef: None,
            ignore_matching_lines: None,
            line_format: None,
            ltype_line_format: None,
            palette: None,
            show_function_line: None,
            starting_file: None,
            tabsize: None,
            to_file: None,
            unified: None,
            width: None,
            files: Vec::new(),
        }
    }
}

} // verus!
