//! Identifiers of the command-line options of `diff`.
//!
//! Each constant is the id under which the argument parser stores the
//! option; the names of the output formats double as the words that
//! describe those formats in messages.

use vstd::prelude::*;

verus! {

/// Generic id for files and other undefined operands.
pub const FILE: &'static str = "file";
/// `-q, --brief`: report only when files differ.
pub const BRIEF: &'static str = "brief";
/// `--color[=WHEN]`: color output.
pub const COLOR: &'static str = "COLOR";
/// `-c, -C NUM, --context[=NUM]`: output NUM lines of copied context.
pub const CONTEXT_LINES: &'static str = "CONTEXT";
/// `-e, --ed`: output an ed script.
pub const ED: &'static str = "ed";
/// `-x, --exclude=PAT`: exclude files that match PAT.
pub const EXCLUDE: &'static str = "EXCLUDE";
/// `-X, --exclude-from=FILE`: exclude files that match any pattern in FILE.
pub const EXCLUDE_FROM: &'static str = "EXCLUDE-FROM";
/// `-t, --expand-tabs`: expand tabs to spaces in output.
pub const EXPAND_TABS: &'static str = "expand-tabs";
/// `--from-file=FILE1`: compare FILE1 to all operands.
pub const FROM_FILE: &'static str = "FROM-FILE";
/// `--GTYPE-group-format=GFMT`: format GTYPE input groups with GFMT.
pub const GTYPE_GROUP_FORMAT: &'static str = "GTYPE-GROUP-FORMAT";
/// `--horizon-lines=NUM`: keep NUM lines of the common prefix and suffix.
pub const HORIZON_LINES: &'static str = "HORIZON-LINES";
/// `-D, --ifdef=NAME`: output merged file with '#ifdef NAME' diffs.
pub const IFDEF: &'static str = "IFDEF";
/// `-w, --ignore-all-space`: ignore all white space.
pub const IGNORE_ALL_SPACE: &'static str = "ignore-all-space";
/// `-B, --ignore-blank-lines`: ignore changes where lines are all blank.
pub const IGNORE_BLANK_LINES: &'static str = "ignore-blank-lines";
/// `-i, --ignore-case`: ignore case differences in file contents.
pub const IGNORE_CASE: &'static str = "ignore-case";
/// `--ignore-file-name-case`: ignore case when comparing file names.
pub const IGNORE_FILE_NAME_CASE: &'static str = "ignore-file-name-case";
/// `-I, --ignore-matching-lines=RE`: ignore changes where all lines match RE.
pub const IGNORE_MATCHING_LINES: &'static str = "IGNORE-MATCHING-LINES";
/// `-b, --ignore-space-change`: ignore changes in the amount of white space.
pub const IGNORE_SPACE_CHANGE: &'static str = "ignore-space-change";
/// `-E, --ignore-tab-expansion`: ignore changes due to tab expansion.
pub const IGNORE_TAB_EXPANSION: &'static str = "ignore-tab-expansion";
/// `-Z, --ignore-trailing-space`: ignore white space at line end.
pub const IGNORE_TRAILING_SPACE: &'static str = "ignore-trailing-space";
/// `-T, --initial-tab`: make tabs line up by prepending a tab.
pub const INITIAL_TAB: &'static str = "initial-tab";
/// `--label LABEL`: use LABEL instead of file name and timestamp.
pub const LABEL: &'static str = "label";
/// `--left-column`: output only the left column of common lines.
pub const LEFT_COLUMN: &'static str = "left-column";
/// `--line-format=LFMT`: format all input lines with LFMT.
pub const LINE_FORMAT: &'static str = "LINE-FORMAT";
/// `--LTYPE-line-format=LFMT`: format LTYPE input lines with LFMT.
pub const LTYPE_LINE_FORMAT: &'static str = "LTYPE-LINE-FORMAT";
/// `-d, --minimal`: try hard to find a smaller set of changes.
pub const MINIMAL: &'static str = "minimal";
/// `-N, --new-file`: treat absent files as empty.
pub const NEW_FILE: &'static str = "new-file";
/// `--no-dereference`: don't follow symbolic links.
pub const NO_DEREFERENCE: &'static str = "no-dereference";
/// `--no-ignore-file-name-case`: consider case when comparing file names.
pub const NO_IGNORE_FILE_NAME_CASE: &'static str = "no-ignore-file-name-case";
/// `--normal`: output a normal diff (the default).
pub const NORMAL: &'static str = "normal";
/// `-l, --paginate`: pass output through 'pr' to paginate it.
pub const PAGINATE: &'static str = "paginate";
/// `--palette=PALETTE`: the colors to use when --color is active.
pub const PALETTE: &'static str = "PALETTE";
/// `-n, --rcs`: output an RCS format diff.
pub const RCS: &'static str = "rcs";
/// `-r, --recursive`: recursively compare any subdirectories found.
pub const RECURSIVE: &'static str = "recursive";
/// `-s, --report-identical-files`: report when two files are the same.
pub const REPORT_IDENTICAL_FILES: &'static str = "report-identical-files";
/// `-p, --show-c-function`: show which C function each change is in.
pub const SHOW_C_FUNCTION: &'static str = "show-c-function";
/// `-F, --show-function-line=RE`: show the most recent line matching RE.
pub const SHOW_FUNCTION_LINE: &'static str = "SHOW-FUNCTION-LINE";
/// `-y, --side-by-side`: output in two columns.
pub const SIDE_BY_SIDE: &'static str = "side-by-side";
/// `--speed-large-files`: assume large files and many scattered small changes.
pub const SPEED_LARGE_FILES: &'static str = "speed-large-files";
/// `-S, --starting-file=FILE`: start with FILE when comparing directories.
pub const STARTING_FILE: &'static str = "STARTING-FILE";
/// `--strip-trailing-cr`: strip trailing carriage return on input.
pub const STRIP_TRAILING_CR: &'static str = "strip-trailing-cr";
/// `--suppress-blank-empty`: suppress space or tab before empty output lines.
pub const SUPPRESS_BLANK_EMPTY: &'static str = "suppress-blank-empty";
/// `--suppress-common-lines`: do not output common lines.
pub const SUPPRESS_COMMON_LINES: &'static str = "suppress-common-lines";
/// `--tabsize=NUM`: tab stops every NUM (default 8) print columns.
pub const TABSIZE: &'static str = "TABSIZE";
/// `-a, --text`: treat all files as text.
pub const TEXT: &'static str = "text";
/// `--to-file=FILE2`: compare all operands to FILE2.
pub const TO_FILE: &'static str = "TO-FILE";
/// `--unidirectional-new-file`: treat absent first files as empty.
pub const UNIDIRECTIONAL_NEW_FILE: &'static str = "unidirectional-new-file";
/// `-u, -U NUM, --unified[=NUM]`: output NUM (default 3) lines of unified context.
pub const UNIFIED_LINES: &'static str = "UNIFIED";
/// `-W, --width=NUM`: output at most NUM (default 130) print columns.
pub const WIDTH: &'static str = "WIDTH";

} // verus!
