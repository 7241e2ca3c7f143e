//! The errors of `diff`'s option handling and comparison.
//!
//! Their texts are localized: each error names the message that describes it,
//! and the message catalogue turns that into words.

use vstd::prelude::*;
use crate::format::{Format, format_option};

verus! {

/// Why a size value was refused (the kinds of errors that the size parser
/// of the utilities reports, each with the parser's own description).
#[derive(Debug, PartialEq, Eq)]
pub enum SizeError {
    /// The unit suffix is unknown.
    InvalidSuffix(String),
    /// The number does not parse.
    ParseFailure(String),
    /// The size overflows.
    SizeTooBig(String),
    /// The total physical memory size could not be determined.
    PhysicalMem(String),
}

/// Contains all parser errors and their messages.
#[derive(Debug, PartialEq, Eq)]
pub enum ParseDiffError {
    /// (Option, value, error)
    ParseSizeError(&'static str, String, SizeError),

    /// (Format options)
    ConflictingOutputStyle(Format, Format),

    /// Having more operands than allowed.
    ///
    /// Params: (wrong operand, as the bytes of the OS string)
    ExtraOperand(Vec<u8>),

    /// No operands given.
    /// Requires at least one file (other will then be standard input).
    ///
    /// Params: (executable name)
    NoOperands(String),

    /// Two options cannot be used together.
    OptionsIncompatible(&'static str, &'static str),

    /// Error message for options available in GNU, but not yet here.
    NotYetImplemented(&'static str),
}

/// A value that a message is filled with.
#[derive(Debug, PartialEq, Eq)]
pub enum MessageArg {
    /// Text, shown as it is.
    Text(String),
    /// An operand (the bytes of an OS string), shown quoted.
    Operand(Vec<u8>),
}

/// What a [`MessageArg`] holds.
pub enum ArgValue {
    Text(Seq<char>),
    Operand(Seq<u8>),
}

/// What `a` holds.
pub open spec fn arg_value(a: MessageArg) -> ArgValue {
    match a {
        MessageArg::Text(s) => ArgValue::Text(s@),
        MessageArg::Operand(b) => ArgValue::Operand(b@),
    }
}

/// The named values that the message describing `e` is filled with, in
/// order; `util_name` is the name under which the utility was invoked.
pub open spec fn parse_error_args(e: ParseDiffError, util_name: Seq<char>) -> Seq<
    (&'static str, ArgValue),
> {
    match e {
        ParseDiffError::ParseSizeError(option, value, kind) => match kind {
            SizeError::PhysicalMem(_) => Seq::empty(),
            _ => seq![("option", ArgValue::Text(option@)), ("value", ArgValue::Text(value@))],
        },
        ParseDiffError::ConflictingOutputStyle(opt_1, opt_2) => seq![
            ("opt1", ArgValue::Text(format_option(opt_1)@)),
            ("opt2", ArgValue::Text(format_option(opt_2)@)),
        ],
        ParseDiffError::ExtraOperand(operand) => seq![("operand", ArgValue::Operand(operand@))],
        ParseDiffError::NoOperands(_) => seq![("util_name", ArgValue::Text(util_name))],
        ParseDiffError::OptionsIncompatible(option_1, option_2) => seq![
            ("opt1", ArgValue::Text(option_1@)),
            ("opt2", ArgValue::Text(option_2@)),
        ],
        ParseDiffError::NotYetImplemented(option) => seq![("option", ArgValue::Text(option@))],
    }
}

/// The catalogue id of the message that describes `e`; none where the
/// message is the size parser's own description, kept in the error.
pub open spec fn parse_error_message(e: ParseDiffError) -> Option<&'static str> {
    match e {
        ParseDiffError::ParseSizeError(_, _, kind) => match kind {
            SizeError::InvalidSuffix(_) => Some("diff-error-invalid-value-unit"),
            SizeError::ParseFailure(_) => Some("diff-error-invalid-value"),
            SizeError::SizeTooBig(_) => Some("diff-error-invalid-value-overflow"),
            SizeError::PhysicalMem(_) => None,
        },
        ParseDiffError::ConflictingOutputStyle(_, _) => Some("diff-error-conflicting-output-options"),
        ParseDiffError::ExtraOperand(_) => Some("base-common-extra-operand"),
        ParseDiffError::NoOperands(_) => Some("diff-error-missing-operands"),
        ParseDiffError::OptionsIncompatible(_, _) => Some("diff-error-incompatible-options"),
        ParseDiffError::NotYetImplemented(_) => Some("diff-error-not-yet-implemented"),
    }
}

impl ParseDiffError {
    /// The exit code of the utility when it stops on this error.
    pub fn code(&self) -> (c: i32)
        ensures
            c == 2,
    {
        2
    }

    /// Whether the usage hint is printed after the message.
    pub fn usage(&self) -> (u: bool)
        ensures
            u,
    {
        true
    }

    /// The catalogue id of the message that describes this error.
    ///
    /// `None` for a size error about physical memory, whose message is the
    /// size parser's own description.
    pub fn message_id(&self) -> (id: Option<&'static str>)
        ensures
            id == parse_error_message(*self),
    {
        match self {
            ParseDiffError::ParseSizeError(_, _, kind) => match kind {
                SizeError::InvalidSuffix(_) => Some("diff-error-invalid-value-unit"),
                SizeError::ParseFailure(_) => Some("diff-error-invalid-value"),
                SizeError::SizeTooBig(_) => Some("diff-error-invalid-value-overflow"),
                SizeError::PhysicalMem(_) => None,
            },
            ParseDiffError::ConflictingOutputStyle(_, _) => Some("diff-error-conflicting-output-options"),
            ParseDiffError::ExtraOperand(_) => Some("base-common-extra-operand"),
            ParseDiffError::NoOperands(_) => Some("diff-error-missing-operands"),
            ParseDiffError::OptionsIncompatible(_, _) => Some("diff-error-incompatible-options"),
            ParseDiffError::NotYetImplemented(_) => Some("diff-error-not-yet-implemented"),
        }
    }

    /// The named values that the message describing this error is filled
    /// with, in order: the option and its value, the two format names, the
    /// operand (to be shown quoted), the utility's name `util_name`, the two
    /// options, or the option. None where the message is the size parser's
    /// own description.
    pub fn message_args(&self, util_name: &str) -> (args: Vec<(&'static str, MessageArg)>)
        ensures
            args@.len() == parse_error_args(*self, util_name@).len(),
            forall|i: int|
                0 <= i < args@.len() ==> (#[trigger] args@[i]).0 == parse_error_args(
                    *self,
                    util_name@,
                )[i].0 && arg_value(args@[i].1) == parse_error_args(*self, util_name@)[i].1,
    {
        let mut args: Vec<(&'static str, MessageArg)> = Vec::new();
        match self {
            ParseDiffError::ParseSizeError(option, value, kind) => match kind {
                SizeError::PhysicalMem(_) => {},
                _ => {
                    args.push(("option", MessageArg::Text((*option).to_owned())));
                    args.push(("value", MessageArg::Text(value.clone())));
                },
            },
            ParseDiffError::ConflictingOutputStyle(opt_1, opt_2) => {
                args.push(("opt1", MessageArg::Text(opt_1.option_name().to_owned())));
                args.push(("opt2", MessageArg::Text(opt_2.option_name().to_owned())));
            },
            ParseDiffError::ExtraOperand(operand) => {
                args.push(("operand", MessageArg::Operand(operand.clone())));
            },
            ParseDiffError::NoOperands(_) => {
                args.push(("util_name", MessageArg::Text(util_name.to_owned())));
            },
            ParseDiffError::OptionsIncompatible(option_1, option_2) => {
                args.push(("opt1", MessageArg::Text((*option_1).to_owned())));
                args.push(("opt2", MessageArg::Text((*option_2).to_owned())));
            },
            ParseDiffError::NotYetImplemented(option) => {
                args.push(("option", MessageArg::Text((*option).to_owned())));
            },
        }
        args
    }
}

/// Contains all diff errors and their messages.
#[derive(Clone, Copy, Debug, PartialEq, Eq, Structural)]
pub enum DiffError {
    MissingNL,
}

impl DiffError {
    /// The exit code of the utility when it stops on this error.
    pub fn code(&self) -> (c: i32)
        ensures
            c == 2,
    {
        2
    }

    /// The catalogue id of the message that describes this error.
    pub fn message_id(&self) -> (id: &'static str)
        ensures
            id == "diff-error-missing-newline",
    {
        match self {
            DiffError::MissingNL => "diff-error-missing-newline",
        }
    }
}


/// The catalogue id of the message about an operand that is a directory
/// where a utility does not handle directories.
pub const DIRECTORY_NOT_ALLOWED: &'static str = "error-is-a-directory";

/// The text of two I/O errors reported together: the first, then on a line
/// of its own the utility's name `util_name`, `: ` and the second.
pub fn io_double_text(first: &str, util_name: &str, second: &str) -> (s: String)
    ensures
        s@ == first@ + "\n"@ + util_name@ + ": "@ + second@,
{
    let mut s = first.to_owned();
    s.append("\n");
    s.append(util_name);
    s.append(": ");
    s.append(second);
    s
}

} // verus!
