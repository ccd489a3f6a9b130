//! The configuration that the printers and the layout engine read.

use vstd::prelude::*;
use crate::layout::Budget;

verus! {

/// The widest line budget accepted.
pub const MAX_PRINT_WIDTH: usize = 65535;

/// The widest indentation unit accepted.
pub const MAX_INDENT_WIDTH: usize = 255;

/// Why a configuration was rejected.
#[derive(Debug, Clone, Copy, PartialEq, Eq, Structural)]
pub enum OptionsError {
    /// The line budget is 0 or above `MAX_PRINT_WIDTH`.
    PrintWidthOutOfRange,
    /// The indentation unit is above `MAX_INDENT_WIDTH`.
    IndentWidthOutOfRange,
}

/// The resolved configuration of one formatting run.
#[derive(Debug, Clone, Copy)]
pub struct PrettierOptions {
    /// The line budget, in columns.
    pub print_width: usize,
    /// The columns of one indentation level.
    pub indent_width: usize,
    /// Whether statements end in a semicolon.
    pub semi: bool,
    /// Whether string literals are delimited by `'` rather than `"`.
    pub single_quote: bool,
}

impl PrettierOptions {
    /// Whether both widths are in range.
    pub open spec fn wf(self) -> bool {
        &&& 1 <= self.print_width <= MAX_PRINT_WIDTH
        &&& self.indent_width <= MAX_INDENT_WIDTH
    }

    /// The widths as the layout engine reads them.
    pub open spec fn budget(self) -> Budget {
        Budget { width: self.print_width as nat, unit: self.indent_width as nat }
    }

    /// The error that `new` reports for these widths, if any: the line
    /// budget is looked at first.
    pub open spec fn rejection(print_width: usize, indent_width: usize) -> Option<OptionsError> {
        if print_width < 1 || print_width > MAX_PRINT_WIDTH {
            Some(OptionsError::PrintWidthOutOfRange)
        } else if indent_width > MAX_INDENT_WIDTH {
            Some(OptionsError::IndentWidthOutOfRange)
        } else {
            None
        }
    }

    /// A configuration with the given values, or the reason why a width is
    /// out of range.
    pub fn new(print_width: usize, indent_width: usize, semi: bool, single_quote: bool) -> (result:
        Result<PrettierOptions, OptionsError>)
        ensures
            match result {
                Ok(options) => {
                    &&& Self::rejection(print_width, indent_width) is None
                    &&& options.wf()
                    &&& options.print_width == print_width
                    &&& options.indent_width == indent_width
                    &&& options.semi == semi
                    &&& options.single_quote == single_quote
                },
                Err(error) => Self::rejection(print_width, indent_width) == Some(error),
            },
    {
        if print_width < 1 || print_width > MAX_PRINT_WIDTH {
            Err(OptionsError::PrintWidthOutOfRange)
        } else if indent_width > MAX_INDENT_WIDTH {
            Err(OptionsError::IndentWidthOutOfRange)
        } else {
            Ok(PrettierOptions { print_width, indent_width, semi, single_quote })
        }
    }
}

impl Default for PrettierOptions {
    /// 80 columns, 2 columns per level, semicolons, double quotes.
    fn default() -> (options: PrettierOptions)
        ensures
            options.wf(),
            options.print_width == 80,
            options.indent_width == 2,
            options.semi,
            !options.single_quote,
    {
        PrettierOptions { print_width: 80, indent_width: 2, semi: true, single_quote: false }
    }
}

impl OptionsError {
    /// A sentence that names the option and its range.
    pub fn message(&self) -> (text: &'static str)
        ensures
            text@ == match *self {
                OptionsError::PrintWidthOutOfRange => "print width must be between 1 and 65535"@,
                OptionsError::IndentWidthOutOfRange => "indent width must be at most 255"@,
            },
    {
        match self {
            OptionsError::PrintWidthOutOfRange => "print width must be between 1 and 65535",
            OptionsError::IndentWidthOutOfRange => "indent width must be at most 255",
        }
    }
}

} // verus!
