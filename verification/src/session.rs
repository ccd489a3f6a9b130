//! The state of one formatting run.

use vstd::prelude::*;
use crate::ast::Program;
use crate::format::{format_program, program_doc};
use crate::layout::layout;
use crate::options::PrettierOptions;
use crate::printer::{LayoutError, print};

verus! {

/// What the printers read of a run, as a plain value.
pub struct Style {
    /// The source text that the tree was parsed from.
    pub source: Seq<char>,
    /// Whether statements end in a semicolon.
    pub semi: bool,
    /// Whether string literals are delimited by `'` rather than `"`.
    pub single_quote: bool,
}

/// The state that every printer is handed: the source text, for the nodes
/// that are printed as the source has them, and the configuration.
#[derive(Debug, Clone, Copy)]
pub struct Prettier<'a> {
    pub source_text: &'a str,
    pub options: PrettierOptions,
}

impl<'a> View for Prettier<'a> {
    type V = Style;

    open spec fn view(&self) -> Style {
        Style {
            source: self.source_text@,
            semi: self.options.semi,
            single_quote: self.options.single_quote,
        }
    }
}

impl<'a> Prettier<'a> {
    /// The state of a run over `source_text` with `options`.
    pub fn new(source_text: &'a str, options: PrettierOptions) -> (p: Prettier<'a>)
        ensures
            p.source_text@ == source_text@,
            p.options == options,
    {
        Prettier { source_text, options }
    }

    /// The text of `program`: the layout of its document under the widths
    /// of the run, or the error where an indentation passes `usize::MAX`
    /// columns.
    pub fn build(&self, program: &Program) -> (result: Result<String, LayoutError>)
        ensures
            match result {
                Ok(text) => {
                    &&& !layout(program_doc(*program, self@), self.options.budget()).overflow
                    &&& text@ == layout(program_doc(*program, self@), self.options.budget()).out
                },
                Err(error) => layout(program_doc(*program, self@), self.options.budget()).overflow,
            },
    {
        let doc = format_program(program, self);
        print(&doc, &self.options)
    }
}

} // verus!
