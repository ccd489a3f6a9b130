//! Functions, and the statements that leave them.

use vstd::prelude::*;
use crate::ast::{Function, FunctionBody};
use crate::doc::{Doc, DocView, array, no_parts, parts_new, parts_push, text, txt};
use crate::format::block::{block_doc, print_block};
use crate::format::function_parameters::{function_parameters_doc, print_function_parameters};
use crate::format::{binding_identifier_doc, format_binding_identifier, push_semi, with_semi};
use crate::session::{Prettier, Style};

verus! {

pub open spec fn function_body_doc(body: FunctionBody, style: Style) -> DocView
    decreases body, 0nat,
{
    block_doc(body.statements@, Some(&body.directives), false, style)
}

pub fn format_function_body(body: &FunctionBody, p: &Prettier) -> (doc: Doc)
    ensures
        doc@ == function_body_doc(*body, p@),
    decreases body, 0nat,
{
    print_block(p, &body.statements, Some(&body.directives), false)
}

/// A function: `async` where it is one, `function`, `*` where it is a
/// generator, its name, its parameters, and its body where it has one.
pub open spec fn function_doc(function: Function, style: Style) -> DocView
    decreases function, 0nat,
{
    let parts = if function.is_async {
        no_parts().push(txt("async "))
    } else {
        no_parts()
    };
    let parts = parts.push(txt("function"));
    let parts = if function.generator {
        parts.push(txt("*"))
    } else {
        parts
    };
    let parts = match function.id {
        Some(id) => parts.push(txt(" ")).push(binding_identifier_doc(id)),
        None => parts,
    };
    let parts = parts.push(function_parameters_doc(function.params, style));
    DocView::Concat(
        match function.body {
            Some(body) => parts.push(txt(" ")).push(function_body_doc(body, style)),
            None => parts,
        },
    )
}

pub fn print_function(p: &Prettier, function: &Function) -> (doc: Doc)
    ensures
        doc@ == function_doc(*function, p@),
    decreases function, 0nat,
{
    let mut parts = parts_new();
    if function.is_async {
        parts_push(&mut parts, text("async "));
    }
    parts_push(&mut parts, text("function"));
    if function.generator {
        parts_push(&mut parts, text("*"));
    }
    match &function.id {
        Some(id) => {
            parts_push(&mut parts, text(" "));
            parts_push(&mut parts, format_binding_identifier(id));
        },
        None => {},
    }
    parts_push(&mut parts, print_function_parameters(p, &function.params));
    match &function.body {
        Some(body) => {
            parts_push(&mut parts, text(" "));
            parts_push(&mut parts, format_function_body(body, p));
        },
        None => {},
    }
    array(parts)
}

/// The word that opens the statement.
pub open spec fn leave_word(is_return: bool) -> DocView {
    if is_return {
        txt("return")
    } else {
        txt("throw")
    }
}

/// A `return` or a `throw`: the word, the argument after a space where
/// there is one, and the end of the statement.
pub open spec fn return_or_throw_doc(argument: Option<DocView>, is_return: bool, style: Style) -> DocView {
    let parts = no_parts().push(leave_word(is_return));
    let parts = match argument {
        Some(argument) => parts.push(txt(" ")).push(argument),
        None => parts,
    };
    DocView::Concat(with_semi(parts, style))
}

/// The view of a document that may be missing.
pub open spec fn optional_view(doc: Option<Doc>) -> Option<DocView> {
    match doc {
        Some(doc) => Some(doc@),
        None => None,
    }
}

pub fn print_return_or_throw_argument(p: &Prettier, argument: Option<Doc>, is_return: bool) -> (doc:
    Doc)
    ensures
        doc@ == return_or_throw_doc(optional_view(argument), is_return, p@),
{
    let mut parts = parts_new();
    parts_push(
        &mut parts,
        if is_return {
            text("return")
        } else {
            text("throw")
        },
    );
    match argument {
        Some(argument) => {
            parts_push(&mut parts, text(" "));
            parts_push(&mut parts, argument);
        },
        None => {},
    }
    push_semi(&mut parts, p);
    array(parts)
}

} // verus!
