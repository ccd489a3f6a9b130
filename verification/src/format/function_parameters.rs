//! Parameter lists.

use vstd::prelude::*;
use crate::ast::{FormalParameter, FormalParameters};
use crate::doc::{Doc, DocView, parts_new, parts_push, views};
use crate::format::list::{Padding, bracketed, bracketed_doc};
use crate::format::{
    binding_pattern_doc, format_binding_pattern, format_rest_element, rest_element_doc,
};
use crate::session::{Prettier, Style};

verus! {

pub open spec fn formal_parameter_doc(parameter: FormalParameter, style: Style) -> DocView
    decreases parameter, 3nat,
{
    binding_pattern_doc(parameter.pattern, style)
}

pub fn format_formal_parameter(parameter: &FormalParameter, p: &Prettier) -> (doc: Doc)
    ensures
        doc@ == formal_parameter_doc(*parameter, p@),
    decreases parameter, 3nat,
{
    format_binding_pattern(&parameter.pattern, p)
}

pub open spec fn formal_parameter_docs(items: Seq<FormalParameter>, style: Style) -> Seq<DocView>
    decreases items, 0nat,
{
    Seq::new(
        items.len(),
        |i: int|
            if 0 <= i < items.len() {
                formal_parameter_doc(items[i], style)
            } else {
                DocView::Line
            },
    )
}

/// The parameters of a function as a list between round brackets: the
/// parameters, then the rest parameter where there is one, after which no
/// comma is written.
pub open spec fn function_parameters_doc(parameters: FormalParameters, style: Style) -> DocView
    decreases parameters, 1nat,
{
    match parameters.rest {
        Some(rest) => bracketed_doc(
            "("@,
            ")"@,
            Padding::Tight,
            formal_parameter_docs(parameters.items@, style).push(rest_element_doc(rest, style)),
            false,
        ),
        None => bracketed_doc(
            "("@,
            ")"@,
            Padding::Tight,
            formal_parameter_docs(parameters.items@, style),
            true,
        ),
    }
}

pub fn print_function_parameters(p: &Prettier, parameters: &FormalParameters) -> (doc: Doc)
    ensures
        doc@ == function_parameters_doc(*parameters, p@),
    decreases parameters, 1nat,
{
    let mut docs = parts_new();
    let mut i: usize = 0;
    while i < parameters.items.len()
        invariant
            i <= parameters.items.len(),
            views(docs@) == formal_parameter_docs(parameters.items@, p@).take(i as int),
        decreases parameters.items.len() - i,
    {
        let doc = format_formal_parameter(&parameters.items[i], p);
        parts_push(&mut docs, doc);
        i += 1;
        assert(views(docs@) =~= formal_parameter_docs(parameters.items@, p@).take(i as int));
    }
    assert(formal_parameter_docs(parameters.items@, p@).take(parameters.items.len() as int)
        =~= formal_parameter_docs(parameters.items@, p@));
    match &parameters.rest {
        Some(rest) => {
            parts_push(&mut docs, format_rest_element(rest, p));
            bracketed("(", ")", Padding::Tight, docs, false)
        },
        None => bracketed("(", ")", Padding::Tight, docs, true),
    }
}

} // verus!
