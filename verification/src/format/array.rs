//! Array literals.

use vstd::prelude::*;
use crate::ast::{ArrayExpression, ArrayExpressionElement};
use crate::doc::{Doc, DocView, parts_new, parts_push, text, txt, views};
use crate::format::list::{Padding, bracketed, bracketed_doc};
use crate::format::{format_operand_at, format_spread_element, operand_at, spread_element_doc};
use crate::operator::Precedence;
use crate::session::{Prettier, Style};

verus! {

pub open spec fn array_element_doc(element: ArrayExpressionElement, style: Style) -> DocView
    decreases element, 3nat,
{
    match element {
        ArrayExpressionElement::SpreadElement(inner) => spread_element_doc(inner, style),
        ArrayExpressionElement::Expression(inner) => operand_at(inner, Precedence::Assign, style),
        ArrayExpressionElement::Elision => txt(""),
    }
}

pub fn format_array_element(element: &ArrayExpressionElement, p: &Prettier) -> (doc: Doc)
    ensures
        doc@ == array_element_doc(*element, p@),
    decreases element, 3nat,
{
    match element {
        ArrayExpressionElement::SpreadElement(inner) => format_spread_element(inner, p),
        ArrayExpressionElement::Expression(inner) => format_operand_at(
            inner,
            Precedence::Assign,
            p,
        ),
        ArrayExpressionElement::Elision => text(""),
    }
}

pub open spec fn array_element_docs(elements: Seq<ArrayExpressionElement>, style: Style) -> Seq<
    DocView,
>
    decreases elements, 0nat,
{
    Seq::new(
        elements.len(),
        |i: int|
            if 0 <= i < elements.len() {
                array_element_doc(elements[i], style)
            } else {
                DocView::Line
            },
    )
}

/// An array literal: its elements as a list between square brackets.
pub open spec fn array_expression_doc(expr: ArrayExpression, style: Style) -> DocView
    decreases expr, 0nat,
{
    bracketed_doc("["@, "]"@, Padding::Tight, array_element_docs(expr.elements@, style), true)
}

pub fn print_array(p: &Prettier, expr: &ArrayExpression) -> (doc: Doc)
    ensures
        doc@ == array_expression_doc(*expr, p@),
    decreases expr, 0nat,
{
    let mut docs = parts_new();
    let mut i: usize = 0;
    while i < expr.elements.len()
        invariant
            i <= expr.elements.len(),
            views(docs@) == array_element_docs(expr.elements@, p@).take(i as int),
        decreases expr.elements.len() - i,
    {
        let doc = format_array_element(&expr.elements[i], p);
        parts_push(&mut docs, doc);
        i += 1;
        assert(views(docs@) =~= array_element_docs(expr.elements@, p@).take(i as int));
    }
    assert(array_element_docs(expr.elements@, p@).take(expr.elements.len() as int)
        =~= array_element_docs(expr.elements@, p@));
    bracketed("[", "]", Padding::Tight, docs, true)
}

} // verus!
