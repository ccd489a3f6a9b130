//! Arrow functions.

use vstd::prelude::*;
use crate::ast::{ArrowExpression, Expression, Statement};
use crate::doc::{
    Doc, DocView, array, no_parts, parenthesize, parts_new, parts_push, text, txt, wrapped,
};
use crate::format::function::{format_function_body, function_body_doc};
use crate::format::function_parameters::{function_parameters_doc, print_function_parameters};
use crate::format::precedence::{expression_precedence, precedence_of};
use crate::format::{expression_doc, format_expression};
use crate::operator::Precedence;
use crate::session::{Prettier, Style};

verus! {

/// An expression as the body of an arrow function: in round brackets where
/// it is an object, which would read as a block, or a sequence.
pub open spec fn concise_body_doc(body: Expression, style: Style) -> DocView
    decreases body, 1nat,
{
    if body is ObjectExpression || precedence_of(body).rank_spec()
        < Precedence::Assign.rank_spec() {
        wrapped(expression_doc(body, style))
    } else {
        expression_doc(body, style)
    }
}

pub fn format_concise_body(body: &Expression, p: &Prettier) -> (doc: Doc)
    ensures
        doc@ == concise_body_doc(*body, p@),
    decreases body, 1nat,
{
    let doc = format_expression(body, p);
    if matches!(body, Expression::ObjectExpression(_)) || expression_precedence(body).rank()
        < Precedence::Assign.rank() {
        parenthesize(doc)
    } else {
        doc
    }
}

/// The body of an arrow function: the expression where the function is
/// marked as one and its body is that one expression, else the block.
pub open spec fn arrow_body_doc(function: ArrowExpression, style: Style) -> DocView
    decreases function, 0nat,
{
    if function.expression && function.body.statements@.len() == 1 {
        match function.body.statements@[0] {
            Statement::ExpressionStatement(inner) => concise_body_doc(inner.expression, style),
            _ => function_body_doc(function.body, style),
        }
    } else {
        function_body_doc(function.body, style)
    }
}

/// An arrow function: `async` where it is one, its parameters, the arrow
/// and its body.
pub open spec fn arrow_function_doc(function: ArrowExpression, style: Style) -> DocView
    decreases function, 1nat,
{
    let parts = if function.is_async {
        no_parts().push(txt("async "))
    } else {
        no_parts()
    };
    DocView::Concat(
        parts.push(function_parameters_doc(function.params, style)).push(txt(" => ")).push(
            arrow_body_doc(function, style),
        ),
    )
}

pub fn print_arrow_function(p: &Prettier, function: &ArrowExpression) -> (doc: Doc)
    ensures
        doc@ == arrow_function_doc(*function, p@),
    decreases function, 1nat,
{
    let mut parts = parts_new();
    if function.is_async {
        parts_push(&mut parts, text("async "));
    }
    parts_push(&mut parts, print_function_parameters(p, &function.params));
    parts_push(&mut parts, text(" => "));
    let body = if function.expression && function.body.statements.len() == 1 {
        match &function.body.statements[0] {
            Statement::ExpressionStatement(inner) => format_concise_body(&inner.expression, p),
            _ => format_function_body(&function.body, p),
        }
    } else {
        format_function_body(&function.body, p)
    };
    parts_push(&mut parts, body);
    array(parts)
}

} // verus!
