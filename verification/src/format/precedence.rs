//! How tightly each kind of expression binds.

use vstd::prelude::*;
use crate::ast::{ChainElement, Expression};
use crate::operator::Precedence;

verus! {

/// How tightly `expr` binds as an operand. What is printed inside brackets
/// of its own, or as one word, binds tightest.
pub open spec fn precedence_of(expr: Expression) -> Precedence
    decreases expr,
{
    match expr {
        Expression::SequenceExpression(_) => Precedence::Comma,
        Expression::AssignmentExpression(_) => Precedence::Assign,
        Expression::ArrowExpression(_) => Precedence::Arrow,
        Expression::YieldExpression(_) => Precedence::Yield,
        Expression::ConditionalExpression(_) => Precedence::Conditional,
        Expression::LogicalExpression(e) => e.operator.precedence_spec(),
        Expression::BinaryExpression(e) => e.operator.precedence_spec(),
        Expression::PrivateInExpression(_) => Precedence::Relational,
        Expression::UnaryExpression(_) | Expression::AwaitExpression(_) => Precedence::Prefix,
        Expression::UpdateExpression(e) => if e.prefix {
            Precedence::Prefix
        } else {
            Precedence::Postfix
        },
        Expression::CallExpression(_) | Expression::NewExpression(_) => Precedence::Call,
        Expression::MemberExpression(_) => Precedence::Member,
        Expression::ChainExpression(e) => match e.expression {
            ChainElement::CallExpression(_) => Precedence::Call,
            ChainElement::MemberExpression(_) => Precedence::Member,
        },
        Expression::TypeWrapped(inner) => precedence_of(*inner),
        _ => Precedence::Grouping,
    }
}

/// How tightly `expr` binds as an operand.
pub fn expression_precedence(expr: &Expression) -> (precedence: Precedence)
    ensures
        precedence == precedence_of(*expr),
    decreases expr,
{
    match expr {
        Expression::SequenceExpression(_) => Precedence::Comma,
        Expression::AssignmentExpression(_) => Precedence::Assign,
        Expression::ArrowExpression(_) => Precedence::Arrow,
        Expression::YieldExpression(_) => Precedence::Yield,
        Expression::ConditionalExpression(_) => Precedence::Conditional,
        Expression::LogicalExpression(e) => e.operator.precedence(),
        Expression::BinaryExpression(e) => e.operator.precedence(),
        Expression::PrivateInExpression(_) => Precedence::Relational,
        Expression::UnaryExpression(_) | Expression::AwaitExpression(_) => Precedence::Prefix,
        Expression::UpdateExpression(e) => if e.prefix {
            Precedence::Prefix
        } else {
            Precedence::Postfix
        },
        Expression::CallExpression(_) | Expression::NewExpression(_) => Precedence::Call,
        Expression::MemberExpression(_) => Precedence::Member,
        Expression::ChainExpression(e) => match e.expression {
            ChainElement::CallExpression(_) => Precedence::Call,
            ChainElement::MemberExpression(_) => Precedence::Member,
        },
        Expression::TypeWrapped(inner) => expression_precedence(inner),
        _ => Precedence::Grouping,
    }
}

} // verus!
