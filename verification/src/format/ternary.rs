//! Chains of conditional expressions: a conditional in the alternate
//! position continues the chain of its parent, and the whole chain is one
//! group.

use vstd::prelude::*;
use crate::ast::{ConditionalExpression, Expression};
use crate::doc::{Doc, DocView, group, indent, no_parts, parts_new, parts_push, text, txt, views};
use crate::format::{format_operand_at, operand_at};
use crate::operator::Precedence;
use crate::session::{Prettier, Style};

verus! {

/// The test of a conditional: in round brackets where it binds no tighter
/// than a conditional does.
pub open spec fn test_doc(test: Expression, style: Style) -> DocView
    decreases test, 2nat,
{
    operand_at(test, Precedence::Coalesce, style)
}

/// A branch of a conditional: in round brackets where it is a sequence.
pub open spec fn branch_doc(branch: Expression, style: Style) -> DocView
    decreases branch, 2nat,
{
    operand_at(branch, Precedence::Assign, style)
}

/// What follows the test of `expr` in its chain: for each conditional of
/// the chain a break, `? ` and the consequent, a break and `: `; then the
/// test of the next conditional, or at the end the last alternate.
pub open spec fn ternary_links(expr: ConditionalExpression, style: Style) -> Seq<DocView>
    decreases expr, 3nat,
{
    let own = no_parts().push(DocView::Line).push(txt("? ")).push(
        branch_doc(expr.consequent, style),
    ).push(DocView::Line).push(txt(": "));
    match expr.alternate {
        Expression::ConditionalExpression(next) => own.push(test_doc(next.test, style))
            + ternary_links(*next, style),
        _ => own.push(branch_doc(expr.alternate, style)),
    }
}

pub fn push_ternary_links(links: &mut Vec<Doc>, expr: &ConditionalExpression, p: &Prettier)
    ensures
        views(final(links)@) == views(old(links)@) + ternary_links(*expr, p@),
    decreases expr, 3nat,
{
    parts_push(links, Doc::Line);
    parts_push(links, text("? "));
    parts_push(links, format_operand_at(&expr.consequent, Precedence::Assign, p));
    parts_push(links, Doc::Line);
    parts_push(links, text(": "));
    let ghost own = no_parts().push(DocView::Line).push(txt("? ")).push(
        branch_doc(expr.consequent, p@),
    ).push(DocView::Line).push(txt(": "));
    assert(views(links@) =~= views(old(links)@) + own);
    match &expr.alternate {
        Expression::ConditionalExpression(next) => {
            parts_push(links, format_operand_at(&next.test, Precedence::Coalesce, p));
            let ghost before = views(links@);
            assert(before =~= views(old(links)@) + own.push(test_doc(next.test, p@)));
            push_ternary_links(links, next, p);
            assert(views(links@) =~= views(old(links)@) + (own.push(test_doc(next.test, p@))
                + ternary_links(**next, p@)));
        },
        _ => {
            parts_push(links, format_operand_at(&expr.alternate, Precedence::Assign, p));
            assert(views(links@) =~= views(old(links)@) + own.push(
                branch_doc(expr.alternate, p@),
            ));
        },
    }
}

/// The chain that `expr` opens, as one group: its test, then the links,
/// indented.
pub open spec fn ternary_doc(expr: ConditionalExpression, style: Style) -> DocView
    decreases expr, 4nat,
{
    DocView::Group(
        no_parts().push(test_doc(expr.test, style)).push(
            DocView::Indent(ternary_links(expr, style)),
        ),
    )
}

pub fn print_ternary(p: &Prettier, expr: &ConditionalExpression) -> (doc: Doc)
    ensures
        doc@ == ternary_doc(*expr, p@),
    decreases expr, 4nat,
{
    let mut links = parts_new();
    let test = format_operand_at(&expr.test, Precedence::Coalesce, p);
    push_ternary_links(&mut links, expr, p);
    assert(views(links@) =~= ternary_links(*expr, p@));
    let mut parts = parts_new();
    parts_push(&mut parts, test);
    parts_push(&mut parts, indent(links));
    group(parts)
}

} // verus!
