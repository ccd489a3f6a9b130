//! Chains of binary and logical operators: a run of operators of one
//! binding strength that groups from the left is one group, which stays on
//! one line or breaks before every operator.

use vstd::prelude::*;
use vstd::string::*;
use crate::ast::{BinaryExpression, Expression, LogicalExpression, PrivateInExpression};
use crate::doc::{
    Doc, DocView, group, indent, no_parts, parenthesize, parts_new, parts_push, text, wrapped,
};
use crate::format::precedence::{expression_precedence, precedence_of};
use crate::laws::{lemma_group_breaks_all_or_none, lemma_own_breaks_concat};
use crate::layout::{
    Budget, Cmd, Layout, Mode, fits, flat_text_from, own_breaks, own_breaks_from, render,
};
use crate::format::{
    expression_doc, format_expression, format_private_identifier, private_identifier_doc,
};
use crate::operator::{BinaryOperator, LogicalOperator, Precedence};
use crate::session::{Prettier, Style};

verus! {

/// The operator of a chain.
#[derive(Debug, Clone, Copy, PartialEq, Eq, Structural)]
pub enum BinaryishOperator {
    BinaryOperator(BinaryOperator),
    LogicalOperator(LogicalOperator),
}

/// On which side of its operator an operand stands.
#[derive(Debug, Clone, Copy, PartialEq, Eq, Structural)]
pub enum Side {
    Left,
    Right,
}

impl BinaryishOperator {
    /// The operator as it is written.
    pub open spec fn text(self) -> Seq<char> {
        match self {
            BinaryishOperator::BinaryOperator(op) => op.text(),
            BinaryishOperator::LogicalOperator(op) => op.text(),
        }
    }

    /// The operator as it is written.
    pub fn as_str(&self) -> (text: &'static str)
        ensures
            text@ == self.text(),
    {
        match self {
            BinaryishOperator::BinaryOperator(op) => op.as_str(),
            BinaryishOperator::LogicalOperator(op) => op.as_str(),
        }
    }

    /// How tightly the operator binds.
    pub open spec fn precedence_spec(self) -> Precedence {
        match self {
            BinaryishOperator::BinaryOperator(op) => op.precedence_spec(),
            BinaryishOperator::LogicalOperator(op) => op.precedence_spec(),
        }
    }

    /// How tightly the operator binds.
    pub fn precedence(&self) -> (precedence: Precedence)
        ensures
            precedence == self.precedence_spec(),
    {
        match self {
            BinaryishOperator::BinaryOperator(op) => op.precedence(),
            BinaryishOperator::LogicalOperator(op) => op.precedence(),
        }
    }

    /// Whether an operand with an operator that binds as `inner` does, on
    /// the left of this operator, belongs to the same run.
    pub open spec fn continues_spec(self, inner: Precedence) -> bool {
        inner == self.precedence_spec() && !inner.is_right_associative_spec()
    }

    /// Whether an operand with an operator that binds as `inner` does, on
    /// the left of this operator, belongs to the same run.
    pub fn continues(&self, inner: Precedence) -> (same: bool)
        ensures
            same == self.continues_spec(inner),
    {
        inner.rank() == self.precedence().rank() && !inner.is_right_associative()
    }
}

/// Whether the operand `expr` of `op` is printed in round brackets. It is
/// where it binds looser than `op`; where it binds as `op` does and stands
/// on the side from which such a run does not group; where it is a logical
/// operation under another logical operator; and where it is a prefix
/// operation on the left of `**`.
pub open spec fn needs_parens(expr: Expression, op: BinaryishOperator, side: Side) -> bool {
    let inner = precedence_of(expr);
    let outer = op.precedence_spec();
    if inner.rank_spec() < outer.rank_spec() {
        true
    } else if inner.rank_spec() == outer.rank_spec() {
        (side == Side::Right) != outer.is_right_associative_spec()
    } else {
        ||| (op is LogicalOperator && expr is LogicalExpression)
        ||| (outer == Precedence::Exponential && side == Side::Left && inner == Precedence::Prefix)
    }
}

/// The document of an operand of `op`. Round brackets in the source do not
/// count: the operand is what stands inside them.
pub open spec fn operand_doc(
    expr: Expression,
    op: BinaryishOperator,
    side: Side,
    style: Style,
) -> DocView
    decreases expr, 2nat,
{
    match expr {
        Expression::ParenthesizedExpression(inner) => operand_doc(
            inner.expression,
            op,
            side,
            style,
        ),
        _ => if needs_parens(expr, op, side) {
            wrapped(expression_doc(expr, style))
        } else {
            expression_doc(expr, style)
        },
    }
}

pub fn format_operand(expr: &Expression, op: BinaryishOperator, side: Side, p: &Prettier) -> (doc:
    Doc)
    ensures
        doc@ == operand_doc(*expr, op, side, p@),
    decreases expr, 2nat,
{
    match expr {
        Expression::ParenthesizedExpression(inner) => format_operand(
            &inner.expression,
            op,
            side,
            p,
        ),
        _ => {
            let inner = expression_precedence(expr);
            let outer = op.precedence();
            let parens = if inner.rank() < outer.rank() {
                true
            } else if inner.rank() == outer.rank() {
                matches!(side, Side::Right) != outer.is_right_associative()
            } else {
                (matches!(op, BinaryishOperator::LogicalOperator(_)) && matches!(
                    expr,
                    Expression::LogicalExpression(_)
                )) || (matches!(outer, Precedence::Exponential) && matches!(side, Side::Left)
                    && matches!(inner, Precedence::Prefix))
            };
            let doc = format_expression(expr, p);
            if parens {
                parenthesize(doc)
            } else {
                doc
            }
        },
    }
}

/// What one operator adds to its chain: a break, the operator, and its
/// right operand.
pub open spec fn link(op: BinaryishOperator, right: Expression, style: Style) -> Seq<DocView>
    decreases right, 3nat,
{
    no_parts().push(DocView::Line).push(DocView::Text(op.text() + " "@)).push(
        operand_doc(right, op, Side::Right, style),
    )
}

pub fn push_link(tail: &mut Vec<Doc>, op: BinaryishOperator, right: &Expression, p: &Prettier)
    ensures
        crate::doc::views(final(tail)@) == crate::doc::views(old(tail)@) + link(op, *right, p@),
    decreases right, 3nat,
{
    let mut word = String::from_str(op.as_str());
    word.append(" ");
    let operand = format_operand(right, op, Side::Right, p);
    parts_push(tail, Doc::Line);
    parts_push(tail, Doc::Str(word));
    parts_push(tail, operand);
    assert(crate::doc::views(tail@) =~= crate::doc::views(old(tail)@) + link(op, *right, p@));
}

/// The first operand of the chain that `left`, the left operand of `op`,
/// opens.
pub open spec fn chain_head(left: Expression, op: BinaryishOperator, style: Style) -> DocView
    decreases left, 4nat,
{
    match left {
        Expression::ParenthesizedExpression(inner) => chain_head(inner.expression, op, style),
        Expression::BinaryExpression(inner) => if op.continues_spec(
            inner.operator.precedence_spec(),
        ) {
            chain_head(inner.left, BinaryishOperator::BinaryOperator(inner.operator), style)
        } else {
            operand_doc(left, op, Side::Left, style)
        },
        Expression::LogicalExpression(inner) => if op.continues_spec(
            inner.operator.precedence_spec(),
        ) {
            chain_head(inner.left, BinaryishOperator::LogicalOperator(inner.operator), style)
        } else {
            operand_doc(left, op, Side::Left, style)
        },
        _ => operand_doc(left, op, Side::Left, style),
    }
}

/// The links of the chain that `left`, the left operand of `op`, holds: one
/// for each operator of the run that `op` continues.
pub open spec fn chain_links(left: Expression, op: BinaryishOperator, style: Style) -> Seq<
    DocView,
>
    decreases left, 4nat,
{
    match left {
        Expression::ParenthesizedExpression(inner) => chain_links(inner.expression, op, style),
        Expression::BinaryExpression(inner) => if op.continues_spec(
            inner.operator.precedence_spec(),
        ) {
            chain_links(inner.left, BinaryishOperator::BinaryOperator(inner.operator), style)
                + link(BinaryishOperator::BinaryOperator(inner.operator), inner.right, style)
        } else {
            no_parts()
        },
        Expression::LogicalExpression(inner) => if op.continues_spec(
            inner.operator.precedence_spec(),
        ) {
            chain_links(inner.left, BinaryishOperator::LogicalOperator(inner.operator), style)
                + link(BinaryishOperator::LogicalOperator(inner.operator), inner.right, style)
        } else {
            no_parts()
        },
        _ => no_parts(),
    }
}

/// Walks down the run that `left` opens: returns its first operand and
/// appends its links.
pub fn format_chain(left: &Expression, op: BinaryishOperator, p: &Prettier, tail: &mut Vec<Doc>) -> (head:
    Doc)
    ensures
        head@ == chain_head(*left, op, p@),
        crate::doc::views(final(tail)@) == crate::doc::views(old(tail)@) + chain_links(
            *left,
            op,
            p@,
        ),
    decreases left, 4nat,
{
    match left {
        Expression::ParenthesizedExpression(inner) => format_chain(&inner.expression, op, p, tail),
        Expression::BinaryExpression(inner) => {
            if op.continues(inner.operator.precedence()) {
                let inner_op = BinaryishOperator::BinaryOperator(inner.operator);
                let ghost before = crate::doc::views(tail@);
                let head = format_chain(&inner.left, inner_op, p, tail);
                push_link(tail, inner_op, &inner.right, p);
                assert(crate::doc::views(tail@) =~= before + chain_links(*left, op, p@));
                head
            } else {
                assert(crate::doc::views(tail@) + no_parts() =~= crate::doc::views(tail@));
                format_operand(left, op, Side::Left, p)
            }
        },
        Expression::LogicalExpression(inner) => {
            if op.continues(inner.operator.precedence()) {
                let inner_op = BinaryishOperator::LogicalOperator(inner.operator);
                let ghost before = crate::doc::views(tail@);
                let head = format_chain(&inner.left, inner_op, p, tail);
                push_link(tail, inner_op, &inner.right, p);
                assert(crate::doc::views(tail@) =~= before + chain_links(*left, op, p@));
                head
            } else {
                assert(crate::doc::views(tail@) + no_parts() =~= crate::doc::views(tail@));
                format_operand(left, op, Side::Left, p)
            }
        },
        _ => {
            assert(crate::doc::views(tail@) + no_parts() =~= crate::doc::views(tail@));
            format_operand(left, op, Side::Left, p)
        },
    }
}

/// A chain as one group: the first operand, then the links, indented.
pub open spec fn binaryish_doc(head: DocView, links: Seq<DocView>) -> DocView {
    DocView::Group(no_parts().push(head).push(DocView::Indent(links)))
}

/// A chain as one group: the first operand, then the links, indented.
pub fn print_binaryish_expression(head: Doc, links: Vec<Doc>) -> (doc: Doc)
    ensures
        doc@ == binaryish_doc(head@, crate::doc::views(links@)),
{
    let mut parts = parts_new();
    parts_push(&mut parts, head);
    parts_push(&mut parts, indent(links));
    group(parts)
}

pub open spec fn binary_expression_doc(expr: BinaryExpression, style: Style) -> DocView
    decreases expr, 5nat,
{
    let op = BinaryishOperator::BinaryOperator(expr.operator);
    binaryish_doc(
        chain_head(expr.left, op, style),
        chain_links(expr.left, op, style) + link(op, expr.right, style),
    )
}

pub fn format_binary_expression(expr: &BinaryExpression, p: &Prettier) -> (doc: Doc)
    ensures
        doc@ == binary_expression_doc(*expr, p@),
    decreases expr, 5nat,
{
    let op = BinaryishOperator::BinaryOperator(expr.operator);
    let mut links = parts_new();
    let head = format_chain(&expr.left, op, p, &mut links);
    push_link(&mut links, op, &expr.right, p);
    assert(crate::doc::views(links@) =~= chain_links(expr.left, op, p@) + link(
        op,
        expr.right,
        p@,
    ));
    print_binaryish_expression(head, links)
}

pub open spec fn logical_expression_doc(expr: LogicalExpression, style: Style) -> DocView
    decreases expr, 5nat,
{
    let op = BinaryishOperator::LogicalOperator(expr.operator);
    binaryish_doc(
        chain_head(expr.left, op, style),
        chain_links(expr.left, op, style) + link(op, expr.right, style),
    )
}

pub fn format_logical_expression(expr: &LogicalExpression, p: &Prettier) -> (doc: Doc)
    ensures
        doc@ == logical_expression_doc(*expr, p@),
    decreases expr, 5nat,
{
    let op = BinaryishOperator::LogicalOperator(expr.operator);
    let mut links = parts_new();
    let head = format_chain(&expr.left, op, p, &mut links);
    push_link(&mut links, op, &expr.right, p);
    assert(crate::doc::views(links@) =~= chain_links(expr.left, op, p@) + link(
        op,
        expr.right,
        p@,
    ));
    print_binaryish_expression(head, links)
}

pub open spec fn private_in_expression_doc(expr: PrivateInExpression, style: Style) -> DocView
    decreases expr, 5nat,
{
    let op = BinaryishOperator::BinaryOperator(BinaryOperator::In);
    binaryish_doc(private_identifier_doc(expr.left), link(op, expr.right, style))
}

pub fn format_private_in_expression(expr: &PrivateInExpression, p: &Prettier) -> (doc: Doc)
    ensures
        doc@ == private_in_expression_doc(*expr, p@),
    decreases expr, 5nat,
{
    let op = BinaryishOperator::BinaryOperator(BinaryOperator::In);
    let mut links = parts_new();
    let head = format_private_identifier(&expr.left);
    push_link(&mut links, op, &expr.right, p);
    assert(crate::doc::views(links@) =~= link(op, expr.right, p@));
    print_binaryish_expression(head, links)
}

/// The number of operators of the run that `left`, the left operand of
/// `op`, holds.
pub open spec fn run_operators(left: Expression, op: BinaryishOperator) -> nat
    decreases left,
{
    match left {
        Expression::ParenthesizedExpression(inner) => run_operators(inner.expression, op),
        Expression::BinaryExpression(inner) => if op.continues_spec(
            inner.operator.precedence_spec(),
        ) {
            run_operators(inner.left, BinaryishOperator::BinaryOperator(inner.operator)) + 1
        } else {
            0
        },
        Expression::LogicalExpression(inner) => if op.continues_spec(
            inner.operator.precedence_spec(),
        ) {
            run_operators(inner.left, BinaryishOperator::LogicalOperator(inner.operator)) + 1
        } else {
            0
        },
        _ => 0,
    }
}

/// A link opens with an optional break.
pub proof fn lemma_link_opens_with_a_break(op: BinaryishOperator, right: Expression, style: Style)
    ensures
        own_breaks_from(link(op, right, style), 0) >= 1,
{
    let parts = link(op, right, style);
    assert(parts.len() == 3);
    assert(parts[0] == DocView::Line);
    assert(own_breaks_from(parts, 0) == own_breaks(parts[0]) + own_breaks_from(parts, 1));
}

/// The links of a chain hold an optional break for each operator of the
/// run.
pub proof fn lemma_links_hold_a_break_each(left: Expression, op: BinaryishOperator, style: Style)
    ensures
        own_breaks_from(chain_links(left, op, style), 0) >= run_operators(left, op),
    decreases left,
{
    match left {
        Expression::ParenthesizedExpression(inner) => {
            lemma_links_hold_a_break_each(inner.expression, op, style);
        },
        Expression::BinaryExpression(inner) => {
            if op.continues_spec(inner.operator.precedence_spec()) {
                let inner_op = BinaryishOperator::BinaryOperator(inner.operator);
                lemma_links_hold_a_break_each(inner.left, inner_op, style);
                lemma_link_opens_with_a_break(inner_op, inner.right, style);
                lemma_own_breaks_concat(
                    chain_links(inner.left, inner_op, style),
                    link(inner_op, inner.right, style),
                    0,
                );
            }
        },
        Expression::LogicalExpression(inner) => {
            if op.continues_spec(inner.operator.precedence_spec()) {
                let inner_op = BinaryishOperator::LogicalOperator(inner.operator);
                lemma_links_hold_a_break_each(inner.left, inner_op, style);
                lemma_link_opens_with_a_break(inner_op, inner.right, style);
                lemma_own_breaks_concat(
                    chain_links(inner.left, inner_op, style),
                    link(inner_op, inner.right, style),
                    0,
                );
            }
        },
        _ => {},
    }
}

/// The parts of the group of the chain of `left`, `op` and `right`.
pub open spec fn chain_parts(
    left: Expression,
    op: BinaryishOperator,
    right: Expression,
    style: Style,
) -> Seq<DocView> {
    no_parts().push(chain_head(left, op, style)).push(
        DocView::Indent(chain_links(left, op, style) + link(op, right, style)),
    )
}

/// Chain consistency: the chain of `left`, `op` and `right` is one group.
/// Where the group fits, the chain is added to the current line without a
/// line break. Where it does not, a line break stands before every
/// operator of the run: there are at least as many line breaks as the run
/// has operators.
pub proof fn lemma_chain_breaks_all_or_none(
    left: Expression,
    op: BinaryishOperator,
    right: Expression,
    style: Style,
    indent: nat,
    mode: Mode,
    rest: Seq<Cmd>,
    at: Layout,
    budget: Budget,
)
    ensures
        binaryish_doc(
            chain_head(left, op, style),
            chain_links(left, op, style) + link(op, right, style),
        ) == DocView::Group(chain_parts(left, op, right, style)),
        fits(chain_parts(left, op, right, style), rest, at.col, budget.width) ==> {
            &&& render(
                DocView::Group(chain_parts(left, op, right, style)),
                indent,
                mode,
                rest,
                at,
                budget,
            ).lines == at.lines
            &&& render(
                DocView::Group(chain_parts(left, op, right, style)),
                indent,
                mode,
                rest,
                at,
                budget,
            ).out == at.out + flat_text_from(chain_parts(left, op, right, style), 0)
        },
        !fits(chain_parts(left, op, right, style), rest, at.col, budget.width) ==> render(
            DocView::Group(chain_parts(left, op, right, style)),
            indent,
            mode,
            rest,
            at,
            budget,
        ).lines >= at.lines + run_operators(left, op) + 1,
{
    let links = chain_links(left, op, style) + link(op, right, style);
    let parts = chain_parts(left, op, right, style);
    lemma_group_breaks_all_or_none(parts, indent, mode, rest, at, budget);
    lemma_links_hold_a_break_each(left, op, style);
    lemma_own_breaks_concat(chain_links(left, op, style), link(op, right, style), 0);
    lemma_link_opens_with_a_break(op, right, style);
    assert(own_breaks_from(parts, 0) >= own_breaks_from(links, 0)) by {
        assert(own_breaks_from(parts, 1) == own_breaks(parts[1]) + own_breaks_from(parts, 2));
    }
}

} // verus!
