//! Calls and member accesses. A run of them is one chain: what stands
//! before the first property access is its head, and each property access
//! opens a segment that takes the calls and computed accesses after it.
//! With segments the chain is one group: it stays on one line, or every
//! segment stands on a line of its own, indented.

use vstd::prelude::*;
use crate::ast::{
    Argument, CallExpression, ChainElement, ComputedMemberExpression, Expression, MemberExpression,
    NewExpression, PrivateFieldExpression, StaticMemberExpression,
};
use crate::doc::{
    Doc, DocView, Separator, array, group, indent, join, joined, no_parts, parenthesize,
    parts_extend, parts_new, parts_push, text, txt, views, wrapped,
};
use crate::format::list::{Padding, bracketed, bracketed_doc};
use crate::format::precedence::{expression_precedence, precedence_of};
use crate::format::{
    expression_doc, format_expression, format_identifier_name, format_operand_at,
    format_private_identifier, format_spread_element, identifier_name_doc, operand_at,
    private_identifier_doc, spread_element_doc,
};
use crate::operator::Precedence;
use crate::session::{Prettier, Style};

verus! {

/// A chain as it is collected.
pub struct ChainView {
    pub head: Seq<DocView>,
    pub segments: Seq<DocView>,
}

/// A chain as it is collected.
pub struct Chain {
    pub head: Vec<Doc>,
    pub segments: Vec<Doc>,
}

impl View for Chain {
    type V = ChainView;

    open spec fn view(&self) -> ChainView {
        ChainView { head: views(self.head@), segments: views(self.segments@) }
    }
}

impl ChainView {
    /// The chain with `items` added to its last segment, or to its head
    /// where it has no segment yet.
    pub open spec fn attach(self, items: Seq<DocView>) -> ChainView {
        if self.segments.len() == 0 {
            ChainView { head: self.head + items, segments: self.segments }
        } else {
            ChainView { head: self.head, segments: self.segments + items }
        }
    }

    /// The chain with a new segment that holds `items`.
    pub open spec fn open_segment(self, items: Seq<DocView>) -> ChainView {
        ChainView { head: self.head, segments: self.segments.push(DocView::Softline) + items }
    }

    /// The document of the chain.
    pub open spec fn doc(self) -> DocView {
        if self.segments.len() == 0 {
            DocView::Concat(self.head)
        } else {
            DocView::Group(self.head.push(DocView::Indent(self.segments)))
        }
    }
}

impl Chain {
    pub fn attach(self, items: Vec<Doc>) -> (chain: Chain)
        ensures
            chain@ == self@.attach(views(items@)),
    {
        let mut chain = self;
        if chain.segments.len() == 0 {
            parts_extend(&mut chain.head, items);
        } else {
            parts_extend(&mut chain.segments, items);
        }
        chain
    }

    pub fn open_segment(self, items: Vec<Doc>) -> (chain: Chain)
        ensures
            chain@ == self@.open_segment(views(items@)),
    {
        let mut chain = self;
        parts_push(&mut chain.segments, Doc::Softline);
        parts_extend(&mut chain.segments, items);
        chain
    }

    pub fn doc(self) -> (doc: Doc)
        ensures
            doc@ == self@.doc(),
    {
        let mut head = self.head;
        if self.segments.len() == 0 {
            array(head)
        } else {
            parts_push(&mut head, indent(self.segments));
            group(head)
        }
    }
}

/// Whether `expr` as the head of a chain is printed in round brackets: it
/// binds looser than a call, or it is a function, a class or an object.
pub open spec fn head_needs_parens(expr: Expression) -> bool {
    ||| precedence_of(expr).rank_spec() < Precedence::Call.rank_spec()
    ||| expr is FunctionExpression
    ||| expr is ClassExpression
    ||| expr is ObjectExpression
}

/// The chain that `expr` is the end of.
pub open spec fn walk(expr: Expression, style: Style) -> ChainView
    decreases expr, 2nat,
{
    match expr {
        Expression::CallExpression(inner) => walk_call(*inner, style),
        Expression::MemberExpression(inner) => walk_member(*inner, style),
        Expression::ChainExpression(inner) => match inner.expression {
            ChainElement::CallExpression(call) => walk_call(*call, style),
            ChainElement::MemberExpression(member) => walk_member(*member, style),
        },
        _ => ChainView {
            head: no_parts().push(
                if head_needs_parens(expr) {
                    wrapped(expression_doc(expr, style))
                } else {
                    expression_doc(expr, style)
                },
            ),
            segments: no_parts(),
        },
    }
}

pub fn format_walk(expr: &Expression, p: &Prettier) -> (chain: Chain)
    ensures
        chain@ == walk(*expr, p@),
    decreases expr, 2nat,
{
    match expr {
        Expression::CallExpression(inner) => format_walk_call(inner, p),
        Expression::MemberExpression(inner) => format_walk_member(inner, p),
        Expression::ChainExpression(inner) => match &inner.expression {
            ChainElement::CallExpression(call) => format_walk_call(call, p),
            ChainElement::MemberExpression(member) => format_walk_member(member, p),
        },
        _ => {
            let parens = expression_precedence(expr).rank() < Precedence::Call.rank() || matches!(
                expr,
                Expression::FunctionExpression(_) | Expression::ClassExpression(_)
                    | Expression::ObjectExpression(_)
            );
            let doc = format_expression(expr, p);
            let mut head = parts_new();
            parts_push(
                &mut head,
                if parens {
                    parenthesize(doc)
                } else {
                    doc
                },
            );
            Chain { head, segments: parts_new() }
        },
    }
}

/// `?.` where the access is optional, then `items`.
pub open spec fn after_optional(optional: bool, items: Seq<DocView>) -> Seq<DocView> {
    if optional {
        no_parts().push(txt("?.")) + items
    } else {
        items
    }
}

pub open spec fn walk_call(expr: CallExpression, style: Style) -> ChainView
    decreases expr, 5nat,
{
    walk(expr.callee, style).attach(
        after_optional(expr.optional, no_parts().push(arguments_doc(expr.arguments@, style))),
    )
}

pub fn format_walk_call(expr: &CallExpression, p: &Prettier) -> (chain: Chain)
    ensures
        chain@ == walk_call(*expr, p@),
    decreases expr, 5nat,
{
    let chain = format_walk(&expr.callee, p);
    let mut items = parts_new();
    if expr.optional {
        parts_push(&mut items, text("?."));
    }
    parts_push(&mut items, print_call_arguments(p, &expr.arguments));
    assert(views(items@) =~= after_optional(
        expr.optional,
        no_parts().push(arguments_doc(expr.arguments@, p@)),
    ));
    chain.attach(items)
}

/// The point of a property access.
pub open spec fn access_point(optional: bool) -> DocView {
    if optional {
        txt("?.")
    } else {
        txt(".")
    }
}

pub open spec fn walk_computed_member(expr: ComputedMemberExpression, style: Style) -> ChainView
    decreases expr, 4nat,
{
    walk(expr.object, style).attach(
        after_optional(
            expr.optional,
            no_parts().push(txt("[")).push(expression_doc(expr.expression, style)).push(txt("]")),
        ),
    )
}

pub fn format_walk_computed_member(expr: &ComputedMemberExpression, p: &Prettier) -> (chain:
    Chain)
    ensures
        chain@ == walk_computed_member(*expr, p@),
    decreases expr, 4nat,
{
    let chain = format_walk(&expr.object, p);
    let mut items = parts_new();
    if expr.optional {
        parts_push(&mut items, text("?."));
    }
    parts_push(&mut items, text("["));
    parts_push(&mut items, format_expression(&expr.expression, p));
    parts_push(&mut items, text("]"));
    assert(views(items@) =~= after_optional(
        expr.optional,
        no_parts().push(txt("[")).push(expression_doc(expr.expression, p@)).push(txt("]")),
    ));
    chain.attach(items)
}

pub open spec fn walk_static_member(expr: StaticMemberExpression, style: Style) -> ChainView
    decreases expr, 4nat,
{
    walk(expr.object, style).open_segment(
        no_parts().push(access_point(expr.optional)).push(identifier_name_doc(expr.property)),
    )
}

pub fn format_walk_static_member(expr: &StaticMemberExpression, p: &Prettier) -> (chain: Chain)
    ensures
        chain@ == walk_static_member(*expr, p@),
    decreases expr, 4nat,
{
    let chain = format_walk(&expr.object, p);
    let mut items = parts_new();
    parts_push(
        &mut items,
        if expr.optional {
            text("?.")
        } else {
            text(".")
        },
    );
    parts_push(&mut items, format_identifier_name(&expr.property));
    chain.open_segment(items)
}

pub open spec fn walk_private_field(expr: PrivateFieldExpression, style: Style) -> ChainView
    decreases expr, 4nat,
{
    walk(expr.object, style).open_segment(
        no_parts().push(access_point(expr.optional)).push(private_identifier_doc(expr.field)),
    )
}

pub fn format_walk_private_field(expr: &PrivateFieldExpression, p: &Prettier) -> (chain: Chain)
    ensures
        chain@ == walk_private_field(*expr, p@),
    decreases expr, 4nat,
{
    let chain = format_walk(&expr.object, p);
    let mut items = parts_new();
    parts_push(
        &mut items,
        if expr.optional {
            text("?.")
        } else {
            text(".")
        },
    );
    parts_push(&mut items, format_private_identifier(&expr.field));
    chain.open_segment(items)
}

/// The chain that a member access is the end of: a computed access joins
/// the last segment, a property access opens a new one.
pub open spec fn walk_member(expr: MemberExpression, style: Style) -> ChainView
    decreases expr, 5nat,
{
    match expr {
        MemberExpression::ComputedMemberExpression(inner) => walk_computed_member(inner, style),
        MemberExpression::StaticMemberExpression(inner) => walk_static_member(inner, style),
        MemberExpression::PrivateFieldExpression(inner) => walk_private_field(inner, style),
    }
}

pub fn format_walk_member(expr: &MemberExpression, p: &Prettier) -> (chain: Chain)
    ensures
        chain@ == walk_member(*expr, p@),
    decreases expr, 5nat,
{
    match expr {
        MemberExpression::ComputedMemberExpression(inner) => format_walk_computed_member(
            inner,
            p,
        ),
        MemberExpression::StaticMemberExpression(inner) => format_walk_static_member(inner, p),
        MemberExpression::PrivateFieldExpression(inner) => format_walk_private_field(inner, p),
    }
}

pub open spec fn computed_member_expression_doc(expr: ComputedMemberExpression, style: Style) -> DocView
    decreases expr, 5nat,
{
    walk_computed_member(expr, style).doc()
}

pub fn format_computed_member_expression(expr: &ComputedMemberExpression, p: &Prettier) -> (doc:
    Doc)
    ensures
        doc@ == computed_member_expression_doc(*expr, p@),
    decreases expr, 5nat,
{
    format_walk_computed_member(expr, p).doc()
}

pub open spec fn static_member_expression_doc(expr: StaticMemberExpression, style: Style) -> DocView
    decreases expr, 5nat,
{
    walk_static_member(expr, style).doc()
}

pub fn format_static_member_expression(expr: &StaticMemberExpression, p: &Prettier) -> (doc: Doc)
    ensures
        doc@ == static_member_expression_doc(*expr, p@),
    decreases expr, 5nat,
{
    format_walk_static_member(expr, p).doc()
}

pub open spec fn private_field_expression_doc(expr: PrivateFieldExpression, style: Style) -> DocView
    decreases expr, 5nat,
{
    walk_private_field(expr, style).doc()
}

pub fn format_private_field_expression(expr: &PrivateFieldExpression, p: &Prettier) -> (doc: Doc)
    ensures
        doc@ == private_field_expression_doc(*expr, p@),
    decreases expr, 5nat,
{
    format_walk_private_field(expr, p).doc()
}

pub open spec fn call_expression_doc(expr: CallExpression, style: Style) -> DocView
    decreases expr, 6nat,
{
    walk_call(expr, style).doc()
}

pub fn format_call_expression(expr: &CallExpression, p: &Prettier) -> (doc: Doc)
    ensures
        doc@ == call_expression_doc(*expr, p@),
    decreases expr, 6nat,
{
    format_walk_call(expr, p).doc()
}

pub open spec fn member_expression_doc(expr: MemberExpression, style: Style) -> DocView
    decreases expr, 6nat,
{
    walk_member(expr, style).doc()
}

pub fn format_member_expression(expr: &MemberExpression, p: &Prettier) -> (doc: Doc)
    ensures
        doc@ == member_expression_doc(*expr, p@),
    decreases expr, 6nat,
{
    format_walk_member(expr, p).doc()
}

pub open spec fn new_expression_doc(expr: NewExpression, style: Style) -> DocView
    decreases expr, 6nat,
{
    DocView::Concat(
        no_parts().push(txt("new ")).push(operand_at(expr.callee, Precedence::Member, style)).push(
            arguments_doc(expr.arguments@, style),
        ),
    )
}

pub fn format_new_expression(expr: &NewExpression, p: &Prettier) -> (doc: Doc)
    ensures
        doc@ == new_expression_doc(*expr, p@),
    decreases expr, 6nat,
{
    let mut parts = parts_new();
    parts_push(&mut parts, text("new "));
    parts_push(&mut parts, format_operand_at(&expr.callee, Precedence::Member, p));
    parts_push(&mut parts, print_call_arguments(p, &expr.arguments));
    array(parts)
}

pub open spec fn argument_doc(argument: Argument, style: Style) -> DocView
    decreases argument, 3nat,
{
    match argument {
        Argument::SpreadElement(inner) => spread_element_doc(inner, style),
        Argument::Expression(inner) => operand_at(inner, Precedence::Assign, style),
    }
}

pub fn format_argument(argument: &Argument, p: &Prettier) -> (doc: Doc)
    ensures
        doc@ == argument_doc(*argument, p@),
    decreases argument, 3nat,
{
    match argument {
        Argument::SpreadElement(inner) => format_spread_element(inner, p),
        Argument::Expression(inner) => format_operand_at(inner, Precedence::Assign, p),
    }
}

pub open spec fn argument_docs(arguments: Seq<Argument>, style: Style) -> Seq<DocView>
    decreases arguments, 0nat,
{
    Seq::new(
        arguments.len(),
        |i: int|
            if 0 <= i < arguments.len() {
                argument_doc(arguments[i], style)
            } else {
                DocView::Line
            },
    )
}

pub fn format_arguments(arguments: &Vec<Argument>, p: &Prettier) -> (docs: Vec<Doc>)
    ensures
        views(docs@) == argument_docs(arguments@, p@),
    decreases arguments, 0nat,
{
    let mut docs = parts_new();
    let mut i: usize = 0;
    while i < arguments.len()
        invariant
            i <= arguments.len(),
            views(docs@) == argument_docs(arguments@, p@).take(i as int),
        decreases arguments.len() - i,
    {
        let doc = format_argument(&arguments[i], p);
        parts_push(&mut docs, doc);
        i += 1;
        assert(views(docs@) =~= argument_docs(arguments@, p@).take(i as int));
    }
    assert(argument_docs(arguments@, p@).take(arguments.len() as int) =~= argument_docs(
        arguments@,
        p@,
    ));
    docs
}

/// Whether `argument` is one word: a name or a literal.
pub open spec fn is_simple(argument: Argument) -> bool {
    match argument {
        Argument::Expression(inner) => {
            ||| inner is Identifier
            ||| inner is ThisExpression
            ||| inner is Super
            ||| inner is NullLiteral
            ||| inner is BooleanLiteral
            ||| inner is NumberLiteral
            ||| inner is BigintLiteral
            ||| inner is StringLiteral
            ||| inner is RegExpLiteral
        },
        Argument::SpreadElement(_) => false,
    }
}

pub fn argument_is_simple(argument: &Argument) -> (simple: bool)
    ensures
        simple == is_simple(*argument),
{
    match argument {
        Argument::Expression(inner) => matches!(
            inner,
            Expression::Identifier(_) | Expression::ThisExpression | Expression::Super
                | Expression::NullLiteral | Expression::BooleanLiteral(_)
                | Expression::NumberLiteral(_) | Expression::BigintLiteral(_)
                | Expression::StringLiteral(_) | Expression::RegExpLiteral(_)
        ),
        Argument::SpreadElement(_) => false,
    }
}

/// Whether `argument` brings brackets of its own that it can break inside:
/// a function, an object or an array.
pub open spec fn is_huggable(argument: Argument) -> bool {
    match argument {
        Argument::Expression(inner) => {
            ||| inner is FunctionExpression
            ||| inner is ArrowExpression
            ||| inner is ObjectExpression
            ||| inner is ArrayExpression
        },
        Argument::SpreadElement(_) => false,
    }
}

pub fn argument_is_huggable(argument: &Argument) -> (huggable: bool)
    ensures
        huggable == is_huggable(*argument),
{
    match argument {
        Argument::Expression(inner) => matches!(
            inner,
            Expression::FunctionExpression(_) | Expression::ArrowExpression(_)
                | Expression::ObjectExpression(_) | Expression::ArrayExpression(_)
        ),
        Argument::SpreadElement(_) => false,
    }
}

/// Whether the last argument is hugged: it is huggable and every argument
/// before it is simple.
pub open spec fn hugs_last(arguments: Seq<Argument>) -> bool {
    &&& arguments.len() > 0
    &&& is_huggable(arguments.last())
    &&& forall|i: int| 0 <= i < arguments.len() - 1 ==> is_simple(#[trigger] arguments[i])
}

pub fn should_hug_last(arguments: &Vec<Argument>) -> (hug: bool)
    ensures
        hug == hugs_last(arguments@),
{
    if arguments.len() == 0 {
        return false;
    }
    let last = arguments.len() - 1;
    if !argument_is_huggable(&arguments[last]) {
        return false;
    }
    let mut i: usize = 0;
    while i < last
        invariant
            i <= last,
            last == arguments.len() - 1,
            forall|j: int| 0 <= j < i ==> is_simple(#[trigger] arguments@[j]),
        decreases last - i,
    {
        if !argument_is_simple(&arguments[i]) {
            return false;
        }
        i += 1;
    }
    true
}

/// The arguments of a call between round brackets. Where the last argument
/// is hugged they are no group of their own: they stay on the line of the
/// brackets, and the last one breaks inside its own brackets. Else they are
/// a list that breaks one argument per line.
pub open spec fn arguments_doc(arguments: Seq<Argument>, style: Style) -> DocView
    decreases arguments, 1nat,
{
    if hugs_last(arguments) {
        DocView::Concat(
            no_parts().push(txt("(")).push(
                DocView::Concat(
                    joined(Separator::CommaSpace.doc_spec(), argument_docs(arguments, style)),
                ),
            ).push(txt(")")),
        )
    } else {
        bracketed_doc("("@, ")"@, Padding::Tight, argument_docs(arguments, style), true)
    }
}

pub fn print_call_arguments(p: &Prettier, arguments: &Vec<Argument>) -> (doc: Doc)
    ensures
        doc@ == arguments_doc(arguments@, p@),
    decreases arguments, 1nat,
{
    let docs = format_arguments(arguments, p);
    if should_hug_last(arguments) {
        let mut parts = parts_new();
        parts_push(&mut parts, text("("));
        parts_push(&mut parts, array(join(Separator::CommaSpace, docs)));
        parts_push(&mut parts, text(")"));
        array(parts)
    } else {
        bracketed("(", ")", Padding::Tight, docs, true)
    }
}

} // verus!
