//! The printers: from a node of the syntax tree to its document.

pub mod array;
pub mod arrow_function;
pub mod binaryish;
pub mod block;
pub mod call_expression;
pub mod class;
pub mod function;
pub mod function_parameters;
pub mod list;
pub mod literal;
pub mod module;
pub mod object;
pub mod precedence;
pub mod statement;
pub mod ternary;

pub use crate::node::Format;

use vstd::prelude::*;
use vstd::string::*;
use crate::ast::{
    AssignmentExpression, AssignmentPattern, AssignmentTarget, AssignmentTargetPattern,
    AwaitExpression, BindingIdentifier,
    BindingPattern, BindingPatternKind, BreakStatement, CatchClause, ChainElement, ChainExpression,
    ContinueStatement, Declaration, Directive, Expression, ExpressionStatement, IdentifierName,
    IdentifierReference, IfStatement, LabelIdentifier, MetaProperty, ParenthesizedExpression,
    PrivateIdentifier, Program, PropertyKey, RestElement, SequenceExpression,
    SimpleAssignmentTarget, SpreadElement, Statement, SwitchCase, SwitchStatement, TryStatement,
    UnaryExpression, UpdateExpression, VariableDeclaration, VariableDeclarationKind,
    VariableDeclarator, WithStatement, YieldExpression,
};
use crate::doc::{
    Doc, DocView, Separator, array, group, indent, join, joined, no_parts, parenthesize,
    parts_extend, parts_new, parts_push, text, txt, views, wrapped,
};
use crate::operator::{Precedence, UnaryOperator};
use crate::session::{Prettier, Style};
use self::array::{array_expression_doc, print_array};
use self::arrow_function::{arrow_function_doc, print_arrow_function};
use self::binaryish::{
    binary_expression_doc, format_binary_expression, format_logical_expression,
    format_private_in_expression, logical_expression_doc, private_in_expression_doc,
};
use self::block::{block_body_doc, block_doc, print_block, print_block_body};
use self::call_expression::{
    call_expression_doc, format_call_expression, format_member_expression, format_new_expression,
    member_expression_doc, new_expression_doc,
};
use self::class::{class_doc, print_class};
use self::function::{
    function_doc, print_function, print_return_or_throw_argument, return_or_throw_doc,
};
use self::literal::{
    bigint_literal_doc, boolean_literal_doc, format_bigint_literal, format_boolean_literal,
    format_number_literal, format_regexp_literal, format_string_literal, number_literal_doc,
    placeholder, placeholder_text, regexp_literal_doc, string_literal_doc,
};
use self::module::{format_module_declaration, module_declaration_doc};
use self::object::{
    format_object_expression, format_object_pattern, object_expression_doc, object_pattern_doc,
};
use self::precedence::{expression_precedence, precedence_of};
use self::statement::{print_statement_sequence, statement_sequence};
use self::ternary::{print_ternary, ternary_doc};

verus! {

/// `parts`, with a semicolon after them where statements end in one.
pub open spec fn with_semi(parts: Seq<DocView>, style: Style) -> Seq<DocView> {
    if style.semi {
        parts.push(txt(";"))
    } else {
        parts
    }
}

/// Appends a semicolon where statements end in one.
pub fn push_semi(parts: &mut Vec<Doc>, p: &Prettier)
    ensures
        views(final(parts)@) == with_semi(views(old(parts)@), p@),
{
    if p.options.semi {
        parts_push(parts, text(";"));
    }
}

/// The document of `expr` as an operand that has to bind at least as
/// tightly as `min`: in round brackets where it binds looser.
pub open spec fn operand_at(expr: Expression, min: Precedence, style: Style) -> DocView
    decreases expr, 1nat,
{
    if precedence_of(expr).rank_spec() < min.rank_spec() {
        wrapped(expression_doc(expr, style))
    } else {
        expression_doc(expr, style)
    }
}

pub fn format_operand_at(expr: &Expression, min: Precedence, p: &Prettier) -> (doc: Doc)
    ensures
        doc@ == operand_at(*expr, min, p@),
    decreases expr, 1nat,
{
    let doc = format_expression(expr, p);
    if expression_precedence(expr).rank() < min.rank() {
        parenthesize(doc)
    } else {
        doc
    }
}

/// The documents of `exprs`, each as an operand of a comma.
pub open spec fn element_docs(exprs: Seq<Expression>, style: Style) -> Seq<DocView>
    decreases exprs, 2nat,
{
    Seq::new(
        exprs.len(),
        |i: int|
            if 0 <= i < exprs.len() {
                operand_at(exprs[i], Precedence::Assign, style)
            } else {
                DocView::Line
            },
    )
}

pub fn format_elements(exprs: &Vec<Expression>, p: &Prettier) -> (docs: Vec<Doc>)
    ensures
        views(docs@) == element_docs(exprs@, p@),
    decreases exprs, 2nat,
{
    let mut docs = parts_new();
    let mut i: usize = 0;
    while i < exprs.len()
        invariant
            i <= exprs.len(),
            views(docs@) == element_docs(exprs@, p@).take(i as int),
        decreases exprs.len() - i,
    {
        let doc = format_operand_at(&exprs[i], Precedence::Assign, p);
        parts_push(&mut docs, doc);
        i += 1;
        assert(views(docs@) =~= element_docs(exprs@, p@).take(i as int));
    }
    assert(element_docs(exprs@, p@).take(exprs.len() as int) =~= element_docs(exprs@, p@));
    docs
}

pub open spec fn expression_doc(expr: Expression, style: Style) -> DocView
    decreases expr, 0nat,
{
    match expr {
        Expression::BooleanLiteral(lit) => boolean_literal_doc(lit),
        Expression::NullLiteral => txt("null"),
        Expression::NumberLiteral(lit) => number_literal_doc(lit),
        Expression::BigintLiteral(lit) => bigint_literal_doc(lit, style),
        Expression::RegExpLiteral(lit) => regexp_literal_doc(lit),
        Expression::StringLiteral(lit) => string_literal_doc(lit, style),
        Expression::Identifier(ident) => DocView::Text(ident.name@),
        Expression::ThisExpression => txt("this"),
        Expression::Super => txt("super"),
        Expression::MemberExpression(inner) => member_expression_doc(*inner, style),
        Expression::CallExpression(inner) => call_expression_doc(*inner, style),
        Expression::NewExpression(inner) => new_expression_doc(*inner, style),
        Expression::ArrayExpression(inner) => array_expression_doc(*inner, style),
        Expression::ObjectExpression(inner) => object_expression_doc(*inner, style),
        Expression::FunctionExpression(inner) => function_doc(*inner, style),
        Expression::ArrowExpression(inner) => arrow_function_doc(*inner, style),
        Expression::ClassExpression(inner) => class_doc(*inner, style),
        Expression::YieldExpression(inner) => yield_expression_doc(*inner, style),
        Expression::AwaitExpression(inner) => await_expression_doc(*inner, style),
        Expression::UpdateExpression(inner) => update_expression_doc(*inner, style),
        Expression::UnaryExpression(inner) => unary_expression_doc(*inner, style),
        Expression::BinaryExpression(inner) => binary_expression_doc(*inner, style),
        Expression::PrivateInExpression(inner) => private_in_expression_doc(*inner, style),
        Expression::LogicalExpression(inner) => logical_expression_doc(*inner, style),
        Expression::ConditionalExpression(inner) => ternary_doc(*inner, style),
        Expression::AssignmentExpression(inner) => assignment_expression_doc(*inner, style),
        Expression::SequenceExpression(inner) => sequence_expression_doc(*inner, style),
        Expression::ParenthesizedExpression(inner) => parenthesized_expression_doc(*inner, style),
        Expression::ChainExpression(inner) => chain_expression_doc(*inner, style),
        Expression::MetaProperty(inner) => meta_property_doc(inner),
        Expression::TypeWrapped(inner) => expression_doc(*inner, style),
        Expression::Unsupported => DocView::Text(placeholder_text()),
    }
}

pub fn format_expression(expr: &Expression, p: &Prettier) -> (doc: Doc)
    ensures
        doc@ == expression_doc(*expr, p@),
    decreases expr, 0nat,
{
    match expr {
        Expression::BooleanLiteral(lit) => format_boolean_literal(lit),
        Expression::NullLiteral => text("null"),
        Expression::NumberLiteral(lit) => format_number_literal(lit),
        Expression::BigintLiteral(lit) => format_bigint_literal(lit, p),
        Expression::RegExpLiteral(lit) => format_regexp_literal(lit),
        Expression::StringLiteral(lit) => format_string_literal(lit, p),
        Expression::Identifier(ident) => format_identifier_reference(ident),
        Expression::ThisExpression => text("this"),
        Expression::Super => text("super"),
        Expression::MemberExpression(inner) => format_member_expression(inner, p),
        Expression::CallExpression(inner) => format_call_expression(inner, p),
        Expression::NewExpression(inner) => format_new_expression(inner, p),
        Expression::ArrayExpression(inner) => print_array(p, inner),
        Expression::ObjectExpression(inner) => format_object_expression(inner, p),
        Expression::FunctionExpression(inner) => print_function(p, inner),
        Expression::ArrowExpression(inner) => print_arrow_function(p, inner),
        Expression::ClassExpression(inner) => print_class(p, inner),
        Expression::YieldExpression(inner) => format_yield_expression(inner, p),
        Expression::AwaitExpression(inner) => format_await_expression(inner, p),
        Expression::UpdateExpression(inner) => format_update_expression(inner, p),
        Expression::UnaryExpression(inner) => format_unary_expression(inner, p),
        Expression::BinaryExpression(inner) => format_binary_expression(inner, p),
        Expression::PrivateInExpression(inner) => format_private_in_expression(inner, p),
        Expression::LogicalExpression(inner) => format_logical_expression(inner, p),
        Expression::ConditionalExpression(inner) => print_ternary(p, inner),
        Expression::AssignmentExpression(inner) => format_assignment_expression(inner, p),
        Expression::SequenceExpression(inner) => format_sequence_expression(inner, p),
        Expression::ParenthesizedExpression(inner) => format_parenthesized_expression(inner, p),
        Expression::ChainExpression(inner) => format_chain_expression(inner, p),
        Expression::MetaProperty(inner) => format_meta_property(inner),
        Expression::TypeWrapped(inner) => format_expression(inner, p),
        Expression::Unsupported => placeholder(),
    }
}

pub open spec fn identifier_reference_doc(ident: IdentifierReference) -> DocView {
    DocView::Text(ident.name@)
}

pub fn format_identifier_reference(ident: &IdentifierReference) -> (doc: Doc)
    ensures
        doc@ == identifier_reference_doc(*ident),
{
    text(ident.name.as_str())
}

pub open spec fn identifier_name_doc(ident: IdentifierName) -> DocView {
    DocView::Text(ident.name@)
}

pub fn format_identifier_name(ident: &IdentifierName) -> (doc: Doc)
    ensures
        doc@ == identifier_name_doc(*ident),
{
    text(ident.name.as_str())
}

pub open spec fn binding_identifier_doc(ident: BindingIdentifier) -> DocView {
    DocView::Text(ident.name@)
}

pub fn format_binding_identifier(ident: &BindingIdentifier) -> (doc: Doc)
    ensures
        doc@ == binding_identifier_doc(*ident),
{
    text(ident.name.as_str())
}

pub open spec fn label_identifier_doc(ident: LabelIdentifier) -> DocView {
    DocView::Text(ident.name@)
}

pub fn format_label_identifier(ident: &LabelIdentifier) -> (doc: Doc)
    ensures
        doc@ == label_identifier_doc(*ident),
{
    text(ident.name.as_str())
}

pub open spec fn private_identifier_doc(ident: PrivateIdentifier) -> DocView {
    DocView::Concat(no_parts().push(txt("#")).push(DocView::Text(ident.name@)))
}

pub fn format_private_identifier(ident: &PrivateIdentifier) -> (doc: Doc)
    ensures
        doc@ == private_identifier_doc(*ident),
{
    let mut parts = parts_new();
    parts_push(&mut parts, text("#"));
    parts_push(&mut parts, text(ident.name.as_str()));
    array(parts)
}

pub open spec fn meta_property_doc(expr: MetaProperty) -> DocView {
    DocView::Concat(
        no_parts().push(identifier_name_doc(expr.meta)).push(txt(".")).push(
            identifier_name_doc(expr.property),
        ),
    )
}

pub fn format_meta_property(expr: &MetaProperty) -> (doc: Doc)
    ensures
        doc@ == meta_property_doc(*expr),
{
    let mut parts = parts_new();
    parts_push(&mut parts, format_identifier_name(&expr.meta));
    parts_push(&mut parts, text("."));
    parts_push(&mut parts, format_identifier_name(&expr.property));
    array(parts)
}

pub open spec fn yield_expression_doc(expr: YieldExpression, style: Style) -> DocView
    decreases expr, 2nat,
{
    let parts = no_parts().push(txt("yield"));
    let parts = if expr.delegate {
        parts.push(txt("*"))
    } else {
        parts
    };
    DocView::Concat(
        match expr.argument {
            Some(argument) => parts.push(txt(" ")).push(
                operand_at(argument, Precedence::Assign, style),
            ),
            None => parts,
        },
    )
}

pub fn format_yield_expression(expr: &YieldExpression, p: &Prettier) -> (doc: Doc)
    ensures
        doc@ == yield_expression_doc(*expr, p@),
    decreases expr, 2nat,
{
    let mut parts = parts_new();
    parts_push(&mut parts, text("yield"));
    if expr.delegate {
        parts_push(&mut parts, text("*"));
    }
    match &expr.argument {
        Some(argument) => {
            parts_push(&mut parts, text(" "));
            parts_push(&mut parts, format_operand_at(argument, Precedence::Assign, p));
        },
        None => {},
    }
    array(parts)
}

pub open spec fn await_expression_doc(expr: AwaitExpression, style: Style) -> DocView
    decreases expr, 2nat,
{
    DocView::Concat(
        no_parts().push(txt("await ")).push(operand_at(expr.argument, Precedence::Prefix, style)),
    )
}

pub fn format_await_expression(expr: &AwaitExpression, p: &Prettier) -> (doc: Doc)
    ensures
        doc@ == await_expression_doc(*expr, p@),
    decreases expr, 2nat,
{
    let mut parts = parts_new();
    parts_push(&mut parts, text("await "));
    parts_push(&mut parts, format_operand_at(&expr.argument, Precedence::Prefix, p));
    array(parts)
}

pub open spec fn simple_assignment_target_doc(target: SimpleAssignmentTarget, style: Style) -> DocView
    decreases target, 2nat,
{
    match target {
        SimpleAssignmentTarget::AssignmentTargetIdentifier(ident) => identifier_reference_doc(
            ident,
        ),
        SimpleAssignmentTarget::MemberAssignmentTarget(inner) => member_expression_doc(
            *inner,
            style,
        ),
        SimpleAssignmentTarget::TypeWrapped(inner) => expression_doc(*inner, style),
    }
}

pub fn format_simple_assignment_target(target: &SimpleAssignmentTarget, p: &Prettier) -> (doc:
    Doc)
    ensures
        doc@ == simple_assignment_target_doc(*target, p@),
    decreases target, 2nat,
{
    match target {
        SimpleAssignmentTarget::AssignmentTargetIdentifier(ident) => format_identifier_reference(
            ident,
        ),
        SimpleAssignmentTarget::MemberAssignmentTarget(inner) => format_member_expression(
            inner,
            p,
        ),
        SimpleAssignmentTarget::TypeWrapped(inner) => format_expression(inner, p),
    }
}

/// A destructuring target: not covered, in either form.
pub open spec fn assignment_target_pattern_doc(pattern: AssignmentTargetPattern) -> DocView {
    match pattern {
        AssignmentTargetPattern::ArrayAssignmentTarget => DocView::Text(placeholder_text()),
        AssignmentTargetPattern::ObjectAssignmentTarget => DocView::Text(placeholder_text()),
    }
}

pub fn format_assignment_target_pattern(pattern: &AssignmentTargetPattern) -> (doc: Doc)
    ensures
        doc@ == assignment_target_pattern_doc(*pattern),
{
    match pattern {
        AssignmentTargetPattern::ArrayAssignmentTarget => placeholder(),
        AssignmentTargetPattern::ObjectAssignmentTarget => placeholder(),
    }
}

pub open spec fn assignment_target_doc(target: AssignmentTarget, style: Style) -> DocView
    decreases target, 3nat,
{
    match target {
        AssignmentTarget::SimpleAssignmentTarget(inner) => simple_assignment_target_doc(
            inner,
            style,
        ),
        AssignmentTarget::AssignmentTargetPattern(inner) => assignment_target_pattern_doc(inner),
    }
}

pub fn format_assignment_target(target: &AssignmentTarget, p: &Prettier) -> (doc: Doc)
    ensures
        doc@ == assignment_target_doc(*target, p@),
    decreases target, 3nat,
{
    match target {
        AssignmentTarget::SimpleAssignmentTarget(inner) => format_simple_assignment_target(
            inner,
            p,
        ),
        AssignmentTarget::AssignmentTargetPattern(inner) => format_assignment_target_pattern(
            inner,
        ),
    }
}

pub open spec fn update_expression_doc(expr: UpdateExpression, style: Style) -> DocView
    decreases expr, 3nat,
{
    let operator = DocView::Text(expr.operator.text());
    let argument = simple_assignment_target_doc(expr.argument, style);
    DocView::Concat(
        if expr.prefix {
            no_parts().push(operator).push(argument)
        } else {
            no_parts().push(argument).push(operator)
        },
    )
}

pub fn format_update_expression(expr: &UpdateExpression, p: &Prettier) -> (doc: Doc)
    ensures
        doc@ == update_expression_doc(*expr, p@),
    decreases expr, 3nat,
{
    let operator = text(expr.operator.as_str());
    let argument = format_simple_assignment_target(&expr.argument, p);
    let mut parts = parts_new();
    if expr.prefix {
        parts_push(&mut parts, operator);
        parts_push(&mut parts, argument);
    } else {
        parts_push(&mut parts, argument);
        parts_push(&mut parts, operator);
    }
    array(parts)
}

/// Whether `operator` is a sign.
pub open spec fn is_sign(operator: UnaryOperator) -> bool {
    operator == UnaryOperator::UnaryNegation || operator == UnaryOperator::UnaryPlus
}

/// Whether the argument of a sign would run into it: the argument starts
/// with a sign itself, or with `++` or `--`.
pub open spec fn runs_into_sign(argument: Expression) -> bool {
    match argument {
        Expression::UnaryExpression(inner) => is_sign(inner.operator),
        Expression::UpdateExpression(inner) => inner.prefix,
        _ => false,
    }
}

pub open spec fn unary_expression_doc(expr: UnaryExpression, style: Style) -> DocView
    decreases expr, 2nat,
{
    let parts = no_parts().push(DocView::Text(expr.operator.text()));
    let parts = if expr.operator.is_keyword_spec() {
        parts.push(txt(" "))
    } else {
        parts
    };
    DocView::Concat(
        parts.push(
            if is_sign(expr.operator) && runs_into_sign(expr.argument) {
                wrapped(expression_doc(expr.argument, style))
            } else {
                operand_at(expr.argument, Precedence::Prefix, style)
            },
        ),
    )
}

pub fn format_unary_expression(expr: &UnaryExpression, p: &Prettier) -> (doc: Doc)
    ensures
        doc@ == unary_expression_doc(*expr, p@),
    decreases expr, 2nat,
{
    let mut parts = parts_new();
    parts_push(&mut parts, text(expr.operator.as_str()));
    if expr.operator.is_keyword() {
        parts_push(&mut parts, text(" "));
    }
    let sign = matches!(expr.operator, UnaryOperator::UnaryNegation | UnaryOperator::UnaryPlus);
    let clash = match &expr.argument {
        Expression::UnaryExpression(inner) => matches!(
            inner.operator,
            UnaryOperator::UnaryNegation | UnaryOperator::UnaryPlus
        ),
        Expression::UpdateExpression(inner) => inner.prefix,
        _ => false,
    };
    if sign && clash {
        parts_push(&mut parts, parenthesize(format_expression(&expr.argument, p)));
    } else {
        parts_push(&mut parts, format_operand_at(&expr.argument, Precedence::Prefix, p));
    }
    array(parts)
}

pub open spec fn assignment_expression_doc(expr: AssignmentExpression, style: Style) -> DocView
    decreases expr, 4nat,
{
    DocView::Concat(
        no_parts().push(assignment_target_doc(expr.left, style)).push(txt(" ")).push(
            DocView::Text(expr.operator.text()),
        ).push(txt(" ")).push(operand_at(expr.right, Precedence::Assign, style)),
    )
}

pub fn format_assignment_expression(expr: &AssignmentExpression, p: &Prettier) -> (doc: Doc)
    ensures
        doc@ == assignment_expression_doc(*expr, p@),
    decreases expr, 4nat,
{
    let mut parts = parts_new();
    parts_push(&mut parts, format_assignment_target(&expr.left, p));
    parts_push(&mut parts, text(" "));
    parts_push(&mut parts, text(expr.operator.as_str()));
    parts_push(&mut parts, text(" "));
    parts_push(&mut parts, format_operand_at(&expr.right, Precedence::Assign, p));
    array(parts)
}

pub open spec fn sequence_expression_doc(expr: SequenceExpression, style: Style) -> DocView
    decreases expr, 3nat,
{
    DocView::Group(
        no_parts().push(
            DocView::Concat(
                joined(Separator::CommaLine.doc_spec(), element_docs(expr.expressions@, style)),
            ),
        ),
    )
}

pub fn format_sequence_expression(expr: &SequenceExpression, p: &Prettier) -> (doc: Doc)
    ensures
        doc@ == sequence_expression_doc(*expr, p@),
    decreases expr, 3nat,
{
    let docs = format_elements(&expr.expressions, p);
    let mut parts = parts_new();
    parts_push(&mut parts, array(join(Separator::CommaLine, docs)));
    group(parts)
}

pub open spec fn parenthesized_expression_doc(expr: ParenthesizedExpression, style: Style) -> DocView
    decreases expr, 1nat,
{
    wrapped(expression_doc(expr.expression, style))
}

pub fn format_parenthesized_expression(expr: &ParenthesizedExpression, p: &Prettier) -> (doc: Doc)
    ensures
        doc@ == parenthesized_expression_doc(*expr, p@),
    decreases expr, 1nat,
{
    parenthesize(format_expression(&expr.expression, p))
}

pub open spec fn chain_element_doc(element: ChainElement, style: Style) -> DocView
    decreases element, 0nat,
{
    match element {
        ChainElement::CallExpression(inner) => call_expression_doc(*inner, style),
        ChainElement::MemberExpression(inner) => member_expression_doc(*inner, style),
    }
}

pub fn format_chain_element(element: &ChainElement, p: &Prettier) -> (doc: Doc)
    ensures
        doc@ == chain_element_doc(*element, p@),
    decreases element, 0nat,
{
    match element {
        ChainElement::CallExpression(inner) => format_call_expression(inner, p),
        ChainElement::MemberExpression(inner) => format_member_expression(inner, p),
    }
}

pub open spec fn chain_expression_doc(expr: ChainExpression, style: Style) -> DocView
    decreases expr, 0nat,
{
    chain_element_doc(expr.expression, style)
}

pub fn format_chain_expression(expr: &ChainExpression, p: &Prettier) -> (doc: Doc)
    ensures
        doc@ == chain_expression_doc(*expr, p@),
    decreases expr, 0nat,
{
    format_chain_element(&expr.expression, p)
}

pub open spec fn spread_element_doc(element: SpreadElement, style: Style) -> DocView
    decreases element, 2nat,
{
    DocView::Concat(
        no_parts().push(txt("...")).push(operand_at(element.argument, Precedence::Assign, style)),
    )
}

pub fn format_spread_element(element: &SpreadElement, p: &Prettier) -> (doc: Doc)
    ensures
        doc@ == spread_element_doc(*element, p@),
    decreases element, 2nat,
{
    let mut parts = parts_new();
    parts_push(&mut parts, text("..."));
    parts_push(&mut parts, format_operand_at(&element.argument, Precedence::Assign, p));
    array(parts)
}

/// A property key: between square brackets where it is computed.
pub open spec fn property_key_doc(key: PropertyKey, computed: bool, style: Style) -> DocView
    decreases key, 2nat,
{
    let inner = match key {
        PropertyKey::Identifier(ident) => identifier_name_doc(ident),
        PropertyKey::PrivateIdentifier(ident) => private_identifier_doc(ident),
        PropertyKey::Expression(expr) => expression_doc(expr, style),
    };
    if computed {
        DocView::Concat(no_parts().push(txt("[")).push(inner).push(txt("]")))
    } else {
        inner
    }
}

pub fn format_property_key(key: &PropertyKey, computed: bool, p: &Prettier) -> (doc: Doc)
    ensures
        doc@ == property_key_doc(*key, computed, p@),
    decreases key, 2nat,
{
    let inner = match key {
        PropertyKey::Identifier(ident) => format_identifier_name(ident),
        PropertyKey::PrivateIdentifier(ident) => format_private_identifier(ident),
        PropertyKey::Expression(expr) => format_expression(expr, p),
    };
    if computed {
        let mut parts = parts_new();
        parts_push(&mut parts, text("["));
        parts_push(&mut parts, inner);
        parts_push(&mut parts, text("]"));
        array(parts)
    } else {
        inner
    }
}

pub open spec fn binding_pattern_doc(pattern: BindingPattern, style: Style) -> DocView
    decreases pattern, 2nat,
{
    match pattern.kind {
        BindingPatternKind::BindingIdentifier(ident) => binding_identifier_doc(ident),
        BindingPatternKind::ObjectPattern(inner) => object_pattern_doc(*inner, style),
        BindingPatternKind::AssignmentPattern(inner) => assignment_pattern_doc(*inner, style),
        BindingPatternKind::Unsupported => DocView::Text(placeholder_text()),
    }
}

pub fn format_binding_pattern(pattern: &BindingPattern, p: &Prettier) -> (doc: Doc)
    ensures
        doc@ == binding_pattern_doc(*pattern, p@),
    decreases pattern, 2nat,
{
    match &pattern.kind {
        BindingPatternKind::BindingIdentifier(ident) => format_binding_identifier(ident),
        BindingPatternKind::ObjectPattern(inner) => format_object_pattern(inner, p),
        BindingPatternKind::AssignmentPattern(inner) => format_assignment_pattern(inner, p),
        BindingPatternKind::Unsupported => placeholder(),
    }
}

pub open spec fn assignment_pattern_doc(pattern: AssignmentPattern, style: Style) -> DocView
    decreases pattern, 3nat,
{
    DocView::Concat(
        no_parts().push(binding_pattern_doc(pattern.left, style)).push(txt(" = ")).push(
            operand_at(pattern.right, Precedence::Assign, style),
        ),
    )
}

pub fn format_assignment_pattern(pattern: &AssignmentPattern, p: &Prettier) -> (doc: Doc)
    ensures
        doc@ == assignment_pattern_doc(*pattern, p@),
    decreases pattern, 3nat,
{
    let mut parts = parts_new();
    parts_push(&mut parts, format_binding_pattern(&pattern.left, p));
    parts_push(&mut parts, text(" = "));
    parts_push(&mut parts, format_operand_at(&pattern.right, Precedence::Assign, p));
    array(parts)
}

pub open spec fn rest_element_doc(element: RestElement, style: Style) -> DocView
    decreases element, 3nat,
{
    DocView::Concat(
        no_parts().push(txt("...")).push(binding_pattern_doc(*element.argument, style)),
    )
}

pub fn format_rest_element(element: &RestElement, p: &Prettier) -> (doc: Doc)
    ensures
        doc@ == rest_element_doc(*element, p@),
    decreases element, 3nat,
{
    let mut parts = parts_new();
    parts_push(&mut parts, text("..."));
    parts_push(&mut parts, format_binding_pattern(&element.argument, p));
    array(parts)
}

/// A directive: its text between quotes, and the end of the statement.
pub open spec fn directive_doc(directive: Directive, style: Style) -> DocView {
    let quote = if style.single_quote {
        txt("'")
    } else {
        txt("\"")
    };
    DocView::Concat(
        with_semi(no_parts().push(quote).push(DocView::Text(directive.directive@)).push(quote), style),
    )
}

pub fn format_directive(directive: &Directive, p: &Prettier) -> (doc: Doc)
    ensures
        doc@ == directive_doc(*directive, p@),
{
    let mut parts = parts_new();
    parts_push(
        &mut parts,
        if p.options.single_quote {
            text("'")
        } else {
            text("\"")
        },
    );
    parts_push(&mut parts, text(directive.directive.as_str()));
    parts_push(
        &mut parts,
        if p.options.single_quote {
            text("'")
        } else {
            text("\"")
        },
    );
    push_semi(&mut parts, p);
    array(parts)
}

/// A program: its directives and statements, one per line, with no line
/// break after the last one; the empty text where it has neither.
pub open spec fn program_doc(program: Program, style: Style) -> DocView {
    match block_body_doc(program.body@, Some(&program.directives), true, style) {
        Some(doc) => doc,
        None => txt(""),
    }
}

pub fn format_program(program: &Program, p: &Prettier) -> (doc: Doc)
    ensures
        doc@ == program_doc(*program, p@),
{
    match print_block_body(p, &program.body, Some(&program.directives), true) {
        Some(doc) => doc,
        None => text(""),
    }
}

pub open spec fn statement_doc(statement: Statement, style: Style) -> DocView
    decreases statement, 0nat,
{
    match statement {
        Statement::BlockStatement(inner) => block_doc(inner.body@, None, false, style),
        Statement::BreakStatement(inner) => break_statement_doc(*inner, style),
        Statement::ContinueStatement(inner) => continue_statement_doc(*inner, style),
        Statement::DebuggerStatement => debugger_statement_doc(style),
        Statement::EmptyStatement => txt(""),
        Statement::ExpressionStatement(inner) => expression_statement_doc(*inner, style),
        Statement::IfStatement(inner) => if_statement_doc(*inner, style),
        Statement::ModuleDeclaration(inner) => module_declaration_doc(*inner, style),
        Statement::ReturnStatement(inner) => return_or_throw_doc(
            match inner.argument {
                Some(argument) => Some(expression_doc(argument, style)),
                None => None,
            },
            true,
            style,
        ),
        Statement::SwitchStatement(inner) => switch_statement_doc(*inner, style),
        Statement::ThrowStatement(inner) => return_or_throw_doc(
            Some(expression_doc(inner.argument, style)),
            false,
            style,
        ),
        Statement::TryStatement(inner) => try_statement_doc(*inner, style),
        Statement::WithStatement(inner) => with_statement_doc(*inner, style),
        Statement::Declaration(inner) => declaration_doc(inner, style),
        Statement::Unsupported => DocView::Text(placeholder_text()),
    }
}

pub fn format_statement(statement: &Statement, p: &Prettier) -> (doc: Doc)
    ensures
        doc@ == statement_doc(*statement, p@),
    decreases statement, 0nat,
{
    match statement {
        Statement::BlockStatement(inner) => print_block(p, &inner.body, None, false),
        Statement::BreakStatement(inner) => format_break_statement(inner, p),
        Statement::ContinueStatement(inner) => format_continue_statement(inner, p),
        Statement::DebuggerStatement => format_debugger_statement(p),
        Statement::EmptyStatement => text(""),
        Statement::ExpressionStatement(inner) => format_expression_statement(inner, p),
        Statement::IfStatement(inner) => format_if_statement(inner, p),
        Statement::ModuleDeclaration(inner) => format_module_declaration(inner, p),
        Statement::ReturnStatement(inner) => {
            let argument = match &inner.argument {
                Some(argument) => Some(format_expression(argument, p)),
                None => None,
            };
            print_return_or_throw_argument(p, argument, true)
        },
        Statement::SwitchStatement(inner) => format_switch_statement(inner, p),
        Statement::ThrowStatement(inner) => print_return_or_throw_argument(
            p,
            Some(format_expression(&inner.argument, p)),
            false,
        ),
        Statement::TryStatement(inner) => format_try_statement(inner, p),
        Statement::WithStatement(inner) => format_with_statement(inner, p),
        Statement::Declaration(inner) => format_declaration(inner, p),
        Statement::Unsupported => placeholder(),
    }
}

/// Whether an expression as a statement would read as something else: a
/// function, a class or an object at the start of a statement opens a
/// declaration or a block.
pub open spec fn misreads_as_statement(expr: Expression) -> bool {
    expr is FunctionExpression || expr is ClassExpression || expr is ObjectExpression
}

/// An expression as a statement: in round brackets where it would read as
/// something else, and with the end of the statement.
pub open spec fn expression_statement_doc(statement: ExpressionStatement, style: Style) -> DocView
    decreases statement, 1nat,
{
    DocView::Concat(
        with_semi(
            no_parts().push(
                if misreads_as_statement(statement.expression) {
                    wrapped(expression_doc(statement.expression, style))
                } else {
                    expression_doc(statement.expression, style)
                },
            ),
            style,
        ),
    )
}

pub fn format_expression_statement(statement: &ExpressionStatement, p: &Prettier) -> (doc: Doc)
    ensures
        doc@ == expression_statement_doc(*statement, p@),
    decreases statement, 1nat,
{
    let mut parts = parts_new();
    let doc = format_expression(&statement.expression, p);
    let misread = matches!(
        &statement.expression,
        Expression::FunctionExpression(_) | Expression::ClassExpression(_)
            | Expression::ObjectExpression(_)
    );
    parts_push(
        &mut parts,
        if misread {
            parenthesize(doc)
        } else {
            doc
        },
    );
    push_semi(&mut parts, p);
    array(parts)
}

/// A statement under `if`, `else` or `with`: a block follows on the same
/// line after a space; any other statement follows after a space where it
/// fits, else on the next line, indented.
pub open spec fn clause_doc(statement: Statement, style: Style) -> DocView
    decreases statement, 1nat,
{
    if statement is BlockStatement {
        DocView::Concat(no_parts().push(txt(" ")).push(statement_doc(statement, style)))
    } else {
        DocView::Group(
            no_parts().push(
                DocView::Indent(no_parts().push(DocView::Line).push(statement_doc(statement, style))),
            ),
        )
    }
}

pub fn format_clause(statement: &Statement, p: &Prettier) -> (doc: Doc)
    ensures
        doc@ == clause_doc(*statement, p@),
    decreases statement, 1nat,
{
    let doc = format_statement(statement, p);
    if matches!(statement, Statement::BlockStatement(_)) {
        let mut parts = parts_new();
        parts_push(&mut parts, text(" "));
        parts_push(&mut parts, doc);
        array(parts)
    } else {
        let mut inner = parts_new();
        parts_push(&mut inner, Doc::Line);
        parts_push(&mut inner, doc);
        let mut parts = parts_new();
        parts_push(&mut parts, indent(inner));
        group(parts)
    }
}

/// What stands between the statement under `if` and the one under `else`:
/// after a block, `else` on the same line; after any other statement,
/// `else` on a line of its own.
pub open spec fn else_word(consequent: Statement) -> DocView {
    if consequent is BlockStatement {
        txt(" else")
    } else {
        DocView::Concat(no_parts().push(DocView::Hardline).push(txt("else")))
    }
}

/// The statement under `else`: another `if` follows on the same line.
pub open spec fn alternate_doc(statement: Statement, style: Style) -> DocView
    decreases statement, 2nat,
{
    if statement is IfStatement {
        DocView::Concat(no_parts().push(txt(" ")).push(statement_doc(statement, style)))
    } else {
        clause_doc(statement, style)
    }
}

/// An `if`: the test between round brackets, as a group that breaks inside
/// the brackets, the statement under it, and the `else` with its statement
/// where there is one.
pub open spec fn if_statement_doc(statement: IfStatement, style: Style) -> DocView
    decreases statement, 3nat,
{
    let opening = DocView::Group(
        no_parts().push(txt("if (")).push(
            DocView::Group(
                no_parts().push(
                    DocView::Indent(
                        no_parts().push(DocView::Softline).push(
                            expression_doc(statement.test, style),
                        ),
                    ),
                ).push(DocView::Softline),
            ),
        ).push(txt(")")).push(clause_doc(statement.consequent, style)),
    );
    DocView::Concat(
        match statement.alternate {
            Some(alternate) => no_parts().push(opening).push(else_word(statement.consequent)).push(
                alternate_doc(alternate, style),
            ),
            None => no_parts().push(opening),
        },
    )
}

pub fn format_if_statement(statement: &IfStatement, p: &Prettier) -> (doc: Doc)
    ensures
        doc@ == if_statement_doc(*statement, p@),
    decreases statement, 3nat,
{
    let mut test_inner = parts_new();
    parts_push(&mut test_inner, Doc::Softline);
    parts_push(&mut test_inner, format_expression(&statement.test, p));
    let mut test = parts_new();
    parts_push(&mut test, indent(test_inner));
    parts_push(&mut test, Doc::Softline);
    let mut opening = parts_new();
    parts_push(&mut opening, text("if ("));
    parts_push(&mut opening, group(test));
    parts_push(&mut opening, text(")"));
    parts_push(&mut opening, format_clause(&statement.consequent, p));
    let mut parts = parts_new();
    parts_push(&mut parts, group(opening));
    match &statement.alternate {
        Some(alternate) => {
            if matches!(&statement.consequent, Statement::BlockStatement(_)) {
                parts_push(&mut parts, text(" else"));
            } else {
                let mut word = parts_new();
                parts_push(&mut word, Doc::Hardline);
                parts_push(&mut word, text("else"));
                parts_push(&mut parts, array(word));
            }
            if matches!(alternate, Statement::IfStatement(_)) {
                let mut inner = parts_new();
                parts_push(&mut inner, text(" "));
                parts_push(&mut inner, format_statement(alternate, p));
                parts_push(&mut parts, array(inner));
            } else {
                parts_push(&mut parts, format_clause(alternate, p));
            }
        },
        None => {},
    }
    array(parts)
}

/// A jump: the word, the label after a space where there is one, and the
/// end of the statement.
pub open spec fn jump_doc(word: DocView, label: Option<LabelIdentifier>, style: Style) -> DocView {
    let parts = no_parts().push(word);
    let parts = match label {
        Some(label) => parts.push(txt(" ")).push(label_identifier_doc(label)),
        None => parts,
    };
    DocView::Concat(with_semi(parts, style))
}

pub fn format_jump(word: &str, label: &Option<LabelIdentifier>, p: &Prettier) -> (doc: Doc)
    ensures
        doc@ == jump_doc(txt(word), *label, p@),
{
    let mut parts = parts_new();
    parts_push(&mut parts, text(word));
    match label {
        Some(label) => {
            parts_push(&mut parts, text(" "));
            parts_push(&mut parts, format_label_identifier(label));
        },
        None => {},
    }
    push_semi(&mut parts, p);
    array(parts)
}

pub open spec fn continue_statement_doc(statement: ContinueStatement, style: Style) -> DocView {
    jump_doc(txt("continue"), statement.label, style)
}

pub fn format_continue_statement(statement: &ContinueStatement, p: &Prettier) -> (doc: Doc)
    ensures
        doc@ == continue_statement_doc(*statement, p@),
{
    format_jump("continue", &statement.label, p)
}

pub open spec fn break_statement_doc(statement: BreakStatement, style: Style) -> DocView {
    jump_doc(txt("break"), statement.label, style)
}

pub fn format_break_statement(statement: &BreakStatement, p: &Prettier) -> (doc: Doc)
    ensures
        doc@ == break_statement_doc(*statement, p@),
{
    format_jump("break", &statement.label, p)
}

pub open spec fn debugger_statement_doc(style: Style) -> DocView {
    DocView::Concat(with_semi(no_parts().push(txt("debugger")), style))
}

pub fn format_debugger_statement(p: &Prettier) -> (doc: Doc)
    ensures
        doc@ == debugger_statement_doc(p@),
{
    let mut parts = parts_new();
    parts_push(&mut parts, text("debugger"));
    push_semi(&mut parts, p);
    array(parts)
}

/// The statements of a case: nothing where none is kept, else the kept
/// statements on the lines after the label, indented.
pub open spec fn case_body(consequent: Seq<Statement>, style: Style) -> Seq<DocView>
    decreases consequent, consequent.len() + 3,
{
    if statement_sequence(consequent, false, style).len() == 0 {
        no_parts()
    } else {
        no_parts().push(
            DocView::Indent(
                no_parts().push(DocView::Hardline).push(
                    DocView::Concat(statement_sequence(consequent, false, style)),
                ),
            ),
        )
    }
}

/// A case of a `switch`: `case` and the test, or `default`, a colon, and
/// the statements.
pub open spec fn switch_case_doc(case: SwitchCase, style: Style) -> DocView
    decreases case, 0nat,
{
    let label = match case.test {
        Some(test) => no_parts().push(txt("case ")).push(expression_doc(test, style)).push(
            txt(":"),
        ),
        None => no_parts().push(txt("default:")),
    };
    DocView::Concat(label + case_body(case.consequent@, style))
}

pub fn format_switch_case(case: &SwitchCase, p: &Prettier) -> (doc: Doc)
    ensures
        doc@ == switch_case_doc(*case, p@),
    decreases case, 0nat,
{
    let mut parts = parts_new();
    match &case.test {
        Some(test) => {
            parts_push(&mut parts, text("case "));
            parts_push(&mut parts, format_expression(test, p));
            parts_push(&mut parts, text(":"));
        },
        None => {
            parts_push(&mut parts, text("default:"));
        },
    }
    let ghost label = views(parts@);
    let body = print_statement_sequence(p, &case.consequent, true);
    if body.len() > 0 {
        let mut inner = parts_new();
        parts_push(&mut inner, Doc::Hardline);
        parts_push(&mut inner, array(body));
        parts_push(&mut parts, indent(inner));
    }
    assert(views(parts@) =~= label + case_body(case.consequent@, p@));
    array(parts)
}

pub open spec fn switch_case_docs(cases: Seq<SwitchCase>, style: Style) -> Seq<DocView>
    decreases cases, 0nat,
{
    Seq::new(
        cases.len(),
        |i: int|
            if 0 <= i < cases.len() {
                switch_case_doc(cases[i], style)
            } else {
                DocView::Line
            },
    )
}

/// A `switch`: the discriminant between round brackets, as a group that
/// breaks inside the brackets, and the cases one per line between curly
/// brackets, indented.
pub open spec fn switch_statement_doc(statement: SwitchStatement, style: Style) -> DocView
    decreases statement, 1nat,
{
    let header = DocView::Group(
        no_parts().push(txt("switch (")).push(
            DocView::Indent(
                no_parts().push(DocView::Softline).push(
                    expression_doc(statement.discriminant, style),
                ),
            ),
        ).push(DocView::Softline).push(txt(")")),
    );
    let parts = no_parts().push(header).push(txt(" {"));
    let parts = if statement.cases@.len() == 0 {
        parts
    } else {
        parts.push(
            DocView::Indent(
                no_parts().push(DocView::Hardline).push(
                    DocView::Concat(
                        joined(DocView::Hardline, switch_case_docs(statement.cases@, style)),
                    ),
                ),
            ),
        )
    };
    DocView::Concat(parts.push(DocView::Hardline).push(txt("}")))
}

pub fn format_switch_statement(statement: &SwitchStatement, p: &Prettier) -> (doc: Doc)
    ensures
        doc@ == switch_statement_doc(*statement, p@),
    decreases statement, 1nat,
{
    let mut discriminant = parts_new();
    parts_push(&mut discriminant, Doc::Softline);
    parts_push(&mut discriminant, format_expression(&statement.discriminant, p));
    let mut header = parts_new();
    parts_push(&mut header, text("switch ("));
    parts_push(&mut header, indent(discriminant));
    parts_push(&mut header, Doc::Softline);
    parts_push(&mut header, text(")"));
    let mut parts = parts_new();
    parts_push(&mut parts, group(header));
    parts_push(&mut parts, text(" {"));
    if statement.cases.len() > 0 {
        let mut docs = parts_new();
        let mut i: usize = 0;
        while i < statement.cases.len()
            invariant
                i <= statement.cases.len(),
                views(docs@) == switch_case_docs(statement.cases@, p@).take(i as int),
            decreases statement.cases.len() - i,
        {
            let doc = format_switch_case(&statement.cases[i], p);
            parts_push(&mut docs, doc);
            i += 1;
            assert(views(docs@) =~= switch_case_docs(statement.cases@, p@).take(i as int));
        }
        assert(switch_case_docs(statement.cases@, p@).take(statement.cases.len() as int)
            =~= switch_case_docs(statement.cases@, p@));
        let mut inner = parts_new();
        parts_push(&mut inner, Doc::Hardline);
        parts_push(&mut inner, array(join(Separator::Hardline, docs)));
        parts_push(&mut parts, indent(inner));
    }
    parts_push(&mut parts, Doc::Hardline);
    parts_push(&mut parts, text("}"));
    array(parts)
}

/// A `catch`: its parameter between round brackets where it has one, and
/// its block.
pub open spec fn catch_clause_doc(clause: CatchClause, style: Style) -> DocView
    decreases clause, 0nat,
{
    let parts = no_parts().push(txt("catch "));
    let parts = match clause.param {
        Some(param) => parts.push(txt("(")).push(binding_pattern_doc(param, style)).push(
            txt(") "),
        ),
        None => parts,
    };
    DocView::Concat(parts.push(block_doc(clause.body.body@, None, false, style)))
}

pub fn format_catch_clause(clause: &CatchClause, p: &Prettier) -> (doc: Doc)
    ensures
        doc@ == catch_clause_doc(*clause, p@),
    decreases clause, 0nat,
{
    let mut parts = parts_new();
    parts_push(&mut parts, text("catch "));
    match &clause.param {
        Some(param) => {
            parts_push(&mut parts, text("("));
            parts_push(&mut parts, format_binding_pattern(param, p));
            parts_push(&mut parts, text(") "));
        },
        None => {},
    }
    parts_push(&mut parts, print_block(p, &clause.body.body, None, false));
    array(parts)
}

/// A `try`: its block, the `catch` where it has one, and `finally` with
/// its block where it has one.
pub open spec fn try_statement_doc(statement: TryStatement, style: Style) -> DocView
    decreases statement, 1nat,
{
    let parts = no_parts().push(txt("try ")).push(
        block_doc(statement.block.body@, None, false, style),
    );
    let parts = match statement.handler {
        Some(handler) => parts.push(txt(" ")).push(catch_clause_doc(handler, style)),
        None => parts,
    };
    DocView::Concat(
        match statement.finalizer {
            Some(finalizer) => parts.push(txt(" finally ")).push(
                block_doc(finalizer.body@, None, false, style),
            ),
            None => parts,
        },
    )
}

pub fn format_try_statement(statement: &TryStatement, p: &Prettier) -> (doc: Doc)
    ensures
        doc@ == try_statement_doc(*statement, p@),
    decreases statement, 1nat,
{
    let mut parts = parts_new();
    parts_push(&mut parts, text("try "));
    parts_push(&mut parts, print_block(p, &statement.block.body, None, false));
    match &statement.handler {
        Some(handler) => {
            parts_push(&mut parts, text(" "));
            parts_push(&mut parts, format_catch_clause(handler, p));
        },
        None => {},
    }
    match &statement.finalizer {
        Some(finalizer) => {
            parts_push(&mut parts, text(" finally "));
            parts_push(&mut parts, print_block(p, &finalizer.body, None, false));
        },
        None => {},
    }
    array(parts)
}

/// A `with`: the object between round brackets and the statement under it.
pub open spec fn with_statement_doc(statement: WithStatement, style: Style) -> DocView
    decreases statement, 2nat,
{
    DocView::Concat(
        no_parts().push(txt("with (")).push(expression_doc(statement.object, style)).push(
            txt(")"),
        ).push(clause_doc(statement.body, style)),
    )
}

pub fn format_with_statement(statement: &WithStatement, p: &Prettier) -> (doc: Doc)
    ensures
        doc@ == with_statement_doc(*statement, p@),
    decreases statement, 2nat,
{
    let mut parts = parts_new();
    parts_push(&mut parts, text("with ("));
    parts_push(&mut parts, format_expression(&statement.object, p));
    parts_push(&mut parts, text(")"));
    parts_push(&mut parts, format_clause(&statement.body, p));
    array(parts)
}

pub open spec fn declaration_doc(declaration: Declaration, style: Style) -> DocView
    decreases declaration, 0nat,
{
    match declaration {
        Declaration::VariableDeclaration(inner) => variable_declaration_doc(*inner, style),
        Declaration::FunctionDeclaration(inner) => function_doc(*inner, style),
        Declaration::ClassDeclaration(inner) => class_doc(*inner, style),
        Declaration::Unsupported => DocView::Text(placeholder_text()),
    }
}

pub fn format_declaration(declaration: &Declaration, p: &Prettier) -> (doc: Doc)
    ensures
        doc@ == declaration_doc(*declaration, p@),
    decreases declaration, 0nat,
{
    match declaration {
        Declaration::VariableDeclaration(inner) => format_variable_declaration(inner, p),
        Declaration::FunctionDeclaration(inner) => print_function(p, inner),
        Declaration::ClassDeclaration(inner) => print_class(p, inner),
        Declaration::Unsupported => placeholder(),
    }
}

impl VariableDeclarationKind {
    /// The word that opens the declaration.
    pub open spec fn text(self) -> Seq<char> {
        match self {
            VariableDeclarationKind::Var => "var"@,
            VariableDeclarationKind::Const => "const"@,
            VariableDeclarationKind::Let => "let"@,
        }
    }

    /// The word that opens the declaration.
    pub fn as_str(&self) -> (text: &'static str)
        ensures
            text@ == self.text(),
    {
        match self {
            VariableDeclarationKind::Var => "var",
            VariableDeclarationKind::Const => "const",
            VariableDeclarationKind::Let => "let",
        }
    }
}

/// A declarator: the pattern, and `=` with the value where it has one.
pub open spec fn variable_declarator_doc(declarator: VariableDeclarator, style: Style) -> DocView
    decreases declarator, 3nat,
{
    let parts = no_parts().push(binding_pattern_doc(declarator.id, style));
    DocView::Concat(
        match declarator.init {
            Some(init) => parts.push(txt(" = ")).push(
                operand_at(init, Precedence::Assign, style),
            ),
            None => parts,
        },
    )
}

pub fn format_variable_declarator(declarator: &VariableDeclarator, p: &Prettier) -> (doc: Doc)
    ensures
        doc@ == variable_declarator_doc(*declarator, p@),
    decreases declarator, 3nat,
{
    let mut parts = parts_new();
    parts_push(&mut parts, format_binding_pattern(&declarator.id, p));
    match &declarator.init {
        Some(init) => {
            parts_push(&mut parts, text(" = "));
            parts_push(&mut parts, format_operand_at(init, Precedence::Assign, p));
        },
        None => {},
    }
    array(parts)
}

pub open spec fn variable_declarator_docs(declarators: Seq<VariableDeclarator>, style: Style) -> Seq<
    DocView,
>
    decreases declarators, 0nat,
{
    Seq::new(
        declarators.len(),
        |i: int|
            if 0 <= i < declarators.len() {
                variable_declarator_doc(declarators[i], style)
            } else {
                DocView::Line
            },
    )
}

/// What follows the first declarator: for each further declarator a comma,
/// an optional break and the declarator.
pub open spec fn further_declarators(docs: Seq<DocView>) -> Seq<DocView> {
    if docs.len() <= 1 {
        no_parts()
    } else {
        no_parts().push(Separator::CommaLine.doc_spec()) + joined(
            Separator::CommaLine.doc_spec(),
            docs.subrange(1, docs.len() as int),
        )
    }
}

/// A variable declaration, as one group: the word, the first declarator,
/// the further declarators, indented where they break, and the end of the
/// statement.
pub open spec fn variable_declaration_doc(declaration: VariableDeclaration, style: Style) -> DocView
    decreases declaration, 1nat,
{
    let docs = variable_declarator_docs(declaration.declarations@, style);
    let parts = no_parts().push(DocView::Text(declaration.kind.text())).push(txt(" "));
    let parts = if docs.len() > 0 {
        parts.push(docs[0])
    } else {
        parts
    };
    DocView::Group(with_semi(parts.push(DocView::Indent(further_declarators(docs))), style))
}

pub fn format_variable_declaration(declaration: &VariableDeclaration, p: &Prettier) -> (doc:
    Doc)
    ensures
        doc@ == variable_declaration_doc(*declaration, p@),
    decreases declaration, 1nat,
{
    let mut docs = parts_new();
    let mut i: usize = 0;
    while i < declaration.declarations.len()
        invariant
            i <= declaration.declarations.len(),
            views(docs@) == variable_declarator_docs(declaration.declarations@, p@).take(i as int),
        decreases declaration.declarations.len() - i,
    {
        let doc = format_variable_declarator(&declaration.declarations[i], p);
        parts_push(&mut docs, doc);
        i += 1;
        assert(views(docs@) =~= variable_declarator_docs(declaration.declarations@, p@).take(
            i as int,
        ));
    }
    assert(variable_declarator_docs(declaration.declarations@, p@).take(
        declaration.declarations.len() as int,
    ) =~= variable_declarator_docs(declaration.declarations@, p@));
    let ghost all = views(docs@);
    let mut parts = parts_new();
    parts_push(&mut parts, text(declaration.kind.as_str()));
    parts_push(&mut parts, text(" "));
    let mut further = parts_new();
    if docs.len() > 0 {
        let first = docs.remove(0);
        assert(views(docs@) =~= all.subrange(1, all.len() as int));
        parts_push(&mut parts, first);
        if docs.len() > 0 {
            parts_push(&mut further, Separator::CommaLine.doc());
            parts_extend(&mut further, join(Separator::CommaLine, docs));
        }
    }
    parts_push(&mut parts, indent(further));
    push_semi(&mut parts, p);
    group(parts)
}

} // verus!
