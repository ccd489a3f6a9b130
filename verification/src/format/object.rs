//! Object literals and object patterns.

use vstd::prelude::*;
use crate::ast::{
    BindingProperty, ObjectExpression, ObjectPattern, ObjectProperty, ObjectPropertyKind,
};
use crate::doc::{Doc, DocView, group, no_parts, parts_new, parts_push, text, txt, views};
use crate::format::list::{Padding, bracketed, bracketed_doc};
use crate::format::{
    binding_pattern_doc, format_binding_pattern, format_operand_at, format_property_key,
    format_rest_element, format_spread_element, operand_at, property_key_doc, rest_element_doc,
    spread_element_doc,
};
use crate::operator::Precedence;
use crate::session::{Prettier, Style};

verus! {

/// The properties of an object between curly brackets, with a space inside
/// the brackets where they are on one line.
pub open spec fn object_properties_doc(properties: Seq<DocView>, trailing_comma: bool) -> DocView {
    bracketed_doc("{"@, "}"@, Padding::Spaced, properties, trailing_comma)
}

/// The properties of an object between curly brackets.
pub fn print_object_properties(properties: Vec<Doc>, trailing_comma: bool) -> (doc: Doc)
    ensures
        doc@ == object_properties_doc(views(properties@), trailing_comma),
{
    bracketed("{", "}", Padding::Spaced, properties, trailing_comma)
}

/// A property: its key alone where it is a shorthand, else the key, a
/// colon and the value, as one group.
pub open spec fn object_property_doc(property: ObjectProperty, style: Style) -> DocView
    decreases property, 3nat,
{
    if property.shorthand {
        property_key_doc(property.key, property.computed, style)
    } else {
        DocView::Group(
            no_parts().push(property_key_doc(property.key, property.computed, style)).push(
                txt(": "),
            ).push(operand_at(property.value, Precedence::Assign, style)),
        )
    }
}

pub fn format_object_property(property: &ObjectProperty, p: &Prettier) -> (doc: Doc)
    ensures
        doc@ == object_property_doc(*property, p@),
    decreases property, 3nat,
{
    if property.shorthand {
        format_property_key(&property.key, property.computed, p)
    } else {
        let mut parts = parts_new();
        parts_push(&mut parts, format_property_key(&property.key, property.computed, p));
        parts_push(&mut parts, text(": "));
        parts_push(&mut parts, format_operand_at(&property.value, Precedence::Assign, p));
        group(parts)
    }
}

pub open spec fn object_property_kind_doc(property: ObjectPropertyKind, style: Style) -> DocView
    decreases property, 4nat,
{
    match property {
        ObjectPropertyKind::ObjectProperty(inner) => object_property_doc(inner, style),
        ObjectPropertyKind::SpreadProperty(inner) => spread_element_doc(inner, style),
    }
}

pub fn format_object_property_kind(property: &ObjectPropertyKind, p: &Prettier) -> (doc: Doc)
    ensures
        doc@ == object_property_kind_doc(*property, p@),
    decreases property, 4nat,
{
    match property {
        ObjectPropertyKind::ObjectProperty(inner) => format_object_property(inner, p),
        ObjectPropertyKind::SpreadProperty(inner) => format_spread_element(inner, p),
    }
}

pub open spec fn object_property_docs(properties: Seq<ObjectPropertyKind>, style: Style) -> Seq<
    DocView,
>
    decreases properties, 0nat,
{
    Seq::new(
        properties.len(),
        |i: int|
            if 0 <= i < properties.len() {
                object_property_kind_doc(properties[i], style)
            } else {
                DocView::Line
            },
    )
}

pub open spec fn object_expression_doc(expr: ObjectExpression, style: Style) -> DocView
    decreases expr, 0nat,
{
    object_properties_doc(object_property_docs(expr.properties@, style), true)
}

pub fn format_object_expression(expr: &ObjectExpression, p: &Prettier) -> (doc: Doc)
    ensures
        doc@ == object_expression_doc(*expr, p@),
    decreases expr, 0nat,
{
    let mut docs = parts_new();
    let mut i: usize = 0;
    while i < expr.properties.len()
        invariant
            i <= expr.properties.len(),
            views(docs@) == object_property_docs(expr.properties@, p@).take(i as int),
        decreases expr.properties.len() - i,
    {
        let doc = format_object_property_kind(&expr.properties[i], p);
        parts_push(&mut docs, doc);
        i += 1;
        assert(views(docs@) =~= object_property_docs(expr.properties@, p@).take(i as int));
    }
    assert(object_property_docs(expr.properties@, p@).take(expr.properties.len() as int)
        =~= object_property_docs(expr.properties@, p@));
    print_object_properties(docs, true)
}

/// A property of a pattern: the pattern alone where it is a shorthand,
/// else the key, a colon and the pattern, as one group.
pub open spec fn binding_property_doc(property: BindingProperty, style: Style) -> DocView
    decreases property, 3nat,
{
    if property.shorthand {
        binding_pattern_doc(property.value, style)
    } else {
        DocView::Group(
            no_parts().push(property_key_doc(property.key, property.computed, style)).push(
                txt(": "),
            ).push(binding_pattern_doc(property.value, style)),
        )
    }
}

pub fn format_binding_property(property: &BindingProperty, p: &Prettier) -> (doc: Doc)
    ensures
        doc@ == binding_property_doc(*property, p@),
    decreases property, 3nat,
{
    if property.shorthand {
        format_binding_pattern(&property.value, p)
    } else {
        let mut parts = parts_new();
        parts_push(&mut parts, format_property_key(&property.key, property.computed, p));
        parts_push(&mut parts, text(": "));
        parts_push(&mut parts, format_binding_pattern(&property.value, p));
        group(parts)
    }
}

pub open spec fn binding_property_docs(properties: Seq<BindingProperty>, style: Style) -> Seq<
    DocView,
>
    decreases properties, 0nat,
{
    Seq::new(
        properties.len(),
        |i: int|
            if 0 <= i < properties.len() {
                binding_property_doc(properties[i], style)
            } else {
                DocView::Line
            },
    )
}

/// An object pattern: its properties, then its rest element where it has
/// one, after which no comma is written.
pub open spec fn object_pattern_doc(pattern: ObjectPattern, style: Style) -> DocView
    decreases pattern, 1nat,
{
    match pattern.rest {
        Some(rest) => object_properties_doc(
            binding_property_docs(pattern.properties@, style).push(rest_element_doc(rest, style)),
            false,
        ),
        None => object_properties_doc(binding_property_docs(pattern.properties@, style), true),
    }
}

pub fn format_object_pattern(pattern: &ObjectPattern, p: &Prettier) -> (doc: Doc)
    ensures
        doc@ == object_pattern_doc(*pattern, p@),
    decreases pattern, 1nat,
{
    let mut docs = parts_new();
    let mut i: usize = 0;
    while i < pattern.properties.len()
        invariant
            i <= pattern.properties.len(),
            views(docs@) == binding_property_docs(pattern.properties@, p@).take(i as int),
        decreases pattern.properties.len() - i,
    {
        let doc = format_binding_property(&pattern.properties[i], p);
        parts_push(&mut docs, doc);
        i += 1;
        assert(views(docs@) =~= binding_property_docs(pattern.properties@, p@).take(i as int));
    }
    assert(binding_property_docs(pattern.properties@, p@).take(pattern.properties.len() as int)
        =~= binding_property_docs(pattern.properties@, p@));
    match &pattern.rest {
        Some(rest) => {
            parts_push(&mut docs, format_rest_element(rest, p));
            print_object_properties(docs, false)
        },
        None => print_object_properties(docs, true),
    }
}

} // verus!
