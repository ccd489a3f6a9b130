//! Classes.

use vstd::prelude::*;
use crate::ast::{Class, ClassBody, ClassElement};
use crate::doc::{
    Doc, DocView, Separator, array, indent, join, joined, no_parts, parts_new, parts_push, text,
    txt, views,
};
use crate::format::block::{block_doc, print_block};
use crate::format::literal::{placeholder, placeholder_text};
use crate::format::{
    binding_identifier_doc, format_binding_identifier, format_operand_at, operand_at,
};
use crate::operator::Precedence;
use crate::session::{Prettier, Style};

verus! {

pub open spec fn class_element_doc(element: ClassElement, style: Style) -> DocView
    decreases element, 0nat,
{
    match element {
        ClassElement::StaticBlock(inner) => block_doc(inner.body@, None, true, style),
        ClassElement::Unsupported => DocView::Text(placeholder_text()),
    }
}

pub fn format_class_element(element: &ClassElement, p: &Prettier) -> (doc: Doc)
    ensures
        doc@ == class_element_doc(*element, p@),
    decreases element, 0nat,
{
    match element {
        ClassElement::StaticBlock(inner) => print_block(p, &inner.body, None, true),
        ClassElement::Unsupported => placeholder(),
    }
}

pub open spec fn class_element_docs(elements: Seq<ClassElement>, style: Style) -> Seq<DocView>
    decreases elements, 0nat,
{
    Seq::new(
        elements.len(),
        |i: int|
            if 0 <= i < elements.len() {
                class_element_doc(elements[i], style)
            } else {
                DocView::Line
            },
    )
}

/// The body of a class: the brackets alone where it has no element, else
/// the elements one per line between them, indented.
pub open spec fn class_body_doc(body: ClassBody, style: Style) -> DocView
    decreases body, 0nat,
{
    if body.body@.len() == 0 {
        txt("{}")
    } else {
        DocView::Concat(
            no_parts().push(txt("{")).push(
                DocView::Indent(
                    no_parts().push(DocView::Hardline).push(
                        DocView::Concat(
                            joined(DocView::Hardline, class_element_docs(body.body@, style)),
                        ),
                    ),
                ),
            ).push(DocView::Hardline).push(txt("}")),
        )
    }
}

pub fn format_class_body(body: &ClassBody, p: &Prettier) -> (doc: Doc)
    ensures
        doc@ == class_body_doc(*body, p@),
    decreases body, 0nat,
{
    if body.body.len() == 0 {
        return text("{}");
    }
    let mut docs = parts_new();
    let mut i: usize = 0;
    while i < body.body.len()
        invariant
            i <= body.body.len(),
            views(docs@) == class_element_docs(body.body@, p@).take(i as int),
        decreases body.body.len() - i,
    {
        let doc = format_class_element(&body.body[i], p);
        parts_push(&mut docs, doc);
        i += 1;
        assert(views(docs@) =~= class_element_docs(body.body@, p@).take(i as int));
    }
    assert(class_element_docs(body.body@, p@).take(body.body.len() as int) =~= class_element_docs(
        body.body@,
        p@,
    ));
    let mut inner = parts_new();
    parts_push(&mut inner, Doc::Hardline);
    parts_push(&mut inner, array(join(Separator::Hardline, docs)));
    let mut parts = parts_new();
    parts_push(&mut parts, text("{"));
    parts_push(&mut parts, indent(inner));
    parts_push(&mut parts, Doc::Hardline);
    parts_push(&mut parts, text("}"));
    array(parts)
}

/// A class: `class`, its name, the class that it extends, and its body.
pub open spec fn class_doc(class: Class, style: Style) -> DocView
    decreases class, 1nat,
{
    let parts = no_parts().push(txt("class"));
    let parts = match class.id {
        Some(id) => parts.push(txt(" ")).push(binding_identifier_doc(id)),
        None => parts,
    };
    let parts = match class.super_class {
        Some(base) => parts.push(txt(" extends ")).push(
            operand_at(base, Precedence::Call, style),
        ),
        None => parts,
    };
    DocView::Concat(parts.push(txt(" ")).push(class_body_doc(class.body, style)))
}

pub fn print_class(p: &Prettier, class: &Class) -> (doc: Doc)
    ensures
        doc@ == class_doc(*class, p@),
    decreases class, 1nat,
{
    let mut parts = parts_new();
    parts_push(&mut parts, text("class"));
    match &class.id {
        Some(id) => {
            parts_push(&mut parts, text(" "));
            parts_push(&mut parts, format_binding_identifier(id));
        },
        None => {},
    }
    match &class.super_class {
        Some(base) => {
            parts_push(&mut parts, text(" extends "));
            parts_push(&mut parts, format_operand_at(base, Precedence::Call, p));
        },
        None => {},
    }
    parts_push(&mut parts, text(" "));
    parts_push(&mut parts, format_class_body(&class.body, p));
    array(parts)
}

} // verus!
