//! Sequences of statements and of directives.

use vstd::prelude::*;
use crate::ast::{Directive, Statement};
use crate::doc::{Doc, DocView, Separator, join, joined, no_parts, parts_new, parts_push, views};
use crate::format::{directive_doc, format_directive, format_statement, statement_doc};
use crate::session::{Prettier, Style};

verus! {

/// The documents of the statements among `statements[..upto]` that are not
/// empty, in order.
pub open spec fn kept_docs(statements: Seq<Statement>, upto: int, style: Style) -> Seq<DocView>
    decreases statements, upto,
{
    if 0 < upto <= statements.len() {
        if statements[upto - 1] is EmptyStatement {
            kept_docs(statements, upto - 1, style)
        } else {
            kept_docs(statements, upto - 1, style).push(
                statement_doc(statements[upto - 1], style),
            )
        }
    } else {
        no_parts()
    }
}

/// `docs`, one per line; with a forced break after the last one too where
/// `trailing` asks for it and there is a last one.
pub open spec fn lines_of(docs: Seq<DocView>, trailing: bool) -> Seq<DocView> {
    if trailing && docs.len() > 0 {
        joined(DocView::Hardline, docs).push(DocView::Hardline)
    } else {
        joined(DocView::Hardline, docs)
    }
}

/// Puts `docs` one per line.
pub fn lines(docs: Vec<Doc>, trailing: bool) -> (parts: Vec<Doc>)
    ensures
        views(parts@) == lines_of(views(docs@), trailing),
{
    let any = docs.len() > 0;
    let mut parts = join(Separator::Hardline, docs);
    if trailing && any {
        parts_push(&mut parts, Doc::Hardline);
    }
    parts
}

/// A sequence of statements: those that are not empty, one per line.
pub open spec fn statement_sequence(statements: Seq<Statement>, trailing: bool, style: Style) -> Seq<
    DocView,
>
    decreases statements, statements.len() + 1,
{
    lines_of(kept_docs(statements, statements.len() as int, style), trailing)
}

/// The documents of the statements that are not empty, in order.
pub fn format_kept(statements: &Vec<Statement>, p: &Prettier) -> (docs: Vec<Doc>)
    ensures
        views(docs@) == kept_docs(statements@, statements@.len() as int, p@),
    decreases statements, statements.len() + 1,
{
    let mut docs = parts_new();
    let mut i: usize = 0;
    while i < statements.len()
        invariant
            i <= statements.len(),
            views(docs@) == kept_docs(statements@, i as int, p@),
        decreases statements.len() - i,
    {
        match &statements[i] {
            Statement::EmptyStatement => {},
            statement => {
                let doc = format_statement(statement, p);
                parts_push(&mut docs, doc);
            },
        }
        i += 1;
    }
    docs
}

/// A sequence of statements: those that are not empty, one per line; with
/// a forced break after the last one too unless it is to be removed.
pub fn print_statement_sequence(
    p: &Prettier,
    statements: &Vec<Statement>,
    remove_last_statement_hardline: bool,
) -> (parts: Vec<Doc>)
    ensures
        views(parts@) == statement_sequence(statements@, !remove_last_statement_hardline, p@),
    decreases statements, statements.len() + 2,
{
    lines(format_kept(statements, p), !remove_last_statement_hardline)
}

pub open spec fn directive_docs(directives: Seq<Directive>, style: Style) -> Seq<DocView> {
    Seq::new(directives.len(), |i: int| directive_doc(directives[i], style))
}

/// A sequence of directives, one per line.
pub open spec fn directive_sequence(directives: Seq<Directive>, trailing: bool, style: Style) -> Seq<
    DocView,
> {
    lines_of(directive_docs(directives, style), trailing)
}

/// A sequence of directives, one per line.
pub fn print_directive_sequence(p: &Prettier, directives: &Vec<Directive>, trailing: bool) -> (parts:
    Vec<Doc>)
    ensures
        views(parts@) == directive_sequence(directives@, trailing, p@),
{
    let mut docs = parts_new();
    let mut i: usize = 0;
    while i < directives.len()
        invariant
            i <= directives.len(),
            views(docs@) == directive_docs(directives@, p@).take(i as int),
        decreases directives.len() - i,
    {
        let doc = format_directive(&directives[i], p);
        parts_push(&mut docs, doc);
        i += 1;
        assert(views(docs@) =~= directive_docs(directives@, p@).take(i as int));
    }
    assert(directive_docs(directives@, p@).take(directives.len() as int) =~= directive_docs(
        directives@,
        p@,
    ));
    lines(docs, trailing)
}

} // verus!
