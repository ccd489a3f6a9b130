//! Blocks: statements between curly brackets.

use vstd::prelude::*;
use crate::ast::{Directive, Statement};
use crate::doc::{
    Doc, DocView, array, indent, no_parts, parts_extend, parts_new, parts_push, text, txt, views,
};
use crate::format::statement::{
    directive_sequence, format_kept, kept_docs, lines, print_directive_sequence,
    statement_sequence,
};
use crate::session::{Prettier, Style};

verus! {

/// Whether there are directives to print.
pub open spec fn has_directives(directives: Option<&Vec<Directive>>) -> bool {
    match directives {
        Some(list) => list@.len() > 0,
        None => false,
    }
}

/// The directives to print.
pub open spec fn directives_of(directives: Option<&Vec<Directive>>) -> Seq<Directive> {
    match directives {
        Some(list) => list@,
        None => Seq::empty(),
    }
}

/// The body of a block: the directives, then the statements that are not
/// empty, one per line; nothing where there is neither. After the last
/// line stands a forced break unless it is to be removed.
pub open spec fn block_body_doc(
    statements: Seq<Statement>,
    directives: Option<&Vec<Directive>>,
    remove_last_statement_hardline: bool,
    style: Style,
) -> Option<DocView>
    decreases statements, statements.len() + 3,
{
    let has_body = kept_docs(statements, statements.len() as int, style).len() > 0;
    if !has_body && !has_directives(directives) {
        None
    } else {
        Some(
            DocView::Concat(
                directive_sequence(
                    directives_of(directives),
                    has_body || !remove_last_statement_hardline,
                    style,
                ) + statement_sequence(statements, !remove_last_statement_hardline, style),
            ),
        )
    }
}

pub fn print_block_body(
    p: &Prettier,
    statements: &Vec<Statement>,
    directives: Option<&Vec<Directive>>,
    remove_last_statement_hardline: bool,
) -> (doc: Option<Doc>)
    ensures
        match doc {
            Some(doc) => block_body_doc(
                statements@,
                directives,
                remove_last_statement_hardline,
                p@,
            ) == Some(doc@),
            None => block_body_doc(statements@, directives, remove_last_statement_hardline, p@)
                is None,
        },
    decreases statements, statements.len() + 3,
{
    let kept = format_kept(statements, p);
    let has_body = kept.len() > 0;
    let has_directives = match directives {
        Some(list) => list.len() > 0,
        None => false,
    };
    if !has_body && !has_directives {
        return None;
    }
    let mut parts = parts_new();
    match directives {
        Some(list) => {
            parts_extend(
                &mut parts,
                print_directive_sequence(p, list, has_body || !remove_last_statement_hardline),
            );
        },
        None => {
            assert(directive_sequence(
                Seq::empty(),
                has_body || !remove_last_statement_hardline,
                p@,
            ) =~= no_parts());
        },
    }
    parts_extend(&mut parts, lines(kept, !remove_last_statement_hardline));
    assert(views(parts@) =~= directive_sequence(
        directives_of(directives),
        has_body || !remove_last_statement_hardline,
        p@,
    ) + statement_sequence(statements@, !remove_last_statement_hardline, p@));
    Some(array(parts))
}

/// A block: the brackets alone where its body is nothing, else the body
/// on lines of its own between them, indented.
pub open spec fn block_doc(
    statements: Seq<Statement>,
    directives: Option<&Vec<Directive>>,
    is_static_block: bool,
    style: Style,
) -> DocView
    decreases statements, statements.len() + 4,
{
    let parts = if is_static_block {
        no_parts().push(txt("static "))
    } else {
        no_parts()
    };
    let parts = parts.push(txt("{"));
    let parts = match block_body_doc(statements, directives, true, style) {
        Some(body) => parts.push(DocView::Indent(no_parts().push(DocView::Hardline).push(body))).push(
            DocView::Hardline,
        ),
        None => parts,
    };
    DocView::Concat(parts.push(txt("}")))
}

pub fn print_block(
    p: &Prettier,
    statements: &Vec<Statement>,
    directives: Option<&Vec<Directive>>,
    is_static_block: bool,
) -> (doc: Doc)
    ensures
        doc@ == block_doc(statements@, directives, is_static_block, p@),
    decreases statements, statements.len() + 4,
{
    let mut parts = parts_new();
    if is_static_block {
        parts_push(&mut parts, text("static "));
    }
    parts_push(&mut parts, text("{"));
    match print_block_body(p, statements, directives, true) {
        Some(body) => {
            let mut inner = parts_new();
            parts_push(&mut inner, Doc::Hardline);
            parts_push(&mut inner, body);
            parts_push(&mut parts, indent(inner));
            parts_push(&mut parts, Doc::Hardline);
        },
        None => {},
    }
    parts_push(&mut parts, text("}"));
    array(parts)
}

} // verus!
