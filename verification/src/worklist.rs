//! The work stack of the layout engine, and how pushing the parts of a
//! document onto it relates to the recursive definitions of the layout.

use vstd::prelude::*;
use crate::doc::{Doc, DocView, views};
use crate::layout::{
    Budget, Cmd, Layout, Mode, any_hardline, ends_line, ends_line_from, flat_text, flat_text_from,
    has_hardline, line_head, line_head_from, line_rest, pending, render, render_from, run,
};

verus! {

/// A work item of the engine: a borrowed document with the indentation and
/// the mode that it is rendered in.
#[derive(Debug, Clone, Copy)]
pub struct Command<'a> {
    pub indent: usize,
    pub mode: Mode,
    pub doc: &'a Doc,
}

impl<'a> View for Command<'a> {
    type V = Cmd;

    open spec fn view(&self) -> Cmd {
        Cmd { indent: self.indent as nat, mode: self.mode, doc: self.doc@ }
    }
}

/// The work items that a stack of commands stands for.
pub open spec fn stack_view(stack: Seq<Command>) -> Seq<Cmd> {
    Seq::new(stack.len(), |i: int| stack[i]@)
}

/// The number of nodes of `doc`.
pub open spec fn doc_size(doc: DocView) -> nat
    decreases doc, 0nat,
{
    match doc {
        DocView::Concat(parts) | DocView::Indent(parts) | DocView::Group(parts) => 1 + size_from(
            parts,
            0,
        ),
        DocView::IfBreak(inner) => 1 + doc_size(*inner),
        _ => 1,
    }
}

/// The number of nodes of `parts[from..]`.
pub open spec fn size_from(parts: Seq<DocView>, from: int) -> nat
    decreases parts, parts.len() - from,
{
    if 0 <= from < parts.len() {
        doc_size(parts[from]) + size_from(parts, from + 1)
    } else {
        0
    }
}

/// The number of nodes that the pending work holds.
pub open spec fn weight(cmds: Seq<Cmd>) -> nat
    decreases cmds.len(),
{
    if cmds.len() == 0 {
        0
    } else {
        doc_size(cmds.last().doc) + weight(cmds.drop_last())
    }
}

/// Whether some pending document holds a forced break.
pub open spec fn stack_hardline(cmds: Seq<Cmd>) -> bool
    decreases cmds.len(),
{
    cmds.len() > 0 && (has_hardline(cmds.last().doc) || stack_hardline(cmds.drop_last()))
}

/// The length of the flat text of all pending documents.
pub open spec fn stack_flat_len(cmds: Seq<Cmd>) -> nat
    decreases cmds.len(),
{
    if cmds.len() == 0 {
        0
    } else {
        flat_text(cmds.last().doc).len() + stack_flat_len(cmds.drop_last())
    }
}

/// The first of the pending parts is the next item of work, and the others
/// lie below it.
pub proof fn lemma_pending_top(
    base: Seq<Cmd>,
    parts: Seq<DocView>,
    from: int,
    indent: nat,
    mode: Mode,
)
    requires
        0 <= from < parts.len(),
    ensures
        (base + pending(parts, from, indent, mode)).last() == (Cmd {
            indent,
            mode,
            doc: parts[from],
        }),
        (base + pending(parts, from, indent, mode)).drop_last() == base + pending(
            parts,
            from + 1,
            indent,
            mode,
        ),
        pending(parts, from, indent, mode) == pending(parts, from + 1, indent, mode).push(
            Cmd { indent, mode, doc: parts[from] },
        ),
{
    let all = base + pending(parts, from, indent, mode);
    let fewer = base + pending(parts, from + 1, indent, mode);
    assert(all.drop_last() =~= fewer);
    assert(pending(parts, from, indent, mode) =~= pending(parts, from + 1, indent, mode).push(
        Cmd { indent, mode, doc: parts[from] },
    ));
}

/// No part is pending past the end.
pub proof fn lemma_pending_none(base: Seq<Cmd>, parts: Seq<DocView>, indent: nat, mode: Mode)
    ensures
        base + pending(parts, parts.len() as int, indent, mode) == base,
{
    assert(base + pending(parts, parts.len() as int, indent, mode) =~= base);
}

/// Pushing one item adds its nodes to the weight.
pub proof fn lemma_weight_push(base: Seq<Cmd>, cmd: Cmd)
    ensures
        weight(base.push(cmd)) == weight(base) + doc_size(cmd.doc),
        doc_size(cmd.doc) >= 1,
{
    assert(base.push(cmd).drop_last() =~= base);
}

/// A stack with one more item holds a forced break where the item or the
/// stack below it does, and its flat text is longer by that of the item.
pub proof fn lemma_flat_push(base: Seq<Cmd>, cmd: Cmd)
    ensures
        stack_hardline(base.push(cmd)) == (has_hardline(cmd.doc) || stack_hardline(base)),
        stack_flat_len(base.push(cmd)) == stack_flat_len(base) + flat_text(cmd.doc).len(),
{
    assert(base.push(cmd).drop_last() =~= base);
}

/// Pushing the parts of a document adds their nodes to the weight.
pub proof fn lemma_weight_pending(
    base: Seq<Cmd>,
    parts: Seq<DocView>,
    from: int,
    indent: nat,
    mode: Mode,
)
    requires
        0 <= from <= parts.len(),
    ensures
        weight(base + pending(parts, from, indent, mode)) == weight(base) + size_from(parts, from),
    decreases parts.len() - from,
{
    if from == parts.len() {
        lemma_pending_none(base, parts, indent, mode);
    } else {
        lemma_pending_top(base, parts, from, indent, mode);
        lemma_weight_pending(base, parts, from + 1, indent, mode);
    }
}

/// The pending parts hold a forced break where the parts do.
pub proof fn lemma_hardline_pending(
    base: Seq<Cmd>,
    parts: Seq<DocView>,
    from: int,
    indent: nat,
    mode: Mode,
)
    requires
        0 <= from <= parts.len(),
    ensures
        stack_hardline(base + pending(parts, from, indent, mode)) == (any_hardline(parts, from)
            || stack_hardline(base)),
    decreases parts.len() - from,
{
    if from == parts.len() {
        lemma_pending_none(base, parts, indent, mode);
    } else {
        lemma_pending_top(base, parts, from, indent, mode);
        lemma_hardline_pending(base, parts, from + 1, indent, mode);
    }
}

/// The flat text of the pending parts is as long as that of the parts.
pub proof fn lemma_flat_len_pending(
    base: Seq<Cmd>,
    parts: Seq<DocView>,
    from: int,
    indent: nat,
    mode: Mode,
)
    requires
        0 <= from <= parts.len(),
    ensures
        stack_flat_len(base + pending(parts, from, indent, mode)) == stack_flat_len(base)
            + flat_text_from(parts, from).len(),
    decreases parts.len() - from,
{
    if from == parts.len() {
        lemma_pending_none(base, parts, indent, mode);
    } else {
        lemma_pending_top(base, parts, from, indent, mode);
        lemma_flat_len_pending(base, parts, from + 1, indent, mode);
    }
}

/// What pending parts put on the current line: their own head, and what
/// lies below them where they end no line.
pub proof fn lemma_line_rest_pending(
    base: Seq<Cmd>,
    parts: Seq<DocView>,
    from: int,
    indent: nat,
    mode: Mode,
)
    requires
        0 <= from <= parts.len(),
    ensures
        line_rest(base + pending(parts, from, indent, mode)) == if ends_line_from(
            parts,
            from,
            mode,
        ) {
            line_head_from(parts, from, mode)
        } else {
            line_head_from(parts, from, mode) + line_rest(base)
        },
    decreases parts.len() - from,
{
    if from == parts.len() {
        lemma_pending_none(base, parts, indent, mode);
        assert(Seq::<char>::empty() + line_rest(base) =~= line_rest(base));
    } else {
        lemma_pending_top(base, parts, from, indent, mode);
        lemma_line_rest_pending(base, parts, from + 1, indent, mode);
        if !ends_line(parts[from], mode) && !ends_line_from(parts, from + 1, mode) {
            assert(line_head(parts[from], mode) + (line_head_from(parts, from + 1, mode)
                + line_rest(base)) =~= (line_head(parts[from], mode) + line_head_from(
                parts,
                from + 1,
                mode,
            )) + line_rest(base));
        }
    }
}

/// Rendering the pending parts and then the work below them is rendering
/// the parts in order and then that work.
pub proof fn lemma_run_pending(
    base: Seq<Cmd>,
    parts: Seq<DocView>,
    from: int,
    indent: nat,
    mode: Mode,
    at: Layout,
    budget: Budget,
)
    requires
        0 <= from <= parts.len(),
    ensures
        run(base + pending(parts, from, indent, mode), at, budget) == run(
            base,
            render_from(parts, from, indent, mode, base, at, budget),
            budget,
        ),
    decreases parts.len() - from,
{
    if from == parts.len() {
        lemma_pending_none(base, parts, indent, mode);
    } else {
        lemma_pending_top(base, parts, from, indent, mode);
        let next = render(
            parts[from],
            indent,
            mode,
            base + pending(parts, from + 1, indent, mode),
            at,
            budget,
        );
        lemma_run_pending(base, parts, from + 1, indent, mode, next, budget);
    }
}

/// Rendering a stack is rendering its top item and then the items below.
pub proof fn lemma_run_push(base: Seq<Cmd>, cmd: Cmd, at: Layout, budget: Budget)
    ensures
        run(base.push(cmd), at, budget) == run(
            base,
            render(cmd.doc, cmd.indent, cmd.mode, base, at, budget),
            budget,
        ),
{
    assert(base.push(cmd).drop_last() =~= base);
}

/// Pushes the parts of a document, the first of them on top.
pub fn push_parts<'a>(
    stack: &mut Vec<Command<'a>>,
    parts: &'a Vec<Doc>,
    indent: usize,
    mode: Mode,
)
    ensures
        stack_view(final(stack)@) == stack_view(old(stack)@) + pending(
            views(parts@),
            0,
            indent as nat,
            mode,
        ),
{
    let ghost base = stack_view(stack@);
    let ghost docs = views(parts@);
    let mut i: usize = parts.len();
    proof {
        lemma_pending_none(base, docs, indent as nat, mode);
    }
    while i > 0
        invariant
            i <= parts.len(),
            docs == views(parts@),
            docs.len() == parts.len(),
            stack_view(stack@) == base + pending(docs, i as int, indent as nat, mode),
        decreases i,
    {
        i -= 1;
        let ghost before = stack_view(stack@);
        stack.push(Command { indent, mode, doc: &parts[i] });
        proof {
            lemma_pending_top(base, docs, i as int, indent as nat, mode);
            assert(stack_view(stack@) =~= before.push(
                Cmd { indent: indent as nat, mode, doc: docs[i as int] },
            ));
            assert(before.push(Cmd { indent: indent as nat, mode, doc: docs[i as int] }) =~= base
                + pending(docs, i as int, indent as nat, mode));
        }
    }
}

} // verus!
