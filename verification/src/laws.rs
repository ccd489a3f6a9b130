//! Laws of the layout, proved of its definition.

use vstd::prelude::*;
use crate::doc::DocView;
use crate::layout::{
    Budget, Cmd, Layout, Mode, all_on_one_line, any_hardline, descendant, ends_line,
    ends_line_from, fits, flat_text, flat_text_from, group_mode, has_hardline, is_blank,
    last_line_len, layout, line_head, line_head_from, line_rest, lines_end_clean, on_one_line,
    own_breaks, own_breaks_from, pending, render, render_from, run, spaces, texts_on_one_line,
    trim_end,
};
use crate::worklist::lemma_line_rest_pending;

verus! {

/// Rendering never clears the overflow mark, and never takes back a line
/// break.
pub proof fn lemma_render_monotone(
    doc: DocView,
    indent: nat,
    mode: Mode,
    rest: Seq<Cmd>,
    at: Layout,
    budget: Budget,
)
    ensures
        at.overflow ==> render(doc, indent, mode, rest, at, budget).overflow,
        render(doc, indent, mode, rest, at, budget).lines >= at.lines,
    decreases doc, 0nat,
{
    match doc {
        DocView::IfBreak(inner) => {
            if mode == Mode::Break {
                lemma_render_monotone(*inner, indent, mode, rest, at, budget);
            }
        },
        DocView::Concat(parts) => {
            lemma_render_from_monotone(parts, 0, indent, mode, rest, at, budget);
        },
        DocView::Indent(parts) => {
            lemma_render_from_monotone(
                parts,
                0,
                indent + budget.unit,
                mode,
                rest,
                at.enter(indent + budget.unit),
                budget,
            );
        },
        DocView::Group(parts) => {
            lemma_render_from_monotone(
                parts,
                0,
                indent,
                group_mode(parts, rest, at.col, budget.width),
                rest,
                at,
                budget,
            );
        },
        _ => {},
    }
}

/// The same of the parts of a document.
pub proof fn lemma_render_from_monotone(
    parts: Seq<DocView>,
    from: int,
    indent: nat,
    mode: Mode,
    rest: Seq<Cmd>,
    at: Layout,
    budget: Budget,
)
    ensures
        at.overflow ==> render_from(parts, from, indent, mode, rest, at, budget).overflow,
        render_from(parts, from, indent, mode, rest, at, budget).lines >= at.lines,
    decreases parts, parts.len() - from,
{
    if 0 <= from < parts.len() {
        let next = render(
            parts[from],
            indent,
            mode,
            rest + pending(parts, from + 1, indent, mode),
            at,
            budget,
        );
        lemma_render_monotone(
            parts[from],
            indent,
            mode,
            rest + pending(parts, from + 1, indent, mode),
            at,
            budget,
        );
        lemma_render_from_monotone(parts, from + 1, indent, mode, rest, next, budget);
    }
}

/// The same of a stack of pending work.
pub proof fn lemma_run_monotone(cmds: Seq<Cmd>, at: Layout, budget: Budget)
    ensures
        at.overflow ==> run(cmds, at, budget).overflow,
        run(cmds, at, budget).lines >= at.lines,
    decreases cmds.len(),
{
    if cmds.len() > 0 {
        let top = cmds.last();
        let next = render(top.doc, top.indent, top.mode, cmds.drop_last(), at, budget);
        lemma_render_monotone(top.doc, top.indent, top.mode, cmds.drop_last(), at, budget);
        lemma_run_monotone(cmds.drop_last(), next, budget);
    }
}

/// A document without a forced break, taken flat, ends no line, and what it
/// puts on the current line is its flat text.
pub proof fn lemma_flat_head(doc: DocView)
    requires
        !has_hardline(doc),
    ensures
        !ends_line(doc, Mode::Flat),
        line_head(doc, Mode::Flat) == flat_text(doc),
    decreases doc, 0nat,
{
    match doc {
        DocView::Concat(parts) | DocView::Indent(parts) | DocView::Group(parts) => {
            lemma_flat_head_from(parts, 0);
        },
        _ => {},
    }
}

/// The same of the parts of a document.
pub proof fn lemma_flat_head_from(parts: Seq<DocView>, from: int)
    requires
        !any_hardline(parts, from),
    ensures
        !ends_line_from(parts, from, Mode::Flat),
        line_head_from(parts, from, Mode::Flat) == flat_text_from(parts, from),
    decreases parts, parts.len() - from,
{
    if 0 <= from < parts.len() {
        lemma_flat_head(parts[from]);
        lemma_flat_head_from(parts, from + 1);
    }
}

/// A document without a forced break that fits on the current line,
/// together with what follows it there, renders flat to its flat text, on
/// that line.
pub proof fn lemma_flat_render(
    doc: DocView,
    indent: nat,
    rest: Seq<Cmd>,
    at: Layout,
    budget: Budget,
)
    requires
        !has_hardline(doc),
        at.col + flat_text(doc).len() + line_rest(rest).len() <= budget.width,
    ensures
        render(doc, indent, Mode::Flat, rest, at, budget).out == at.out + flat_text(doc),
        render(doc, indent, Mode::Flat, rest, at, budget).col == at.col + flat_text(doc).len(),
        render(doc, indent, Mode::Flat, rest, at, budget).lines == at.lines,
    decreases doc, 0nat,
{
    match doc {
        DocView::Concat(parts) => {
            lemma_flat_render_from(parts, 0, indent, rest, at, budget);
        },
        DocView::Indent(parts) => {
            lemma_flat_render_from(
                parts,
                0,
                indent + budget.unit,
                rest,
                at.enter(indent + budget.unit),
                budget,
            );
        },
        DocView::Group(parts) => {
            assert(fits(parts, rest, at.col, budget.width));
            lemma_flat_render_from(parts, 0, indent, rest, at, budget);
        },
        _ => {
            assert(at.out + Seq::<char>::empty() =~= at.out);
        },
    }
}

/// The same of the parts of a document.
pub proof fn lemma_flat_render_from(
    parts: Seq<DocView>,
    from: int,
    indent: nat,
    rest: Seq<Cmd>,
    at: Layout,
    budget: Budget,
)
    requires
        0 <= from <= parts.len(),
        !any_hardline(parts, from),
        at.col + flat_text_from(parts, from).len() + line_rest(rest).len() <= budget.width,
    ensures
        render_from(parts, from, indent, Mode::Flat, rest, at, budget).out == at.out
            + flat_text_from(parts, from),
        render_from(parts, from, indent, Mode::Flat, rest, at, budget).col == at.col
            + flat_text_from(parts, from).len(),
        render_from(parts, from, indent, Mode::Flat, rest, at, budget).lines == at.lines,
    decreases parts, parts.len() - from,
{
    if from < parts.len() {
        let after = rest + pending(parts, from + 1, indent, Mode::Flat);
        lemma_flat_head_from(parts, from + 1);
        lemma_line_rest_pending(rest, parts, from + 1, indent, Mode::Flat);
        lemma_flat_render(parts[from], indent, after, at, budget);
        let next = render(parts[from], indent, Mode::Flat, after, at, budget);
        lemma_flat_render_from(parts, from + 1, indent, rest, next, budget);
        assert((at.out + flat_text(parts[from])) + flat_text_from(parts, from + 1) =~= at.out
            + flat_text_from(parts, from));
    } else {
        assert(at.out + Seq::<char>::empty() =~= at.out);
    }
}

/// Width respect: a group that the fits-check finds to fit is rendered
/// flat, whatever the mode around it. Its flat text is appended to the
/// current line, no line break is emitted, and the line stays within the
/// width.
pub proof fn lemma_fitting_group_stays_within_width(
    parts: Seq<DocView>,
    indent: nat,
    mode: Mode,
    rest: Seq<Cmd>,
    at: Layout,
    budget: Budget,
)
    requires
        fits(parts, rest, at.col, budget.width),
    ensures
        group_mode(parts, rest, at.col, budget.width) == Mode::Flat,
        render(DocView::Group(parts), indent, mode, rest, at, budget).out == at.out
            + flat_text_from(parts, 0),
        render(DocView::Group(parts), indent, mode, rest, at, budget).lines == at.lines,
        render(DocView::Group(parts), indent, mode, rest, at, budget).col == at.col
            + flat_text_from(parts, 0).len(),
        render(DocView::Group(parts), indent, mode, rest, at, budget).col <= budget.width,
{
    lemma_flat_render_from(parts, 0, indent, rest, at, budget);
}

/// A document that holds a forced break, rendered in broken mode, emits a
/// line break.
pub proof fn lemma_hardline_breaks_line(
    doc: DocView,
    indent: nat,
    rest: Seq<Cmd>,
    at: Layout,
    budget: Budget,
)
    requires
        has_hardline(doc),
    ensures
        render(doc, indent, Mode::Break, rest, at, budget).lines > at.lines,
    decreases doc, 0nat,
{
    match doc {
        DocView::IfBreak(inner) => {
            lemma_hardline_breaks_line(*inner, indent, rest, at, budget);
        },
        DocView::Concat(parts) => {
            lemma_hardline_breaks_line_from(parts, 0, indent, rest, at, budget);
        },
        DocView::Indent(parts) => {
            lemma_hardline_breaks_line_from(
                parts,
                0,
                indent + budget.unit,
                rest,
                at.enter(indent + budget.unit),
                budget,
            );
        },
        DocView::Group(parts) => {
            lemma_hardline_breaks_line_from(parts, 0, indent, rest, at, budget);
        },
        _ => {},
    }
}

/// The same of the parts of a document.
pub proof fn lemma_hardline_breaks_line_from(
    parts: Seq<DocView>,
    from: int,
    indent: nat,
    rest: Seq<Cmd>,
    at: Layout,
    budget: Budget,
)
    requires
        any_hardline(parts, from),
    ensures
        render_from(parts, from, indent, Mode::Break, rest, at, budget).lines > at.lines,
    decreases parts, parts.len() - from,
{
    if 0 <= from < parts.len() {
        let after = rest + pending(parts, from + 1, indent, Mode::Break);
        let next = render(parts[from], indent, Mode::Break, after, at, budget);
        lemma_render_monotone(parts[from], indent, Mode::Break, after, at, budget);
        lemma_render_from_monotone(parts, from + 1, indent, Mode::Break, rest, next, budget);
        if has_hardline(parts[from]) {
            lemma_hardline_breaks_line(parts[from], indent, after, at, budget);
        } else {
            lemma_hardline_breaks_line_from(parts, from + 1, indent, rest, next, budget);
        }
    }
}

/// Forced-break propagation: a group whose content holds a forced break, at
/// any depth, fails the fits-check at every column and width, whatever the
/// mode around it, and its rendering emits a line break.
pub proof fn lemma_hardline_forces_break(
    parts: Seq<DocView>,
    indent: nat,
    mode: Mode,
    rest: Seq<Cmd>,
    at: Layout,
    budget: Budget,
)
    requires
        any_hardline(parts, 0),
    ensures
        !fits(parts, rest, at.col, budget.width),
        group_mode(parts, rest, at.col, budget.width) == Mode::Break,
        render(DocView::Group(parts), indent, mode, rest, at, budget).lines > at.lines,
{
    lemma_hardline_breaks_line_from(parts, 0, indent, rest, at, budget);
}

/// In broken mode every optional break that the group around a document
/// decides is a line break.
pub proof fn lemma_broken_breaks(
    doc: DocView,
    indent: nat,
    rest: Seq<Cmd>,
    at: Layout,
    budget: Budget,
)
    ensures
        render(doc, indent, Mode::Break, rest, at, budget).lines >= at.lines + own_breaks(doc),
    decreases doc, 0nat,
{
    match doc {
        DocView::IfBreak(inner) => {
            lemma_broken_breaks(*inner, indent, rest, at, budget);
        },
        DocView::Concat(parts) => {
            lemma_broken_breaks_from(parts, 0, indent, rest, at, budget);
        },
        DocView::Indent(parts) => {
            lemma_broken_breaks_from(
                parts,
                0,
                indent + budget.unit,
                rest,
                at.enter(indent + budget.unit),
                budget,
            );
        },
        _ => {
            lemma_render_monotone(doc, indent, Mode::Break, rest, at, budget);
        },
    }
}

/// The same of the parts of a document.
pub proof fn lemma_broken_breaks_from(
    parts: Seq<DocView>,
    from: int,
    indent: nat,
    rest: Seq<Cmd>,
    at: Layout,
    budget: Budget,
)
    ensures
        render_from(parts, from, indent, Mode::Break, rest, at, budget).lines >= at.lines
            + own_breaks_from(parts, from),
    decreases parts, parts.len() - from,
{
    if 0 <= from < parts.len() {
        let after = rest + pending(parts, from + 1, indent, Mode::Break);
        let next = render(parts[from], indent, Mode::Break, after, at, budget);
        lemma_broken_breaks(parts[from], indent, after, at, budget);
        lemma_broken_breaks_from(parts, from + 1, indent, rest, next, budget);
    }
}

/// All or none: a group either fits, and then it adds its flat text to the
/// current line without any line break, or it does not, and then every
/// optional break that it decides is a line break.
pub proof fn lemma_group_breaks_all_or_none(
    parts: Seq<DocView>,
    indent: nat,
    mode: Mode,
    rest: Seq<Cmd>,
    at: Layout,
    budget: Budget,
)
    ensures
        fits(parts, rest, at.col, budget.width) ==> {
            &&& render(DocView::Group(parts), indent, mode, rest, at, budget).lines == at.lines
            &&& render(DocView::Group(parts), indent, mode, rest, at, budget).out == at.out
                + flat_text_from(parts, 0)
        },
        !fits(parts, rest, at.col, budget.width) ==> render(
            DocView::Group(parts),
            indent,
            mode,
            rest,
            at,
            budget,
        ).lines >= at.lines + own_breaks_from(parts, 0),
{
    if fits(parts, rest, at.col, budget.width) {
        lemma_flat_render_from(parts, 0, indent, rest, at, budget);
    } else {
        lemma_broken_breaks_from(parts, 0, indent, rest, at, budget);
    }
}

/// The optional breaks of two lists of parts, one after the other, are
/// those of the one and those of the other.
pub proof fn lemma_own_breaks_concat(first: Seq<DocView>, second: Seq<DocView>, from: int)
    requires
        0 <= from,
    ensures
        own_breaks_from(first + second, from) == if from <= first.len() {
            own_breaks_from(first, from) + own_breaks_from(second, 0)
        } else {
            own_breaks_from(second, from - first.len())
        },
    decreases first.len() + second.len() - from,
{
    let both = first + second;
    if from < both.len() {
        lemma_own_breaks_concat(first, second, from + 1);
        if from < first.len() {
            assert(both[from] == first[from]);
        } else {
            assert(both[from] == second[from - first.len()]);
        }
    }
}

/// The flat text of two lists of parts, one after the other, is that of
/// the one and then that of the other.
pub proof fn lemma_flat_text_concat(first: Seq<DocView>, second: Seq<DocView>, from: int)
    requires
        0 <= from,
    ensures
        flat_text_from(first + second, from) == if from <= first.len() {
            flat_text_from(first, from) + flat_text_from(second, 0)
        } else {
            flat_text_from(second, from - first.len())
        },
    decreases first.len() + second.len() - from,
{
    let both = first + second;
    if from < both.len() {
        lemma_flat_text_concat(first, second, from + 1);
        if from < first.len() {
            assert(both[from] == first[from]);
            assert(flat_text(first[from]) + (flat_text_from(first, from + 1) + flat_text_from(
                second,
                0,
            )) =~= (flat_text(first[from]) + flat_text_from(first, from + 1)) + flat_text_from(
                second,
                0,
            ));
        } else {
            assert(both[from] == second[from - first.len()]);
        }
    } else {
        assert(Seq::<char>::empty() + Seq::<char>::empty() =~= Seq::<char>::empty());
    }
}

/// Text without a line break makes the last line longer by its length.
pub proof fn lemma_last_line_grows(out: Seq<char>, text: Seq<char>)
    requires
        on_one_line(text),
    ensures
        last_line_len(out + text) == last_line_len(out) + text.len(),
    decreases text.len(),
{
    if text.len() == 0 {
        assert(out + text =~= out);
    } else {
        let shorter = text.drop_last();
        assert((out + text).drop_last() =~= out + shorter);
        assert((out + text).last() == text[text.len() - 1]);
        lemma_last_line_grows(out, shorter);
    }
}

/// After a line break and the indentation, the last line is as long as the
/// indentation.
pub proof fn lemma_last_line_after_break(out: Seq<char>, indent: nat)
    ensures
        last_line_len(trim_end(out).push('\n') + spaces(indent)) == indent,
{
    let broken = trim_end(out).push('\n');
    lemma_last_line_grows(broken, spaces(indent));
}

/// The column is the length of the last line: where no text of a document
/// holds a line break and the column counts the last line before the
/// document is rendered, it still does after.
pub proof fn lemma_column_is_line_length(
    doc: DocView,
    indent: nat,
    mode: Mode,
    rest: Seq<Cmd>,
    at: Layout,
    budget: Budget,
)
    requires
        texts_on_one_line(doc),
        at.col == last_line_len(at.out),
    ensures
        render(doc, indent, mode, rest, at, budget).col == last_line_len(
            render(doc, indent, mode, rest, at, budget).out,
        ),
    decreases doc, 0nat,
{
    match doc {
        DocView::Text(s) => {
            lemma_last_line_grows(at.out, s);
        },
        DocView::Line => {
            if mode == Mode::Flat {
                lemma_last_line_grows(at.out, seq![' ']);
            } else {
                lemma_last_line_after_break(at.out, indent);
            }
        },
        DocView::Softline => {
            if mode == Mode::Break {
                lemma_last_line_after_break(at.out, indent);
            }
        },
        DocView::Hardline => {
            lemma_last_line_after_break(at.out, indent);
        },
        DocView::IfBreak(inner) => {
            if mode == Mode::Break {
                lemma_column_is_line_length(*inner, indent, mode, rest, at, budget);
            }
        },
        DocView::Concat(parts) => {
            lemma_column_is_line_length_from(parts, 0, indent, mode, rest, at, budget);
        },
        DocView::Indent(parts) => {
            lemma_column_is_line_length_from(
                parts,
                0,
                indent + budget.unit,
                mode,
                rest,
                at.enter(indent + budget.unit),
                budget,
            );
        },
        DocView::Group(parts) => {
            lemma_column_is_line_length_from(
                parts,
                0,
                indent,
                group_mode(parts, rest, at.col, budget.width),
                rest,
                at,
                budget,
            );
        },
    }
}

/// The same of the parts of a document.
pub proof fn lemma_column_is_line_length_from(
    parts: Seq<DocView>,
    from: int,
    indent: nat,
    mode: Mode,
    rest: Seq<Cmd>,
    at: Layout,
    budget: Budget,
)
    requires
        all_on_one_line(parts, from),
        at.col == last_line_len(at.out),
    ensures
        render_from(parts, from, indent, mode, rest, at, budget).col == last_line_len(
            render_from(parts, from, indent, mode, rest, at, budget).out,
        ),
    decreases parts, parts.len() - from,
{
    if 0 <= from < parts.len() {
        let after = rest + pending(parts, from + 1, indent, mode);
        let next = render(parts[from], indent, mode, after, at, budget);
        lemma_column_is_line_length(parts[from], indent, mode, after, at, budget);
        lemma_column_is_line_length_from(parts, from + 1, indent, mode, rest, next, budget);
    }
}

/// In the layout of a whole document without a line break in its texts,
/// the column at the end is the length of the last line of the text.
pub proof fn lemma_layout_column(doc: DocView, budget: Budget)
    requires
        texts_on_one_line(doc),
    ensures
        layout(doc, budget).col == last_line_len(layout(doc, budget).out),
{
    lemma_column_is_line_length(doc, 0, Mode::Break, Seq::empty(), Layout::start(), budget);
}

/// Width respect, on the text itself: a group that the fits-check finds to
/// fit, with no line break in its texts, leaves the text with as many
/// lines as before, and its last line, from column 0, within the width.
pub proof fn lemma_fitting_group_line_within_width(
    parts: Seq<DocView>,
    indent: nat,
    mode: Mode,
    rest: Seq<Cmd>,
    at: Layout,
    budget: Budget,
)
    requires
        fits(parts, rest, at.col, budget.width),
        all_on_one_line(parts, 0),
        at.col == last_line_len(at.out),
    ensures
        render(DocView::Group(parts), indent, mode, rest, at, budget).lines == at.lines,
        last_line_len(render(DocView::Group(parts), indent, mode, rest, at, budget).out)
            <= budget.width,
{
    lemma_fitting_group_stays_within_width(parts, indent, mode, rest, at, budget);
    lemma_column_is_line_length(DocView::Group(parts), indent, mode, rest, at, budget);
}

/// A forced break inside a part of a document is one inside the document.
pub proof fn lemma_hardline_in_part(parts: Seq<DocView>, from: int, at: int)
    requires
        0 <= from <= at < parts.len(),
        has_hardline(parts[at]),
    ensures
        any_hardline(parts, from),
    decreases at - from,
{
    if from < at {
        lemma_hardline_in_part(parts, from + 1, at);
    }
}

/// What is left of a text without the blanks at its end is a prefix of it
/// that does not end in a blank.
pub proof fn lemma_trim_end(text: Seq<char>)
    ensures
        trim_end(text).len() <= text.len(),
        trim_end(text) == text.take(trim_end(text).len() as int),
        trim_end(text).len() > 0 ==> !is_blank(trim_end(text).last()),
    decreases text.len(),
{
    if text.len() > 0 && is_blank(text.last()) {
        lemma_trim_end(text.drop_last());
        assert(text.drop_last().take(trim_end(text).len() as int) =~= text.take(
            trim_end(text).len() as int,
        ));
    } else {
        assert(text.take(text.len() as int) =~= text);
    }
}

/// No line ends in a blank: where no text of a document holds a line break
/// and every line closed so far ends clean, every line closed after the
/// document is rendered does.
pub proof fn lemma_lines_end_clean(
    doc: DocView,
    indent: nat,
    mode: Mode,
    rest: Seq<Cmd>,
    at: Layout,
    budget: Budget,
)
    requires
        texts_on_one_line(doc),
        lines_end_clean(at.out),
    ensures
        lines_end_clean(render(doc, indent, mode, rest, at, budget).out),
    decreases doc, 0nat,
{
    match doc {
        DocView::Text(s) => {
            lemma_emit_keeps_lines_clean(at.out, s);
        },
        DocView::Line => {
            if mode == Mode::Flat {
                lemma_emit_keeps_lines_clean(at.out, seq![' ']);
            } else {
                lemma_break_keeps_lines_clean(at.out, indent);
            }
        },
        DocView::Softline => {
            if mode == Mode::Break {
                lemma_break_keeps_lines_clean(at.out, indent);
            }
        },
        DocView::Hardline => {
            lemma_break_keeps_lines_clean(at.out, indent);
        },
        DocView::IfBreak(inner) => {
            if mode == Mode::Break {
                lemma_lines_end_clean(*inner, indent, mode, rest, at, budget);
            }
        },
        DocView::Concat(parts) => {
            lemma_lines_end_clean_from(parts, 0, indent, mode, rest, at, budget);
        },
        DocView::Indent(parts) => {
            lemma_lines_end_clean_from(
                parts,
                0,
                indent + budget.unit,
                mode,
                rest,
                at.enter(indent + budget.unit),
                budget,
            );
        },
        DocView::Group(parts) => {
            lemma_lines_end_clean_from(
                parts,
                0,
                indent,
                group_mode(parts, rest, at.col, budget.width),
                rest,
                at,
                budget,
            );
        },
    }
}

/// The same of the parts of a document.
pub proof fn lemma_lines_end_clean_from(
    parts: Seq<DocView>,
    from: int,
    indent: nat,
    mode: Mode,
    rest: Seq<Cmd>,
    at: Layout,
    budget: Budget,
)
    requires
        all_on_one_line(parts, from),
        lines_end_clean(at.out),
    ensures
        lines_end_clean(render_from(parts, from, indent, mode, rest, at, budget).out),
    decreases parts, parts.len() - from,
{
    if 0 <= from < parts.len() {
        let after = rest + pending(parts, from + 1, indent, mode);
        let next = render(parts[from], indent, mode, after, at, budget);
        lemma_lines_end_clean(parts[from], indent, mode, after, at, budget);
        lemma_lines_end_clean_from(parts, from + 1, indent, mode, rest, next, budget);
    }
}

/// Text without a line break closes no line.
pub proof fn lemma_emit_keeps_lines_clean(out: Seq<char>, text: Seq<char>)
    requires
        lines_end_clean(out),
        on_one_line(text),
    ensures
        lines_end_clean(out + text),
{
    let all = out + text;
    assert forall|i: int| 0 < i < all.len() && all[i] == '\n' implies !is_blank(
        #[trigger] all[i - 1],
    ) by {
        if i >= out.len() {
            assert(all[i] == text[i - out.len()]);
        } else {
            assert(all[i] == out[i]);
            assert(all[i - 1] == out[i - 1]);
        }
    }
}

/// A line break closes the current line without blanks at its end.
pub proof fn lemma_break_keeps_lines_clean(out: Seq<char>, indent: nat)
    requires
        lines_end_clean(out),
    ensures
        lines_end_clean(trim_end(out).push('\n') + spaces(indent)),
{
    let kept = trim_end(out);
    let all = kept.push('\n') + spaces(indent);
    lemma_trim_end(out);
    assert forall|i: int| 0 < i < all.len() && all[i] == '\n' implies !is_blank(
        #[trigger] all[i - 1],
    ) by {
        if i < kept.len() {
            assert(all[i] == kept[i]);
            assert(all[i - 1] == kept[i - 1]);
            assert(kept[i] == out[i]);
            assert(kept[i - 1] == out[i - 1]);
        } else if i == kept.len() {
            assert(all[i - 1] == kept.last());
        } else {
            assert(all[i] == spaces(indent)[i - kept.len() - 1]);
        }
    }
}

/// In the text of a whole document without a line break in its texts, no
/// line that a line break closes ends in a blank.
pub proof fn lemma_layout_lines_end_clean(doc: DocView, budget: Budget)
    requires
        texts_on_one_line(doc),
    ensures
        lines_end_clean(layout(doc, budget).out),
{
    lemma_lines_end_clean(doc, 0, Mode::Break, Seq::empty(), Layout::start(), budget);
}

/// A forced break at any depth inside a document is a forced break of the
/// document.
pub proof fn lemma_hardline_at_any_depth(doc: DocView, path: Seq<int>)
    requires
        descendant(doc, path) == Some(DocView::Hardline),
    ensures
        has_hardline(doc),
    decreases path.len(),
{
    if path.len() > 0 {
        match doc {
            DocView::Concat(parts) | DocView::Indent(parts) | DocView::Group(parts) => {
                lemma_hardline_at_any_depth(parts[path[0]], path.drop_first());
                lemma_hardline_in_part(parts, 0, path[0]);
            },
            DocView::IfBreak(inner) => {
                lemma_hardline_at_any_depth(*inner, path.drop_first());
            },
            _ => {},
        }
    }
}

/// Forced-break propagation, at every depth: a group that holds a forced
/// break anywhere inside it, however deep, fails the fits-check and emits a
/// line break.
pub proof fn lemma_deep_hardline_forces_break(
    parts: Seq<DocView>,
    path: Seq<int>,
    indent: nat,
    mode: Mode,
    rest: Seq<Cmd>,
    at: Layout,
    budget: Budget,
)
    requires
        path.len() > 0,
        descendant(DocView::Group(parts), path) == Some(DocView::Hardline),
    ensures
        !fits(parts, rest, at.col, budget.width),
        group_mode(parts, rest, at.col, budget.width) == Mode::Break,
        render(DocView::Group(parts), indent, mode, rest, at, budget).lines > at.lines,
{
    lemma_hardline_at_any_depth(DocView::Group(parts), path);
    lemma_hardline_forces_break(parts, indent, mode, rest, at, budget);
}

} // verus!
