//! What the layout engine computes, stated on document views: the flat
//! rendering of a document, the fits-check of a group, and the text that a
//! document renders to under a line-width budget.

use vstd::prelude::*;
use crate::doc::DocView;

verus! {

/// How the optional breaks of a document are rendered.
#[derive(Debug, Clone, Copy, PartialEq, Eq, Structural)]
pub enum Mode {
    Flat,
    Break,
}

/// The line budget and the indentation unit, both in columns.
pub struct Budget {
    pub width: nat,
    pub unit: nat,
}

/// A work item: a document still to be rendered, the columns of
/// indentation that its line breaks get, and its mode.
pub struct Cmd {
    pub indent: nat,
    pub mode: Mode,
    pub doc: DocView,
}

/// The text rendered so far.
pub struct Layout {
    /// The characters emitted.
    pub out: Seq<char>,
    /// The column at which the next character lands.
    pub col: nat,
    /// The number of line breaks emitted.
    pub lines: nat,
    /// Whether some indentation passed `usize::MAX` columns.
    pub overflow: bool,
}

pub open spec fn is_blank(c: char) -> bool {
    c == ' ' || c == '\t'
}

/// `text` without the blanks at its end.
pub open spec fn trim_end(text: Seq<char>) -> Seq<char>
    decreases text.len(),
{
    if text.len() > 0 && is_blank(text.last()) {
        trim_end(text.drop_last())
    } else {
        text
    }
}

/// `n` spaces.
pub open spec fn spaces(n: nat) -> Seq<char> {
    Seq::new(n, |i: int| ' ')
}

impl Layout {
    /// Nothing rendered yet.
    pub open spec fn start() -> Layout {
        Layout { out: Seq::empty(), col: 0, lines: 0, overflow: false }
    }

    /// `text` appended to the current line.
    pub open spec fn emit(self, text: Seq<char>) -> Layout {
        Layout { out: self.out + text, col: self.col + text.len(), ..self }
    }

    /// The current line closed, without blanks at its end, and a new one
    /// opened with `indent` spaces.
    pub open spec fn newline(self, indent: nat) -> Layout {
        Layout {
            out: trim_end(self.out).push('\n') + spaces(indent),
            col: indent,
            lines: self.lines + 1,
            overflow: self.overflow,
        }
    }

    /// The state on entering an indentation of `indent` columns.
    pub open spec fn enter(self, indent: nat) -> Layout {
        Layout { overflow: self.overflow || indent > usize::MAX, ..self }
    }
}

/// Whether a forced break occurs anywhere inside `doc`.
pub open spec fn has_hardline(doc: DocView) -> bool
    decreases doc, 0nat,
{
    match doc {
        DocView::Hardline => true,
        DocView::Concat(parts) | DocView::Indent(parts) | DocView::Group(parts) => any_hardline(
            parts,
            0,
        ),
        DocView::IfBreak(inner) => has_hardline(*inner),
        _ => false,
    }
}

/// Whether a forced break occurs anywhere inside `parts[from..]`.
pub open spec fn any_hardline(parts: Seq<DocView>, from: int) -> bool
    decreases parts, parts.len() - from,
{
    if 0 <= from < parts.len() {
        has_hardline(parts[from]) || any_hardline(parts, from + 1)
    } else {
        false
    }
}

/// The document that stands inside `doc` at `path`: at each step the part
/// with the given index, or for a conditional document its content.
pub open spec fn descendant(doc: DocView, path: Seq<int>) -> Option<DocView>
    decreases path.len(),
{
    if path.len() == 0 {
        Some(doc)
    } else {
        match doc {
            DocView::Concat(parts) | DocView::Indent(parts) | DocView::Group(parts) => if 0
                <= path[0] < parts.len() {
                descendant(parts[path[0]], path.drop_first())
            } else {
                None
            },
            DocView::IfBreak(inner) => descendant(*inner, path.drop_first()),
            _ => None,
        }
    }
}

/// The text of `doc` with every optional break rendered flat. A forced
/// break contributes nothing: a document that holds one is never flat.
pub open spec fn flat_text(doc: DocView) -> Seq<char>
    decreases doc, 0nat,
{
    match doc {
        DocView::Text(s) => s,
        DocView::Concat(parts) | DocView::Indent(parts) | DocView::Group(parts) => flat_text_from(
            parts,
            0,
        ),
        DocView::Line => seq![' '],
        _ => Seq::empty(),
    }
}

/// The flat text of `parts[from..]`.
pub open spec fn flat_text_from(parts: Seq<DocView>, from: int) -> Seq<char>
    decreases parts, parts.len() - from,
{
    if 0 <= from < parts.len() {
        flat_text(parts[from]) + flat_text_from(parts, from + 1)
    } else {
        Seq::empty()
    }
}

/// The length of the last line of `out`: the number of characters after its
/// last line break.
pub open spec fn last_line_len(out: Seq<char>) -> nat
    decreases out.len(),
{
    if out.len() == 0 || out.last() == '\n' {
        0
    } else {
        last_line_len(out.drop_last()) + 1
    }
}

/// Whether no line of `out` that a line break closes ends in a blank.
pub open spec fn lines_end_clean(out: Seq<char>) -> bool {
    forall|i: int| 0 < i < out.len() && out[i] == '\n' ==> !is_blank(#[trigger] out[i - 1])
}

/// Whether `text` holds no line break.
pub open spec fn on_one_line(text: Seq<char>) -> bool {
    forall|i: int| 0 <= i < text.len() ==> text[i] != '\n'
}

/// Whether no text inside `doc` holds a line break.
pub open spec fn texts_on_one_line(doc: DocView) -> bool
    decreases doc, 0nat,
{
    match doc {
        DocView::Text(s) => on_one_line(s),
        DocView::Concat(parts) | DocView::Indent(parts) | DocView::Group(parts) => all_on_one_line(
            parts,
            0,
        ),
        DocView::IfBreak(inner) => texts_on_one_line(*inner),
        _ => true,
    }
}

/// Whether no text inside `parts[from..]` holds a line break.
pub open spec fn all_on_one_line(parts: Seq<DocView>, from: int) -> bool
    decreases parts, parts.len() - from,
{
    if 0 <= from < parts.len() {
        texts_on_one_line(parts[from]) && all_on_one_line(parts, from + 1)
    } else {
        true
    }
}

/// The number of optional breaks of `doc` that the nearest group around
/// `doc` decides: those that no group inside `doc` holds.
pub open spec fn own_breaks(doc: DocView) -> nat
    decreases doc, 0nat,
{
    match doc {
        DocView::Line | DocView::Softline => 1,
        DocView::Concat(parts) | DocView::Indent(parts) => own_breaks_from(parts, 0),
        DocView::IfBreak(inner) => own_breaks(*inner),
        _ => 0,
    }
}

/// The same count over `parts[from..]`.
pub open spec fn own_breaks_from(parts: Seq<DocView>, from: int) -> nat
    decreases parts, parts.len() - from,
{
    if 0 <= from < parts.len() {
        own_breaks(parts[from]) + own_breaks_from(parts, from + 1)
    } else {
        0
    }
}

/// Whether a line break is certain inside `doc` when it is rendered in
/// `mode`: a forced break, or an optional one in broken mode. A group whose
/// mode is still open counts as flat.
pub open spec fn ends_line(doc: DocView, mode: Mode) -> bool
    decreases doc, 0nat,
{
    match doc {
        DocView::Hardline => true,
        DocView::Line | DocView::Softline => mode == Mode::Break,
        DocView::Concat(parts) | DocView::Indent(parts) => ends_line_from(parts, 0, mode),
        DocView::Group(parts) => ends_line_from(parts, 0, Mode::Flat),
        DocView::IfBreak(inner) => mode == Mode::Break && ends_line(*inner, mode),
        DocView::Text(_) => false,
    }
}

pub open spec fn ends_line_from(parts: Seq<DocView>, from: int, mode: Mode) -> bool
    decreases parts, parts.len() - from,
{
    if 0 <= from < parts.len() {
        ends_line(parts[from], mode) || ends_line_from(parts, from + 1, mode)
    } else {
        false
    }
}

/// The text of `doc`, rendered in `mode`, up to its first certain line
/// break; all of its text where it has none.
pub open spec fn line_head(doc: DocView, mode: Mode) -> Seq<char>
    decreases doc, 0nat,
{
    match doc {
        DocView::Text(s) => s,
        DocView::Line => if mode == Mode::Flat {
            seq![' ']
        } else {
            Seq::empty()
        },
        DocView::Concat(parts) | DocView::Indent(parts) => line_head_from(parts, 0, mode),
        DocView::Group(parts) => line_head_from(parts, 0, Mode::Flat),
        DocView::IfBreak(inner) => if mode == Mode::Break {
            line_head(*inner, mode)
        } else {
            Seq::empty()
        },
        _ => Seq::empty(),
    }
}

pub open spec fn line_head_from(parts: Seq<DocView>, from: int, mode: Mode) -> Seq<char>
    decreases parts, parts.len() - from,
{
    if 0 <= from < parts.len() {
        if ends_line(parts[from], mode) {
            line_head(parts[from], mode)
        } else {
            line_head(parts[from], mode) + line_head_from(parts, from + 1, mode)
        }
    } else {
        Seq::empty()
    }
}

/// The text that the pending work `cmds` (the next item last) puts on the
/// current line before the first certain line break.
pub open spec fn line_rest(cmds: Seq<Cmd>) -> Seq<char>
    decreases cmds.len(),
{
    if cmds.len() == 0 {
        Seq::empty()
    } else if ends_line(cmds.last().doc, cmds.last().mode) {
        line_head(cmds.last().doc, cmds.last().mode)
    } else {
        line_head(cmds.last().doc, cmds.last().mode) + line_rest(cmds.drop_last())
    }
}

/// The fits-check of a group with content `parts` that starts at column
/// `col`, with `rest` still to be rendered after it: the content holds no
/// forced break, and its flat text together with what follows on the same
/// line stays within `width`.
pub open spec fn fits(parts: Seq<DocView>, rest: Seq<Cmd>, col: nat, width: nat) -> bool {
    &&& !any_hardline(parts, 0)
    &&& col + flat_text_from(parts, 0).len() + line_rest(rest).len() <= width
}

/// The work items for `parts[from..]`, the first of them last.
pub open spec fn pending(parts: Seq<DocView>, from: int, indent: nat, mode: Mode) -> Seq<Cmd> {
    Seq::new(
        if 0 <= from <= parts.len() {
            (parts.len() - from) as nat
        } else {
            0
        },
        |k: int| Cmd { indent, mode, doc: parts[parts.len() - 1 - k] },
    )
}

/// The state after rendering `doc` from state `at`, with `rest` still to be
/// rendered after it.
pub open spec fn render(
    doc: DocView,
    indent: nat,
    mode: Mode,
    rest: Seq<Cmd>,
    at: Layout,
    budget: Budget,
) -> Layout
    decreases doc, 0nat,
{
    match doc {
        DocView::Text(s) => at.emit(s),
        DocView::Line => if mode == Mode::Flat {
            at.emit(seq![' '])
        } else {
            at.newline(indent)
        },
        DocView::Softline => if mode == Mode::Flat {
            at
        } else {
            at.newline(indent)
        },
        DocView::Hardline => at.newline(indent),
        DocView::IfBreak(inner) => if mode == Mode::Break {
            render(*inner, indent, mode, rest, at, budget)
        } else {
            at
        },
        DocView::Concat(parts) => render_from(parts, 0, indent, mode, rest, at, budget),
        DocView::Indent(parts) => render_from(
            parts,
            0,
            indent + budget.unit,
            mode,
            rest,
            at.enter(indent + budget.unit),
            budget,
        ),
        DocView::Group(parts) => render_from(
            parts,
            0,
            indent,
            group_mode(parts, rest, at.col, budget.width),
            rest,
            at,
            budget,
        ),
    }
}

/// The mode that a group resolves to: flat where it fits, else broken.
pub open spec fn group_mode(parts: Seq<DocView>, rest: Seq<Cmd>, col: nat, width: nat) -> Mode {
    if fits(parts, rest, col, width) {
        Mode::Flat
    } else {
        Mode::Break
    }
}

/// The state after rendering `parts[from..]` in order.
pub open spec fn render_from(
    parts: Seq<DocView>,
    from: int,
    indent: nat,
    mode: Mode,
    rest: Seq<Cmd>,
    at: Layout,
    budget: Budget,
) -> Layout
    decreases parts, parts.len() - from,
{
    if 0 <= from < parts.len() {
        render_from(
            parts,
            from + 1,
            indent,
            mode,
            rest,
            render(
                parts[from],
                indent,
                mode,
                rest + pending(parts, from + 1, indent, mode),
                at,
                budget,
            ),
            budget,
        )
    } else {
        at
    }
}

/// The state after rendering all the pending work `cmds`, the last item
/// first.
pub open spec fn run(cmds: Seq<Cmd>, at: Layout, budget: Budget) -> Layout
    decreases cmds.len(),
{
    if cmds.len() == 0 {
        at
    } else {
        run(
            cmds.drop_last(),
            render(
                cmds.last().doc,
                cmds.last().indent,
                cmds.last().mode,
                cmds.drop_last(),
                at,
                budget,
            ),
            budget,
        )
    }
}

/// The layout of a whole document: rendered from an empty state, at
/// indentation 0, in broken mode.
pub open spec fn layout(doc: DocView, budget: Budget) -> Layout {
    render(doc, 0, Mode::Break, Seq::empty(), Layout::start(), budget)
}

} // verus!
