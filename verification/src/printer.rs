//! The layout engine: renders a document to text under a line-width budget,
//! on an explicit work stack.

use vstd::prelude::*;
use vstd::string::*;
use crate::doc::{Doc, DocView, string_from_chars, views};
use crate::layout::{
    Cmd, Layout, Mode, any_hardline, fits, flat_text_from, has_hardline, layout, line_rest,
    pending, render, run, spaces, trim_end,
};
use crate::laws::lemma_run_monotone;
use crate::options::PrettierOptions;
use crate::worklist::{
    Command, lemma_flat_len_pending, lemma_flat_push, lemma_hardline_pending,
    lemma_line_rest_pending, lemma_run_pending, lemma_run_push, lemma_weight_pending,
    lemma_weight_push, push_parts, stack_flat_len, stack_hardline, stack_view, weight,
};

verus! {

/// Why a document could not be rendered.
#[derive(Debug, Clone, Copy, PartialEq, Eq, Structural)]
pub enum LayoutError {
    /// An indentation passed `usize::MAX` columns.
    IndentOverflow,
}

impl LayoutError {
    /// A sentence that says what went wrong.
    pub fn message(&self) -> (text: &'static str)
        ensures
            text@ == "indentation exceeds the largest column"@,
    {
        match self {
            LayoutError::IndentOverflow => "indentation exceeds the largest column",
        }
    }
}

/// Appends the characters of `text`.
fn push_text(out: &mut Vec<char>, text: &str)
    ensures
        final(out)@ == old(out)@ + text@,
{
    proof {
        axiom_spec_iter(text);
    }
    for c in it: text.chars()
        invariant
            out@ == old(out)@ + text@.take(it.index() as int),
            it.seq() == text@,
    {
        out.push(c);
        assert(text@.take(it.index() + 1) =~= text@.take(it.index() as int).push(c));
    }
    assert(text@.take(text@.len() as int) =~= text@);
}

/// Drops the blanks at the end of `out`.
fn trim_blanks(out: &mut Vec<char>)
    ensures
        final(out)@ == trim_end(old(out)@),
{
    while out.len() > 0 && (out[out.len() - 1] == ' ' || out[out.len() - 1] == '\t')
        invariant
            trim_end(out@) == trim_end(old(out)@),
        decreases out.len(),
    {
        out.pop();
    }
}

/// Appends `n` spaces.
fn push_spaces(out: &mut Vec<char>, n: usize)
    ensures
        final(out)@ == old(out)@ + spaces(n as nat),
{
    let mut i: usize = 0;
    while i < n
        invariant
            i <= n,
            out@ == old(out)@ + spaces(i as nat),
        decreases n - i,
    {
        out.push(' ');
        i += 1;
        assert(out@ =~= old(out)@ + spaces(i as nat));
    }
}

/// Whether a forced break occurs anywhere inside `doc`.
pub fn contains_hardline(doc: &Doc) -> (found: bool)
    ensures
        found == has_hardline(doc@),
{
    let mut stack: Vec<Command> = Vec::new();
    stack.push(Command { indent: 0, mode: Mode::Flat, doc });
    proof {
        let top = Cmd { indent: 0, mode: Mode::Flat, doc: doc@ };
        assert(stack_view(stack@) =~= Seq::<Cmd>::empty().push(top));
        lemma_flat_push(Seq::empty(), top);
    }
    while stack.len() > 0
        invariant
            has_hardline(doc@) == stack_hardline(stack_view(stack@)),
        decreases weight(stack_view(stack@)),
    {
        let ghost before = stack_view(stack@);
        let cmd = stack.pop().unwrap();
        proof {
            assert(stack_view(stack@) =~= before.drop_last());
            assert(before.last() == cmd@);
        }
        match cmd.doc {
            Doc::Hardline => {
                return true;
            },
            Doc::Array(parts) | Doc::Indent(parts) | Doc::Group(parts) => {
                let ghost base = stack_view(stack@);
                push_parts(&mut stack, parts, 0, Mode::Flat);
                proof {
                    lemma_hardline_pending(base, views(parts@), 0, 0, Mode::Flat);
                    lemma_weight_pending(base, views(parts@), 0, 0, Mode::Flat);
                }
            },
            Doc::IfBreak(inner) => {
                let ghost base = stack_view(stack@);
                stack.push(Command { indent: 0, mode: Mode::Flat, doc: inner });
                proof {
                    let top = Cmd { indent: 0, mode: Mode::Flat, doc: inner@ };
                    assert(stack_view(stack@) =~= base.push(top));
                    lemma_flat_push(base, top);
                    lemma_weight_push(base, top);
                }
            },
            _ => {},
        }
    }
    false
}

/// The budget that is left after the flat text of `parts`, or `None` where
/// the parts hold a forced break or their flat text is longer than `budget`.
fn flat_budget(parts: &Vec<Doc>, budget: usize) -> (left: Option<usize>)
    ensures
        match left {
            Some(left) => !any_hardline(views(parts@), 0) && flat_text_from(
                views(parts@),
                0,
            ).len() + left == budget,
            None => any_hardline(views(parts@), 0) || flat_text_from(views(parts@), 0).len()
                > budget,
        },
{
    let ghost docs = views(parts@);
    let mut stack: Vec<Command> = Vec::new();
    let mut left: usize = budget;
    push_parts(&mut stack, parts, 0, Mode::Flat);
    proof {
        assert(stack_view(Seq::<Command>::empty()) =~= Seq::<Cmd>::empty());
        lemma_hardline_pending(Seq::empty(), docs, 0, 0, Mode::Flat);
        lemma_flat_len_pending(Seq::empty(), docs, 0, 0, Mode::Flat);
    }
    while stack.len() > 0
        invariant
            docs == views(parts@),
            left <= budget,
            any_hardline(docs, 0) == stack_hardline(stack_view(stack@)),
            flat_text_from(docs, 0).len() == (budget - left) + stack_flat_len(stack_view(stack@)),
        decreases weight(stack_view(stack@)),
    {
        let ghost before = stack_view(stack@);
        let cmd = stack.pop().unwrap();
        let ghost base = stack_view(stack@);
        proof {
            assert(base =~= before.drop_last());
            assert(before.last() == cmd@);
        }
        match cmd.doc {
            Doc::Str(s) => {
                let n = s.as_str().unicode_len();
                if n > left {
                    return None;
                }
                left -= n;
            },
            Doc::Line => {
                if left == 0 {
                    return None;
                }
                left -= 1;
            },
            Doc::Softline => {},
            Doc::Hardline => {
                return None;
            },
            Doc::IfBreak(inner) => {
                if contains_hardline(inner) {
                    return None;
                }
            },
            Doc::Array(inner) | Doc::Indent(inner) | Doc::Group(inner) => {
                push_parts(&mut stack, inner, 0, Mode::Flat);
                proof {
                    lemma_hardline_pending(base, views(inner@), 0, 0, Mode::Flat);
                    lemma_flat_len_pending(base, views(inner@), 0, 0, Mode::Flat);
                    lemma_weight_pending(base, views(inner@), 0, 0, Mode::Flat);
                }
            },
        }
    }
    Some(left)
}

/// Whether what the pending work `rest` puts on the current line, before
/// the first certain line break, is at most `budget` columns long.
fn rest_fits(rest: &Vec<Command>, budget: usize) -> (ok: bool)
    ensures
        ok == (line_rest(stack_view(rest@)).len() <= budget),
{
    let ghost all = stack_view(rest@);
    let mut below: usize = rest.len();
    let mut scan: Vec<Command> = Vec::new();
    let mut left: usize = budget;
    proof {
        assert(stack_view(rest@.take(below as int)) + stack_view(scan@) =~= all);
    }
    loop
        invariant
            below <= rest.len(),
            left <= budget,
            line_rest(stack_view(rest@)).len() == (budget - left) + line_rest(
                stack_view(rest@.take(below as int)) + stack_view(scan@),
            ).len(),
        decreases weight(stack_view(rest@.take(below as int)) + stack_view(scan@)),
    {
        let ghost before = stack_view(rest@.take(below as int)) + stack_view(scan@);
        let cmd: Command;
        if scan.len() > 0 {
            cmd = scan.pop().unwrap();
        } else if below > 0 {
            below -= 1;
            cmd = rest[below];
        } else {
            proof {
                assert(before =~= Seq::<Cmd>::empty());
            }
            return true;
        }
        let ghost base = stack_view(rest@.take(below as int)) + stack_view(scan@);
        proof {
            assert(base =~= before.drop_last());
            assert(before.last() == cmd@);
        }
        match cmd.doc {
            Doc::Str(s) => {
                let n = s.as_str().unicode_len();
                if n > left {
                    return false;
                }
                left -= n;
            },
            Doc::Line => {
                match cmd.mode {
                    Mode::Break => {
                        return true;
                    },
                    Mode::Flat => {
                        if left == 0 {
                            return false;
                        }
                        left -= 1;
                    },
                }
            },
            Doc::Softline => {
                match cmd.mode {
                    Mode::Break => {
                        return true;
                    },
                    Mode::Flat => {},
                }
            },
            Doc::Hardline => {
                return true;
            },
            Doc::IfBreak(inner) => {
                match cmd.mode {
                    Mode::Break => {
                        scan.push(Command { indent: cmd.indent, mode: Mode::Break, doc: inner });
                        proof {
                            let top = Cmd { indent: cmd.indent as nat, mode: Mode::Break, doc: inner@ };
                            let after = stack_view(rest@.take(below as int)) + stack_view(scan@);
                            assert(after =~= base.push(top));
                            assert(base.push(top).drop_last() =~= base);
                            lemma_weight_push(base, top);
                        }
                    },
                    Mode::Flat => {},
                }
            },
            Doc::Array(inner) | Doc::Indent(inner) => {
                let ghost held = stack_view(scan@);
                push_parts(&mut scan, inner, cmd.indent, cmd.mode);
                proof {
                    let items = pending(views(inner@), 0, cmd.indent as nat, cmd.mode);
                    let after = stack_view(rest@.take(below as int)) + stack_view(scan@);
                    assert(after =~= base + items);
                    lemma_line_rest_pending(base, views(inner@), 0, cmd.indent as nat, cmd.mode);
                    lemma_weight_pending(base, views(inner@), 0, cmd.indent as nat, cmd.mode);
                }
            },
            Doc::Group(inner) => {
                push_parts(&mut scan, inner, cmd.indent, Mode::Flat);
                proof {
                    let items = pending(views(inner@), 0, cmd.indent as nat, Mode::Flat);
                    let after = stack_view(rest@.take(below as int)) + stack_view(scan@);
                    assert(after =~= base + items);
                    lemma_line_rest_pending(base, views(inner@), 0, cmd.indent as nat, Mode::Flat);
                    lemma_weight_pending(base, views(inner@), 0, cmd.indent as nat, Mode::Flat);
                }
            },
        }
    }
}

/// The fits-check of a group with content `parts` that starts at column
/// `col`, with `rest` still to be rendered after it.
pub fn group_fits(parts: &Vec<Doc>, rest: &Vec<Command>, col: usize, width: usize) -> (ok: bool)
    ensures
        ok == fits(views(parts@), stack_view(rest@), col as nat, width as nat),
{
    if col > width {
        return false;
    }
    match flat_budget(parts, width - col) {
        None => false,
        Some(left) => rest_fits(rest, left),
    }
}

/// Closes the current line, without blanks at its end, and opens a new one
/// with `indent` spaces.
fn push_newline(out: &mut Vec<char>, indent: usize)
    ensures
        final(out)@ == trim_end(old(out)@).push('\n') + spaces(indent as nat),
{
    trim_blanks(out);
    out.push('\n');
    push_spaces(out, indent);
}

/// The text that `doc` renders to under the widths of `options`, or the
/// error where an indentation passes `usize::MAX` columns.
pub fn print(doc: &Doc, options: &PrettierOptions) -> (result: Result<String, LayoutError>)
    ensures
        match result {
            Ok(text) => {
                &&& !layout(doc@, options.budget()).overflow
                &&& text@ == layout(doc@, options.budget()).out
            },
            Err(error) => layout(doc@, options.budget()).overflow,
        },
{
    let ghost budget = options.budget();
    let ghost goal = layout(doc@, budget);
    let mut stack: Vec<Command> = Vec::new();
    let mut out: Vec<char> = Vec::new();
    let mut col: usize = 0;
    let ghost mut at = Layout::start();
    stack.push(Command { indent: 0, mode: Mode::Break, doc });
    proof {
        let top = Cmd { indent: 0, mode: Mode::Break, doc: doc@ };
        assert(stack_view(stack@) =~= Seq::<Cmd>::empty().push(top));
        lemma_run_push(Seq::empty(), top, at, budget);
    }
    while stack.len() > 0
        invariant
            budget == options.budget(),
            goal == layout(doc@, budget),
            out@ == at.out,
            col == at.col,
            at.col <= at.out.len(),
            !at.overflow,
            run(stack_view(stack@), at, budget) == goal,
        decreases weight(stack_view(stack@)),
    {
        let ghost before = stack_view(stack@);
        let cmd = stack.pop().unwrap();
        let ghost base = stack_view(stack@);
        proof {
            assert(base =~= before.drop_last());
            assert(before.last() == cmd@);
        }
        match cmd.doc {
            Doc::Str(s) => {
                let held = out.len();
                push_text(&mut out, s.as_str());
                col = col + (out.len() - held);
                proof {
                    at = at.emit(s@);
                }
            },
            Doc::Line => {
                match cmd.mode {
                    Mode::Flat => {
                        out.push(' ');
                        // The column is at most the length, which fits a usize.
                        let filled = out.len();
                        col = col + 1;
                        assert(col <= filled);
                        proof {
                            at = at.emit(seq![' ']);
                            assert(out@ =~= at.out);
                        }
                    },
                    Mode::Break => {
                        push_newline(&mut out, cmd.indent);
                        col = cmd.indent;
                        proof {
                            at = at.newline(cmd.indent as nat);
                        }
                    },
                }
            },
            Doc::Softline => {
                match cmd.mode {
                    Mode::Flat => {},
                    Mode::Break => {
                        push_newline(&mut out, cmd.indent);
                        col = cmd.indent;
                        proof {
                            at = at.newline(cmd.indent as nat);
                        }
                    },
                }
            },
            Doc::Hardline => {
                push_newline(&mut out, cmd.indent);
                col = cmd.indent;
                proof {
                    at = at.newline(cmd.indent as nat);
                }
            },
            Doc::IfBreak(inner) => {
                match cmd.mode {
                    Mode::Flat => {},
                    Mode::Break => {
                        stack.push(Command { indent: cmd.indent, mode: Mode::Break, doc: inner });
                        proof {
                            let top = Cmd {
                                indent: cmd.indent as nat,
                                mode: Mode::Break,
                                doc: inner@,
                            };
                            assert(stack_view(stack@) =~= base.push(top));
                            lemma_run_push(base, top, at, budget);
                            lemma_weight_push(base, top);
                        }
                    },
                }
            },
            Doc::Array(parts) => {
                push_parts(&mut stack, parts, cmd.indent, cmd.mode);
                proof {
                    lemma_run_pending(
                        base,
                        views(parts@),
                        0,
                        cmd.indent as nat,
                        cmd.mode,
                        at,
                        budget,
                    );
                    lemma_weight_pending(base, views(parts@), 0, cmd.indent as nat, cmd.mode);
                }
            },
            Doc::Indent(parts) => {
                if options.indent_width > usize::MAX - cmd.indent {
                    proof {
                        let deeper = cmd.indent as nat + budget.unit;
                        let failed = render(
                            cmd@.doc,
                            cmd@.indent,
                            cmd@.mode,
                            base,
                            at,
                            budget,
                        );
                        crate::laws::lemma_render_from_monotone(
                            views(parts@),
                            0,
                            deeper,
                            cmd.mode,
                            base,
                            at.enter(deeper),
                            budget,
                        );
                        assert(at.enter(deeper).overflow);
                        assert(cmd@.doc == DocView::Indent(views(parts@)));
                        assert(failed.overflow);
                        assert(before =~= base.push(cmd@));
                        lemma_run_push(base, cmd@, at, budget);
                        lemma_run_monotone(base, failed, budget);
                    }
                    return Err(LayoutError::IndentOverflow);
                }
                let deeper = cmd.indent + options.indent_width;
                push_parts(&mut stack, parts, deeper, cmd.mode);
                proof {
                    at = at.enter(deeper as nat);
                    lemma_run_pending(base, views(parts@), 0, deeper as nat, cmd.mode, at, budget);
                    lemma_weight_pending(base, views(parts@), 0, deeper as nat, cmd.mode);
                }
            },
            Doc::Group(parts) => {
                let mode = if group_fits(parts, &stack, col, options.print_width) {
                    Mode::Flat
                } else {
                    Mode::Break
                };
                push_parts(&mut stack, parts, cmd.indent, mode);
                proof {
                    lemma_run_pending(base, views(parts@), 0, cmd.indent as nat, mode, at, budget);
                    lemma_weight_pending(base, views(parts@), 0, cmd.indent as nat, mode);
                }
            },
        }
    }
    Ok(string_from_chars(out))
}

} // verus!
