//! The printers of literals and names.

use vstd::prelude::*;
use vstd::string::*;
use vstd::utf8::{decode_utf8, encode_utf8, is_char_boundary};
use oxc_span::Span as SourceSpan;
use crate::ast::{
    BigintLiteral, BooleanLiteral, NumberLiteral, RegExpFlags, RegExpLiteral, Span, StringLiteral,
};
use crate::doc::{Doc, DocView, array, no_parts, parts_new, parts_push, string_from_chars, text};
use crate::session::{Prettier, Style};

verus! {

/// What stands for a construct that the printers do not cover.
pub open spec fn placeholder_text() -> Seq<char> {
    "/* unsupported */"@
}

/// The document of a construct that the printers do not cover: a marker
/// that no covered construct prints.
pub fn placeholder() -> (doc: Doc)
    ensures
        doc@ == DocView::Text(placeholder_text()),
{
    text("/* unsupported */")
}

/// The lower-case form of an ASCII capital, any other character as it is.
pub open spec fn lower_char(c: char) -> char {
    if 'A' <= c && c <= 'Z' {
        ((c as u8) + 32) as char
    } else {
        c
    }
}

/// `chars` with each ASCII capital in lower case.
pub open spec fn lower(chars: Seq<char>) -> Seq<char> {
    Seq::new(chars.len(), |i: int| lower_char(chars[i]))
}

/// `source` with each ASCII capital in lower case.
pub fn lowercase(source: &str) -> (result: String)
    ensures
        result@ == lower(source@),
{
    let mut out: Vec<char> = Vec::new();
    proof {
        axiom_spec_iter(source);
    }
    for c in it: source.chars()
        invariant
            it.seq() == source@,
            out@ == lower(source@.take(it.index() as int)),
    {
        let lowered = if 'A' <= c && c <= 'Z' {
            ((c as u8) + 32) as char
        } else {
            c
        };
        out.push(lowered);
        assert(out@ =~= lower(source@.take(it.index() + 1)));
    }
    assert(source@.take(source@.len() as int) =~= source@);
    string_from_chars(out)
}

/// How one character of a string's value is written between quotes of
/// kind `quote`: the quote itself, the backslash and the line ends are
/// escaped.
pub open spec fn escaped_char(c: char, quote: char) -> Seq<char> {
    if c == quote || c == '\\' {
        Seq::empty().push('\\').push(c)
    } else if c == '\n' {
        Seq::empty().push('\\').push('n')
    } else if c == '\r' {
        Seq::empty().push('\\').push('r')
    } else {
        Seq::empty().push(c)
    }
}

/// How a string's value is written between quotes of kind `quote`.
pub open spec fn escaped(value: Seq<char>, quote: char) -> Seq<char>
    decreases value.len(),
{
    if value.len() == 0 {
        Seq::empty()
    } else {
        escaped(value.drop_last(), quote) + escaped_char(value.last(), quote)
    }
}

/// Whether `c` is written with an escape between quotes of kind `quote`.
pub open spec fn needs_escape(c: char, quote: char) -> bool {
    c == quote || c == '\\' || c == '\n' || c == '\r'
}

/// A value of which no character needs an escape is written as it is.
pub proof fn lemma_plain_value_is_kept(value: Seq<char>, quote: char)
    requires
        forall|i: int| 0 <= i < value.len() ==> !needs_escape(#[trigger] value[i], quote),
    ensures
        escaped(value, quote) == value,
    decreases value.len(),
{
    if value.len() > 0 {
        let shorter = value.drop_last();
        assert forall|i: int| 0 <= i < shorter.len() implies !needs_escape(
            #[trigger] shorter[i],
            quote,
        ) by {
            assert(shorter[i] == value[i]);
        }
        lemma_plain_value_is_kept(shorter, quote);
        assert(!needs_escape(value[value.len() - 1], quote));
        assert(shorter + Seq::empty().push(value.last()) =~= value);
    }
}

/// In the escaped form of a value, every quote follows a backslash: no
/// quote of the value closes the literal.
pub proof fn lemma_quotes_are_escaped(value: Seq<char>, quote: char)
    requires
        quote != '\\',
    ensures
        forall|i: int|
            0 <= i < escaped(value, quote).len() && #[trigger] escaped(value, quote)[i] == quote
                ==> i > 0 && escaped(value, quote)[i - 1] == '\\',
    decreases value.len(),
{
    if value.len() > 0 {
        let before = escaped(value.drop_last(), quote);
        let added = escaped_char(value.last(), quote);
        let all = escaped(value, quote);
        lemma_quotes_are_escaped(value.drop_last(), quote);
        assert(all == before + added);
        assert forall|i: int| 0 <= i < all.len() && #[trigger] all[i] == quote implies i > 0
            && all[i - 1] == '\\' by {
            if i < before.len() {
                assert(all[i] == before[i]);
                assert(before[i] == quote);
                assert(all[i - 1] == before[i - 1]);
            } else {
                assert(all[i] == added[i - before.len()]);
                if i > before.len() {
                    assert(all[i - 1] == added[i - 1 - before.len()]);
                }
            }
        }
    }
}

/// The quote that delimits string literals.
pub open spec fn quote_of(style: Style) -> char {
    if style.single_quote {
        '\''
    } else {
        '"'
    }
}

/// The text of a string literal: its escaped value between two quotes.
pub open spec fn string_text(value: Seq<char>, quote: char) -> Seq<char> {
    Seq::empty().push(quote) + escaped(value, quote) + Seq::empty().push(quote)
}

/// The text of a string literal with the given value.
pub fn quoted(value: &str, single_quote: bool) -> (result: String)
    ensures
        result@ == string_text(
            value@,
            if single_quote {
                '\''
            } else {
                '"'
            },
        ),
{
    let quote = if single_quote {
        '\''
    } else {
        '"'
    };
    let mut out: Vec<char> = Vec::new();
    out.push(quote);
    proof {
        axiom_spec_iter(value);
        assert(value@.take(0) =~= Seq::<char>::empty());
        assert(out@ =~= Seq::empty().push(quote) + escaped(value@.take(0), quote));
    }
    for c in it: value.chars()
        invariant
            it.seq() == value@,
            out@ == Seq::empty().push(quote) + escaped(value@.take(it.index() as int), quote),
    {
        let ghost before = out@;
        if c == quote || c == '\\' {
            out.push('\\');
            out.push(c);
        } else if c == '\n' {
            out.push('\\');
            out.push('n');
        } else if c == '\r' {
            out.push('\\');
            out.push('r');
        } else {
            out.push(c);
        }
        proof {
            let seen = value@.take(it.index() + 1);
            assert(seen.drop_last() =~= value@.take(it.index() as int));
            assert(seen.last() == c);
            assert(out@ =~= before + escaped_char(c, quote));
            assert(out@ =~= Seq::empty().push(quote) + escaped(seen, quote));
        }
    }
    assert(value@.take(value@.len() as int) =~= value@);
    out.push(quote);
    assert(out@ =~= string_text(value@, quote));
    string_from_chars(out)
}

pub open spec fn string_literal_doc(lit: StringLiteral, style: Style) -> DocView {
    DocView::Text(string_text(lit.value@, quote_of(style)))
}

pub fn format_string_literal(lit: &StringLiteral, p: &Prettier) -> (doc: Doc)
    ensures
        doc@ == string_literal_doc(*lit, p@),
{
    Doc::Str(quoted(lit.value.as_str(), p.options.single_quote))
}

pub open spec fn boolean_literal_doc(lit: BooleanLiteral) -> DocView {
    DocView::Text(
        if lit.value {
            "true"@
        } else {
            "false"@
        },
    )
}

pub fn format_boolean_literal(lit: &BooleanLiteral) -> (doc: Doc)
    ensures
        doc@ == boolean_literal_doc(*lit),
{
    text(
        if lit.value {
            "true"
        } else {
            "false"
        },
    )
}

/// The text of a number: its source text in lower case, with a 0 before a
/// leading point.
pub open spec fn number_text(raw: Seq<char>) -> Seq<char> {
    if raw.len() > 0 && raw[0] == '.' {
        Seq::empty().push('0') + lower(raw)
    } else {
        lower(raw)
    }
}

pub open spec fn number_literal_doc(lit: NumberLiteral) -> DocView {
    if lit.raw@.len() > 0 && lit.raw@[0] == '.' {
        DocView::Concat(
            no_parts().push(DocView::Text("0"@)).push(DocView::Text(lower(lit.raw@))),
        )
    } else {
        DocView::Text(lower(lit.raw@))
    }
}

pub fn format_number_literal(lit: &NumberLiteral) -> (doc: Doc)
    ensures
        doc@ == number_literal_doc(*lit),
{
    let raw = Doc::Str(lowercase(lit.raw.as_str()));
    let leading_point = lit.raw.as_str().unicode_len() > 0 && lit.raw.as_str().get_char(0) == '.';
    if leading_point {
        let mut parts = parts_new();
        parts_push(&mut parts, text("0"));
        parts_push(&mut parts, raw);
        array(parts)
    } else {
        raw
    }
}

/// Whether `span` cuts a piece out of a text with these bytes: its ends are
/// in order and fall between characters.
pub open spec fn span_in(bytes: Seq<u8>, span: Span) -> bool {
    &&& span.start <= span.end
    &&& is_char_boundary(bytes, span.start as int)
    &&& is_char_boundary(bytes, span.end as int)
}

/// The piece that `span` cuts out of `source`.
pub open spec fn span_text(source: Seq<char>, span: Span) -> Seq<char> {
    decode_utf8(encode_utf8(source).subrange(span.start as int, span.end as int))
}

/// The piece of `source` from byte `start` to byte `end`, by
/// `Span::source_text` of oxc_span, which indexes the text with that range:
/// a range whose ends are in order and fall between characters yields those
/// bytes, any other range panics.
#[verifier::external_body]
fn span_source_text<'a>(source: &'a str, start: u32, end: u32) -> (piece: &'a str)
    requires
        start <= end,
        is_char_boundary(source.spec_bytes(), start as int),
        is_char_boundary(source.spec_bytes(), end as int),
    ensures
        piece.spec_bytes() == source.spec_bytes().subrange(start as int, end as int),
{
    SourceSpan::new(start, end).source_text(source)
}

/// The piece that `span` cuts out of `source`, or `None` where the span
/// does not lie in it.
pub fn source_slice<'a>(source: &'a str, span: Span) -> (piece: Option<&'a str>)
    ensures
        match piece {
            Some(piece) => span_in(encode_utf8(source@), span) && piece@ == span_text(
                source@,
                span,
            ),
            None => !span_in(encode_utf8(source@), span),
        },
{
    if span.start <= span.end && source.is_char_boundary(span.start as usize)
        && source.is_char_boundary(span.end as usize) {
        let piece = span_source_text(source, span.start, span.end);
        proof {
            vstd::utf8::encode_utf8_decode_utf8(piece@);
        }
        Some(piece)
    } else {
        None
    }
}

/// The document of a big integer: the piece of the source that its span
/// cuts out, in lower case; the marker of an uncovered construct where the
/// span does not lie in the source.
pub open spec fn bigint_literal_doc(lit: BigintLiteral, style: Style) -> DocView {
    if span_in(encode_utf8(style.source), lit.span) {
        DocView::Text(lower(span_text(style.source, lit.span)))
    } else {
        DocView::Text(placeholder_text())
    }
}

pub fn format_bigint_literal(lit: &BigintLiteral, p: &Prettier) -> (doc: Doc)
    ensures
        doc@ == bigint_literal_doc(*lit, p@),
{
    match source_slice(p.source_text, lit.span) {
        Some(piece) => Doc::Str(lowercase(piece)),
        None => placeholder(),
    }
}

/// The letters of the flags that are set, in alphabetical order.
pub open spec fn flags_text(flags: RegExpFlags) -> Seq<char> {
    let s0 = Seq::<char>::empty();
    let s1 = if flags.has_indices { s0.push('d') } else { s0 };
    let s2 = if flags.global { s1.push('g') } else { s1 };
    let s3 = if flags.ignore_case { s2.push('i') } else { s2 };
    let s4 = if flags.multiline { s3.push('m') } else { s3 };
    let s5 = if flags.dot_all { s4.push('s') } else { s4 };
    let s6 = if flags.unicode { s5.push('u') } else { s5 };
    let s7 = if flags.unicode_sets { s6.push('v') } else { s6 };
    if flags.sticky { s7.push('y') } else { s7 }
}

pub open spec fn regexp_flags_doc(flags: RegExpFlags) -> DocView {
    DocView::Text(flags_text(flags))
}

pub fn format_regexp_flags(flags: &RegExpFlags) -> (doc: Doc)
    ensures
        doc@ == regexp_flags_doc(*flags),
{
    let mut letters: Vec<char> = Vec::new();
    if flags.has_indices {
        letters.push('d');
    }
    if flags.global {
        letters.push('g');
    }
    if flags.ignore_case {
        letters.push('i');
    }
    if flags.multiline {
        letters.push('m');
    }
    if flags.dot_all {
        letters.push('s');
    }
    if flags.unicode {
        letters.push('u');
    }
    if flags.unicode_sets {
        letters.push('v');
    }
    if flags.sticky {
        letters.push('y');
    }
    Doc::Str(string_from_chars(letters))
}

pub open spec fn regexp_literal_doc(lit: RegExpLiteral) -> DocView {
    DocView::Concat(
        no_parts().push(DocView::Text("/"@)).push(DocView::Text(lit.pattern@)).push(
            DocView::Text("/"@),
        ).push(regexp_flags_doc(lit.flags)),
    )
}

pub fn format_regexp_literal(lit: &RegExpLiteral) -> (doc: Doc)
    ensures
        doc@ == regexp_literal_doc(*lit),
{
    let mut parts = parts_new();
    parts_push(&mut parts, text("/"));
    parts_push(&mut parts, text(lit.pattern.as_str()));
    parts_push(&mut parts, text("/"));
    parts_push(&mut parts, format_regexp_flags(&lit.flags));
    array(parts)
}

} // verus!
