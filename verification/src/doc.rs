//! The document model: what could be printed, with the decision where to
//! break lines left open.

use vstd::prelude::*;
use vstd::string::*;

verus! {

/// A document as the layout engine reasons about it.
pub enum DocView {
    /// Literal characters, printed as they are.
    Text(Seq<char>),
    /// The parts one after another.
    Concat(Seq<DocView>),
    /// The parts one after another; breaks inside are indented one unit more.
    Indent(Seq<DocView>),
    /// The parts one after another; their optional breaks are decided together.
    Group(Seq<DocView>),
    /// A space when flat, a line break when broken.
    Line,
    /// Nothing when flat, a line break when broken.
    Softline,
    /// Always a line break.
    Hardline,
    /// Printed only where the enclosing group is broken.
    IfBreak(Box<DocView>),
}

/// A document.
#[derive(Debug)]
pub enum Doc {
    /// Literal characters, printed as they are.
    Str(String),
    /// The parts one after another.
    Array(Vec<Doc>),
    /// The parts one after another; breaks inside are indented one unit more.
    Indent(Vec<Doc>),
    /// The parts one after another; their optional breaks are decided together.
    Group(Vec<Doc>),
    /// A space when flat, a line break when broken.
    Line,
    /// Nothing when flat, a line break when broken.
    Softline,
    /// Always a line break.
    Hardline,
    /// Printed only where the enclosing group is broken.
    IfBreak(Box<Doc>),
}

/// What `join` puts between two items.
#[derive(Debug, Clone, Copy)]
pub enum Separator {
    /// An optional break that is nothing when flat.
    Softline,
    /// A forced break.
    Hardline,
    /// A comma, then an optional break that is a space when flat.
    CommaLine,
    /// A comma and a space.
    CommaSpace,
}

/// The view of one document.
pub open spec fn doc_view(doc: Doc) -> DocView
    decreases doc, 1nat,
{
    match doc {
        Doc::Str(s) => DocView::Text(s@),
        Doc::Array(parts) => DocView::Concat(views(parts@)),
        Doc::Indent(parts) => DocView::Indent(views(parts@)),
        Doc::Group(parts) => DocView::Group(views(parts@)),
        Doc::Line => DocView::Line,
        Doc::Softline => DocView::Softline,
        Doc::Hardline => DocView::Hardline,
        Doc::IfBreak(inner) => DocView::IfBreak(Box::new(doc_view(*inner))),
    }
}

/// The views of the documents of `docs`, in order.
pub open spec fn views(docs: Seq<Doc>) -> Seq<DocView>
    decreases docs, 0nat,
{
    Seq::new(docs.len(), |i: int| if 0 <= i < docs.len() { doc_view(docs[i]) } else { DocView::Line })
}

impl View for Doc {
    type V = DocView;

    open spec fn view(&self) -> DocView {
        doc_view(*self)
    }
}

/// The string made of `chars`, by `String::from_iter`: std documents that
/// it collects the characters in order.
#[verifier::external_body]
pub(crate) fn string_from_chars(chars: Vec<char>) -> (text: String)
    ensures
        text@ == chars@,
{
    String::from_iter(chars)
}

/// The text document with the characters of `s`.
pub open spec fn txt(s: &str) -> DocView {
    DocView::Text(s@)
}

/// `inner` between round brackets.
pub open spec fn wrapped(inner: DocView) -> DocView {
    DocView::Concat(no_parts().push(txt("(")).push(inner).push(txt(")")))
}

/// The empty list of parts.
pub open spec fn no_parts() -> Seq<DocView> {
    Seq::empty()
}

impl Separator {
    /// The document that the separator stands for.
    pub open spec fn doc_spec(self) -> DocView {
        match self {
            Separator::Softline => DocView::Softline,
            Separator::Hardline => DocView::Hardline,
            Separator::CommaLine => DocView::Concat(
                no_parts().push(DocView::Text(","@)).push(DocView::Line),
            ),
            Separator::CommaSpace => DocView::Text(", "@),
        }
    }

    /// The document that the separator stands for.
    pub fn doc(self) -> (doc: Doc)
        ensures
            doc@ == self.doc_spec(),
    {
        match self {
            Separator::Softline => Doc::Softline,
            Separator::Hardline => Doc::Hardline,
            Separator::CommaLine => {
                let mut parts = parts_new();
                parts_push(&mut parts, text(","));
                parts_push(&mut parts, Doc::Line);
                Doc::Array(parts)
            },
            Separator::CommaSpace => text(", "),
        }
    }
}

/// `items` with `separator` between each two of them, and none at the end.
pub open spec fn joined(separator: DocView, items: Seq<DocView>) -> Seq<DocView> {
    Seq::new(
        if items.len() == 0 {
            0
        } else {
            (2 * items.len() - 1) as nat
        },
        |i: int|
            if i % 2 == 0 {
                items[i / 2]
            } else {
                separator
            },
    )
}

/// Joining one more item appends the separator, where an item came before,
/// and the item.
pub proof fn lemma_joined_push(separator: DocView, items: Seq<DocView>, item: DocView)
    ensures
        joined(separator, items.push(item)) == if items.len() == 0 {
            no_parts().push(item)
        } else {
            joined(separator, items).push(separator).push(item)
        },
{
    if items.len() == 0 {
        assert(joined(separator, items.push(item)) =~= no_parts().push(item));
    } else {
        assert(joined(separator, items.push(item)) =~= joined(separator, items).push(
            separator,
        ).push(item));
    }
}

/// An empty list of parts.
pub fn parts_new() -> (parts: Vec<Doc>)
    ensures
        parts@.len() == 0,
        views(parts@) == no_parts(),
{
    let parts = Vec::new();
    assert(views(parts@) =~= Seq::<DocView>::empty());
    parts
}

/// Appends one part.
pub fn parts_push(parts: &mut Vec<Doc>, doc: Doc)
    ensures
        final(parts)@ == old(parts)@.push(doc),
        views(final(parts)@) == views(old(parts)@).push(doc@),
{
    parts.push(doc);
    assert(views(parts@) =~= views(old(parts)@).push(doc@));
}

/// Appends the parts of `more`, in order.
pub fn parts_extend(parts: &mut Vec<Doc>, more: Vec<Doc>)
    ensures
        views(final(parts)@) == views(old(parts)@) + views(more@),
{
    let mut more = more;
    let ghost added = more@;
    parts.append(&mut more);
    assert(views(parts@) =~= views(old(parts)@) + views(added));
}

/// The text `s`.
pub fn text(s: &str) -> (doc: Doc)
    ensures
        doc@ == DocView::Text(s@),
{
    Doc::Str(String::from_str(s))
}

/// The parts one after another, without a break of their own.
pub fn array(parts: Vec<Doc>) -> (doc: Doc)
    ensures
        doc@ == DocView::Concat(views(parts@)),
{
    Doc::Array(parts)
}

/// The parts, with the breaks inside them indented one unit more.
pub fn indent(parts: Vec<Doc>) -> (doc: Doc)
    ensures
        doc@ == DocView::Indent(views(parts@)),
{
    Doc::Indent(parts)
}

/// The parts, with their optional breaks decided together.
pub fn group(parts: Vec<Doc>) -> (doc: Doc)
    ensures
        doc@ == DocView::Group(views(parts@)),
{
    Doc::Group(parts)
}

/// `inner`, printed only where the enclosing group is broken.
pub fn if_break(inner: Doc) -> (doc: Doc)
    ensures
        doc@ == DocView::IfBreak(Box::new(inner@)),
{
    Doc::IfBreak(Box::new(inner))
}

/// `inner` between round brackets.
pub fn parenthesize(inner: Doc) -> (doc: Doc)
    ensures
        doc@ == wrapped(inner@),
{
    let mut parts = parts_new();
    parts_push(&mut parts, text("("));
    parts_push(&mut parts, inner);
    parts_push(&mut parts, text(")"));
    array(parts)
}

/// `docs` with the separator between each two of them, and none at the end.
pub fn join(separator: Separator, docs: Vec<Doc>) -> (parts: Vec<Doc>)
    ensures
        views(parts@) == joined(separator.doc_spec(), views(docs@)),
{
    let ghost items = views(docs@);
    let mut docs = docs;
    let mut rest: Vec<Doc> = Vec::new();
    while docs.len() > 0
        invariant
            views(docs@) + views(rest@).reverse() == items,
        decreases docs.len(),
    {
        let ghost held = docs@;
        let ghost seen = rest@;
        let doc = docs.pop().unwrap();
        rest.push(doc);
        assert(views(docs@) + views(rest@).reverse() =~= views(held) + views(seen).reverse());
    }
    assert(views(rest@).reverse() =~= items);
    let mut parts = parts_new();
    let ghost mut done: Seq<DocView> = Seq::empty();
    assert(joined(separator.doc_spec(), done) =~= Seq::<DocView>::empty());
    while rest.len() > 0
        invariant
            done + views(rest@).reverse() == items,
            views(parts@) == joined(separator.doc_spec(), done),
        decreases rest.len(),
    {
        let ghost held = rest@;
        let doc = rest.pop().unwrap();
        if parts.len() > 0 {
            parts_push(&mut parts, separator.doc());
        }
        proof {
            lemma_joined_push(separator.doc_spec(), done, doc@);
            assert(views(parts@).len() == 0 <==> done.len() == 0);
            assert(done.push(doc@) + views(rest@).reverse() =~= done + views(held).reverse());
            done = done.push(doc@);
        }
        parts_push(&mut parts, doc);
    }
    assert(done =~= items);
    parts
}

} // verus!
