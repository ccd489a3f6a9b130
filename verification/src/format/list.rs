//! Lists between brackets: arguments, elements, properties, parameters.

use vstd::prelude::*;
use crate::doc::{
    Doc, DocView, Separator, array, group, if_break, indent, join, joined, lemma_joined_push,
    no_parts, parts_new, parts_push, text, txt, views,
};
use crate::laws::{lemma_flat_text_concat, lemma_group_breaks_all_or_none, lemma_own_breaks_concat};
use crate::layout::{
    Budget, Cmd, Layout, Mode, fits, flat_text, flat_text_from, own_breaks, own_breaks_from,
    render,
};

verus! {

/// The padding inside the brackets of a list.
#[derive(Debug, Clone, Copy, PartialEq, Eq, Structural)]
pub enum Padding {
    /// Nothing when flat.
    Tight,
    /// A space when flat.
    Spaced,
}

impl Padding {
    pub open spec fn doc_spec(self) -> DocView {
        match self {
            Padding::Tight => DocView::Softline,
            Padding::Spaced => DocView::Line,
        }
    }

    pub fn doc(self) -> (doc: Doc)
        ensures
            doc@ == self.doc_spec(),
    {
        match self {
            Padding::Tight => Doc::Softline,
            Padding::Spaced => Doc::Line,
        }
    }
}

/// A list between brackets. Without items it is the two brackets. With
/// items it is one group: flat, the items are separated by a comma and a
/// space; broken, each item stands on a line of its own, indented, and a
/// comma follows the last one where `trailing_comma` allows it.
pub open spec fn bracketed_doc(
    open: Seq<char>,
    close: Seq<char>,
    padding: Padding,
    items: Seq<DocView>,
    trailing_comma: bool,
) -> DocView {
    if items.len() == 0 {
        DocView::Concat(no_parts().push(DocView::Text(open)).push(DocView::Text(close)))
    } else {
        let inner = no_parts().push(padding.doc_spec()).push(
            DocView::Concat(joined(Separator::CommaLine.doc_spec(), items)),
        );
        let inner = if trailing_comma {
            inner.push(DocView::IfBreak(Box::new(txt(","))))
        } else {
            inner
        };
        DocView::Group(
            no_parts().push(DocView::Text(open)).push(DocView::Indent(inner)).push(
                padding.doc_spec(),
            ).push(DocView::Text(close)),
        )
    }
}

/// A list between brackets.
pub fn bracketed(open: &str, close: &str, padding: Padding, items: Vec<Doc>, trailing_comma: bool) -> (doc:
    Doc)
    ensures
        doc@ == bracketed_doc(open@, close@, padding, views(items@), trailing_comma),
{
    if items.len() == 0 {
        let mut parts = parts_new();
        parts_push(&mut parts, text(open));
        parts_push(&mut parts, text(close));
        array(parts)
    } else {
        let mut inner = parts_new();
        parts_push(&mut inner, padding.doc());
        parts_push(&mut inner, array(join(Separator::CommaLine, items)));
        if trailing_comma {
            parts_push(&mut inner, if_break(text(",")));
        }
        let mut parts = parts_new();
        parts_push(&mut parts, text(open));
        parts_push(&mut parts, indent(inner));
        parts_push(&mut parts, padding.doc());
        parts_push(&mut parts, text(close));
        group(parts)
    }
}

/// The padding on one line.
pub open spec fn padding_text(padding: Padding) -> Seq<char> {
    match padding {
        Padding::Tight => Seq::empty(),
        Padding::Spaced => Seq::empty().push(' '),
    }
}

/// The flat texts of `items[..upto]`, with a comma and a space between
/// each two of them and none at the end.
pub open spec fn comma_separated(items: Seq<DocView>, upto: int) -> Seq<char>
    decreases upto,
{
    if upto <= 0 || upto > items.len() {
        Seq::empty()
    } else if upto == 1 {
        flat_text(items[0])
    } else {
        comma_separated(items, upto - 1) + Seq::empty().push(',').push(' ') + flat_text(
            items[upto - 1],
        )
    }
}

/// The parts of the group of a list that has items.
pub open spec fn list_parts(
    open: Seq<char>,
    close: Seq<char>,
    padding: Padding,
    items: Seq<DocView>,
    trailing_comma: bool,
) -> Seq<DocView> {
    let inner = no_parts().push(padding.doc_spec()).push(
        DocView::Concat(joined(Separator::CommaLine.doc_spec(), items)),
    );
    let inner = if trailing_comma {
        inner.push(DocView::IfBreak(Box::new(txt(","))))
    } else {
        inner
    };
    no_parts().push(DocView::Text(open)).push(DocView::Indent(inner)).push(
        padding.doc_spec(),
    ).push(DocView::Text(close))
}

/// The first `upto` items, joined by a comma and an optional break, have
/// the comma-separated text as their flat text, and hold an optional break
/// between each two items.
pub proof fn lemma_joined_items(items: Seq<DocView>, upto: int)
    requires
        0 <= upto <= items.len(),
    ensures
        flat_text_from(joined(Separator::CommaLine.doc_spec(), items.take(upto)), 0)
            == comma_separated(items, upto),
        upto > 0 ==> own_breaks_from(
            joined(Separator::CommaLine.doc_spec(), items.take(upto)),
            0,
        ) >= upto - 1,
    decreases upto,
{
    let separator = Separator::CommaLine.doc_spec();
    reveal_strlit(",");
    if upto == 0 {
        assert(joined(separator, items.take(0)) =~= no_parts());
    } else {
        let before = items.take(upto - 1);
        let item = items[upto - 1];
        assert(items.take(upto) =~= before.push(item));
        lemma_joined_push(separator, before, item);
        lemma_joined_items(items, upto - 1);
        let one = no_parts().push(item);
        assert(flat_text_from(one, 0) =~= flat_text(item)) by {
            assert(flat_text_from(one, 0) == flat_text(one[0]) + flat_text_from(one, 1));
        }
        assert(own_breaks_from(one, 0) >= 0);
        if upto == 1 {
            assert(joined(separator, items.take(upto)) == one);
        } else {
            let head = joined(separator, before);
            let tail = no_parts().push(separator).push(item);
            assert(joined(separator, items.take(upto)) =~= head + tail);
            lemma_flat_text_concat(head, tail, 0);
            lemma_own_breaks_concat(head, tail, 0);
            let comma = no_parts().push(DocView::Text(","@)).push(DocView::Line);
            assert(separator == DocView::Concat(comma));
            assert(flat_text(separator) =~= Seq::empty().push(',').push(' ')) by {
                assert(flat_text_from(comma, 0) == flat_text(comma[0]) + flat_text_from(comma, 1));
                assert(flat_text_from(comma, 1) == flat_text(comma[1]) + flat_text_from(comma, 2));
                assert(","@ =~= Seq::empty().push(','));
            }
            assert(own_breaks(separator) == 1) by {
                assert(own_breaks_from(comma, 0) == own_breaks(comma[0]) + own_breaks_from(
                    comma,
                    1,
                ));
                assert(own_breaks_from(comma, 1) == own_breaks(comma[1]) + own_breaks_from(
                    comma,
                    2,
                ));
            }
            assert(flat_text_from(tail, 0) =~= flat_text(separator) + flat_text(item)) by {
                assert(flat_text_from(tail, 0) == flat_text(tail[0]) + flat_text_from(tail, 1));
                assert(flat_text_from(tail, 1) == flat_text(tail[1]) + flat_text_from(tail, 2));
            }
            assert(own_breaks_from(tail, 0) >= 1) by {
                assert(own_breaks_from(tail, 0) == own_breaks(tail[0]) + own_breaks_from(tail, 1));
            }
            assert(comma_separated(items, upto - 1) + (flat_text(separator) + flat_text(item))
                =~= comma_separated(items, upto));
        }
    }
}

/// The trailing comma law: a list that has items is one group. Where the
/// group fits, the list is added to the current line as its items with a
/// comma and a space between them, and no comma after the last one. Where
/// it does not, a line break stands before every item and before the
/// closing bracket: there are at least as many line breaks as the list has
/// items, and one more.
pub proof fn lemma_list_breaks_all_or_none(
    open: Seq<char>,
    close: Seq<char>,
    padding: Padding,
    items: Seq<DocView>,
    trailing_comma: bool,
    indent: nat,
    mode: Mode,
    rest: Seq<Cmd>,
    at: Layout,
    budget: Budget,
)
    requires
        items.len() > 0,
    ensures
        bracketed_doc(open, close, padding, items, trailing_comma) == DocView::Group(
            list_parts(open, close, padding, items, trailing_comma),
        ),
        fits(
            list_parts(open, close, padding, items, trailing_comma),
            rest,
            at.col,
            budget.width,
        ) ==> {
            &&& render(
                bracketed_doc(open, close, padding, items, trailing_comma),
                indent,
                mode,
                rest,
                at,
                budget,
            ).lines == at.lines
            &&& render(
                bracketed_doc(open, close, padding, items, trailing_comma),
                indent,
                mode,
                rest,
                at,
                budget,
            ).out == at.out + (open + padding_text(padding) + comma_separated(
                items,
                items.len() as int,
            ) + padding_text(padding) + close)
        },
        !fits(
            list_parts(open, close, padding, items, trailing_comma),
            rest,
            at.col,
            budget.width,
        ) ==> render(
            bracketed_doc(open, close, padding, items, trailing_comma),
            indent,
            mode,
            rest,
            at,
            budget,
        ).lines >= at.lines + items.len() + 1,
{
    let parts = list_parts(open, close, padding, items, trailing_comma);
    let list = DocView::Concat(joined(Separator::CommaLine.doc_spec(), items));
    let inner = parts[1]->Indent_0;
    lemma_group_breaks_all_or_none(parts, indent, mode, rest, at, budget);
    lemma_joined_items(items, items.len() as int);
    assert(items.take(items.len() as int) =~= items);
    reveal_strlit(",");
    assert(inner[0] == padding.doc_spec());
    assert(inner[1] == list);
    assert(flat_text(padding.doc_spec()) =~= padding_text(padding));
    assert(own_breaks(padding.doc_spec()) == 1);
    assert(flat_text_from(inner, 2) =~= Seq::<char>::empty()) by {
        if trailing_comma {
            assert(flat_text_from(inner, 2) == flat_text(inner[2]) + flat_text_from(inner, 3));
        }
    }
    assert(flat_text_from(inner, 0) =~= padding_text(padding) + comma_separated(
        items,
        items.len() as int,
    )) by {
        assert(flat_text_from(inner, 0) == flat_text(inner[0]) + flat_text_from(inner, 1));
        assert(flat_text_from(inner, 1) == flat_text(inner[1]) + flat_text_from(inner, 2));
    }
    assert(own_breaks_from(inner, 0) >= items.len()) by {
        assert(own_breaks_from(inner, 0) == own_breaks(inner[0]) + own_breaks_from(inner, 1));
        assert(own_breaks_from(inner, 1) == own_breaks(inner[1]) + own_breaks_from(inner, 2));
    }
    assert(flat_text_from(parts, 0) =~= open + padding_text(padding) + comma_separated(
        items,
        items.len() as int,
    ) + padding_text(padding) + close) by {
        assert(flat_text_from(parts, 0) == flat_text(parts[0]) + flat_text_from(parts, 1));
        assert(flat_text_from(parts, 1) == flat_text(parts[1]) + flat_text_from(parts, 2));
        assert(flat_text_from(parts, 2) == flat_text(parts[2]) + flat_text_from(parts, 3));
        assert(flat_text_from(parts, 3) == flat_text(parts[3]) + flat_text_from(parts, 4));
    }
    assert(own_breaks_from(parts, 0) >= items.len() + 1) by {
        assert(own_breaks_from(parts, 0) == own_breaks(parts[0]) + own_breaks_from(parts, 1));
        assert(own_breaks_from(parts, 1) == own_breaks(parts[1]) + own_breaks_from(parts, 2));
        assert(own_breaks_from(parts, 2) == own_breaks(parts[2]) + own_breaks_from(parts, 3));
    }
}

} // verus!
