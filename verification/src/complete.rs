//! What makes a page a complete HTML document, and when an assembled page
//! is one.
//!
//! A page takes its title, its stylesheet and its body as they are. So it
//! is complete exactly when none of them holds one of the tags that may
//! stand in a page only once.

use vstd::prelude::*;
use crate::document::{
    body_close,
    body_open,
    charset,
    doctype,
    document,
    head_close,
    head_open,
    html_close,
    html_open,
    line_break,
    link_close,
    link_open,
    style_close,
    style_open,
    title_close,
    title_open,
    StylesheetView,
};
use crate::text::{
    brackets_at_ends,
    contains,
    ends_with,
    is_tag,
    lemma_occurrences_stay,
    lemma_tag_in_concat,
    lemma_tag_in_piece,
    occurs_at,
    occurs_once,
    occurs_only_at,
    precedes,
    sealed,
    starts_with,
};

verus! {

/// The tags that open and close the head, the title and the body.
pub open spec fn is_page_tag(tag: Seq<char>) -> bool {
    ||| tag == head_open()
    ||| tag == title_open()
    ||| tag == title_close()
    ||| tag == head_close()
    ||| tag == body_open()
    ||| tag == body_close()
}

/// `text` holds none of the page tags.
pub open spec fn free_of_page_tags(text: Seq<char>) -> bool {
    forall|tag: Seq<char>| is_page_tag(tag) ==> !contains(text, tag)
}

/// A complete page: it starts with the doctype and ends where `<html>`
/// closes; head, title and body are each opened once and closed once; the
/// title lies in the head, and the head ends before the body starts.
pub open spec fn is_complete_page(page: Seq<char>) -> bool {
    &&& starts_with(page, doctype())
    &&& ends_with(page, html_close())
    &&& occurs_once(page, head_open())
    &&& occurs_once(page, title_open())
    &&& occurs_once(page, title_close())
    &&& occurs_once(page, head_close())
    &&& occurs_once(page, body_open())
    &&& occurs_once(page, body_close())
    &&& precedes(page, head_open(), title_open())
    &&& precedes(page, title_open(), title_close())
    &&& precedes(page, title_close(), head_close())
    &&& precedes(page, head_close(), body_open())
    &&& precedes(page, body_open(), body_close())
}

/// The fixed pieces of a page have their angle brackets at their ends.
proof fn lemma_pieces_are_bracketed()
    ensures
        brackets_at_ends(doctype()),
        brackets_at_ends(html_open()),
        brackets_at_ends(head_open()),
        brackets_at_ends(charset()),
        brackets_at_ends(title_open()),
        brackets_at_ends(title_close()),
        brackets_at_ends(style_open()),
        brackets_at_ends(line_break()),
        brackets_at_ends(style_close()),
        brackets_at_ends(link_open()),
        brackets_at_ends(link_close()),
        brackets_at_ends(head_close()),
        brackets_at_ends(body_open()),
        brackets_at_ends(body_close()),
        brackets_at_ends(html_close()),
{
    reveal_strlit("<!DOCTYPE html>");
    reveal_strlit("<html lang=\"en\">");
    reveal_strlit("<head>");
    reveal_strlit("<meta charset=\"utf-8\">");
    reveal_strlit("<title>");
    reveal_strlit("</title>");
    reveal_strlit("<style>");
    reveal_strlit("\n");
    reveal_strlit("</style>");
    reveal_strlit("<link rel=\"stylesheet\" href=\"");
    reveal_strlit("\">");
    reveal_strlit("</head>");
    reveal_strlit("<body>");
    reveal_strlit("</body>");
    reveal_strlit("</html>");
}


/// A page tag is a tag, holds neither a quote nor a line break, and is no
/// other piece of a page.
proof fn lemma_page_tag_is_apart(tag: Seq<char>)
    requires
        is_page_tag(tag),
    ensures
        is_tag(tag),
        !tag.contains('"'),
        !tag.contains('\n'),
        tag != doctype(),
        tag != html_open(),
        tag != charset(),
        tag != style_open(),
        tag != line_break(),
        tag != style_close(),
        tag != link_open(),
        tag != link_close(),
        tag != html_close(),
        head_open() != title_open(),
        head_open() != title_close(),
        head_open() != head_close(),
        head_open() != body_open(),
        head_open() != body_close(),
        title_open() != title_close(),
        title_open() != head_close(),
        title_open() != body_open(),
        title_open() != body_close(),
        title_close() != head_close(),
        title_close() != body_open(),
        title_close() != body_close(),
        head_close() != body_open(),
        head_close() != body_close(),
        body_open() != body_close(),
{
    reveal_strlit("<!DOCTYPE html>");
    reveal_strlit("<html lang=\"en\">");
    reveal_strlit("<head>");
    reveal_strlit("<meta charset=\"utf-8\">");
    reveal_strlit("<title>");
    reveal_strlit("</title>");
    reveal_strlit("<style>");
    reveal_strlit("\n");
    reveal_strlit("</style>");
    reveal_strlit("<link rel=\"stylesheet\" href=\"");
    reveal_strlit("\">");
    reveal_strlit("</head>");
    reveal_strlit("<body>");
    reveal_strlit("</body>");
    reveal_strlit("</html>");
    lemma_pieces_are_bracketed();
    assert(doctype().len() == 15 && html_open().len() == 16 && charset().len() == 22);
    assert(head_open().len() == 6 && body_open().len() == 6);
    assert(title_open().len() == 7 && head_close().len() == 7 && body_close().len() == 7);
    assert(style_open().len() == 7 && html_close().len() == 7);
    assert(title_close().len() == 8 && style_close().len() == 8);
    assert(line_break().len() == 1 && link_close().len() == 2 && link_open().len() == 29);
    assert(tag.len() == 6 || tag.len() == 7 || tag.len() == 8);
    assert(head_open()[1] == 'h' && body_open()[1] == 'b');
    assert(title_open()[1] == 't' && style_open()[1] == 's' && head_close()[3] == 'e');
    assert(body_close()[2] == 'b' && html_close()[3] == 't');
    assert(title_close()[2] == 't' && style_close()[2] == 's');
}

/// A tag occurs in `text` at `at`, if that is an index, and nowhere else.
spec fn occurs_just(text: Seq<char>, tag: Seq<char>, at: Option<int>) -> bool {
    forall|i: int| occurs_at(text, tag, i) <==> at == Some(i)
}

/// Where a tag occurs once a piece is put behind a text: where it did, or,
/// if the piece is the tag, where the piece starts.
spec fn found(text: Seq<char>, piece: Seq<char>, tag: Seq<char>, at: Option<int>)
    -> Option<int> {
    if piece == tag {
        Some(text.len() as int)
    } else {
        at
    }
}

proof fn lemma_append_piece(text: Seq<char>, piece: Seq<char>, tag: Seq<char>, at: Option<int>)
    requires
        is_tag(tag),
        brackets_at_ends(piece),
        sealed(text, piece, tag),
        occurs_just(text, tag, at),
        piece == tag ==> at is None,
    ensures
        occurs_just(text + piece, tag, found(text, piece, tag, at)),
{
    lemma_tag_in_piece(piece, tag);
    lemma_tag_in_concat(text, piece, tag);
    let whole = text + piece;
    assert forall|i: int| occurs_at(whole, tag, i) <==> found(text, piece, tag, at) == Some(
        i,
    ) by {
        assert(occurs_at(whole, tag, i) <==> occurs_at(text, tag, i) || occurs_at(
            piece,
            tag,
            i - text.len(),
        ));
    }
}

proof fn lemma_append_text(text: Seq<char>, more: Seq<char>, tag: Seq<char>, at: Option<int>)
    requires
        is_tag(tag),
        sealed(text, more, tag),
        occurs_just(text, tag, at),
        !contains(more, tag),
    ensures
        occurs_just(text + more, tag, at),
{
    lemma_tag_in_concat(text, more, tag);
    let whole = text + more;
    assert forall|i: int| occurs_at(whole, tag, i) <==> at == Some(i) by {
        assert(occurs_at(whole, tag, i) <==> occurs_at(text, tag, i) || occurs_at(
            more,
            tag,
            i - text.len(),
        ));
    }
}

/// The element that stands for a stylesheet holds a page tag only where
/// the stylesheet's own text does.
proof fn lemma_stylesheet_element_is_free(stylesheet: StylesheetView, tag: Seq<char>)
    requires
        is_page_tag(tag),
        !contains(stylesheet.text(), tag),
    ensures
        !contains(stylesheet.element(), tag),
        stylesheet.element().len() > 0 ==> stylesheet.element().last() == '>',
{
    lemma_page_tag_is_apart(tag);
    lemma_pieces_are_bracketed();
    reveal_strlit("<style>");
    reveal_strlit("\n");
    reveal_strlit("</style>");
    reveal_strlit("<link rel=\"stylesheet\" href=\"");
    reveal_strlit("\">");
    let none: Option<int> = None;
    let empty = Seq::<char>::empty();
    assert(occurs_just(empty, tag, none));
    match stylesheet {
        StylesheetView::Absent => {},
        StylesheetView::Inline { css } => {
            lemma_append_piece(empty, style_open(), tag, none);
            let a = empty + style_open();
            lemma_append_piece(a, line_break(), tag, none);
            let b = a + line_break();
            assert(b.last() == '\n');
            lemma_append_text(b, css, tag, none);
            let c = b + css;
            assert(line_break()[0] == '\n');
            lemma_append_piece(c, line_break(), tag, none);
            let d = c + line_break();
            lemma_append_piece(d, style_close(), tag, none);
            let e = d + style_close();
            assert(e =~= stylesheet.element());
        },
        StylesheetView::Linked { href } => {
            lemma_append_piece(empty, link_open(), tag, none);
            let a = empty + link_open();
            assert(a.last() == '"');
            lemma_append_text(a, href, tag, none);
            let b = a + href;
            assert(link_close()[0] == '"');
            lemma_append_piece(b, link_close(), tag, none);
            let c = b + link_close();
            assert(c =~= stylesheet.element());
        },
    }
}


/// Where the head opens in a page.
pub open spec fn head_at() -> int {
    (doctype().len() + html_open().len()) as int
}

/// Where the title opens in a page.
pub open spec fn title_at() -> int {
    head_at() + head_open().len() + charset().len()
}

/// Where the title closes in a page with the given title.
pub open spec fn title_end_at(title: Seq<char>) -> int {
    title_at() + title_open().len() + title.len()
}

/// Where the head closes in a page with the given title and stylesheet.
pub open spec fn head_end_at(title: Seq<char>, stylesheet: StylesheetView) -> int {
    title_end_at(title) + title_close().len() + stylesheet.element().len()
}

/// Where the body opens in a page with the given title and stylesheet.
pub open spec fn body_at(title: Seq<char>, stylesheet: StylesheetView) -> int {
    head_end_at(title, stylesheet) + head_close().len()
}

/// Where the body closes in a page with the given parts.
pub open spec fn body_end_at(title: Seq<char>, stylesheet: StylesheetView, body: Seq<char>)
    -> int {
    body_at(title, stylesheet) + body_open().len() + body.len()
}

/// Where a page tag stands in a page with the given parts.
pub open spec fn tag_at(
    tag: Seq<char>,
    title: Seq<char>,
    stylesheet: StylesheetView,
    body: Seq<char>,
) -> int {
    if tag == head_open() {
        head_at()
    } else if tag == title_open() {
        title_at()
    } else if tag == title_close() {
        title_end_at(title)
    } else if tag == head_close() {
        head_end_at(title, stylesheet)
    } else if tag == body_open() {
        body_at(title, stylesheet)
    } else {
        body_end_at(title, stylesheet, body)
    }
}

/// A page tag that none of a page's parts holds occurs in the page once,
/// at its own place.
pub proof fn lemma_page_tag_occurs_once(
    title: Seq<char>,
    stylesheet: StylesheetView,
    body: Seq<char>,
    tag: Seq<char>,
)
    requires
        is_page_tag(tag),
        !contains(title, tag),
        !contains(stylesheet.text(), tag),
        !contains(body, tag),
    ensures
        occurs_only_at(
            document(title, stylesheet, body),
            tag,
            tag_at(tag, title, stylesheet, body),
        ),
{
    lemma_page_tag_is_apart(tag);
    lemma_pieces_are_bracketed();
    lemma_stylesheet_element_is_free(stylesheet, tag);
    reveal_strlit("<!DOCTYPE html>");
    reveal_strlit("<html lang=\"en\">");
    reveal_strlit("<head>");
    reveal_strlit("<meta charset=\"utf-8\">");
    reveal_strlit("<title>");
    reveal_strlit("</title>");
    reveal_strlit("</head>");
    reveal_strlit("<body>");
    reveal_strlit("</body>");
    reveal_strlit("</html>");
    let element = stylesheet.element();
    let x0 = Seq::<char>::empty();
    let at0: Option<int> = None;
    assert(occurs_just(x0, tag, at0));
    lemma_append_piece(x0, doctype(), tag, at0);
    let x1 = x0 + doctype();
    lemma_append_piece(x1, html_open(), tag, at0);
    let x2 = x1 + html_open();
    lemma_append_piece(x2, head_open(), tag, at0);
    let at3 = found(x2, head_open(), tag, at0);
    let x3 = x2 + head_open();
    lemma_append_piece(x3, charset(), tag, at3);
    let x4 = x3 + charset();
    lemma_append_piece(x4, title_open(), tag, at3);
    let at5 = found(x4, title_open(), tag, at3);
    let x5 = x4 + title_open();
    assert(x5.last() == '>');
    lemma_append_text(x5, title, tag, at5);
    let x6 = x5 + title;
    lemma_append_piece(x6, title_close(), tag, at5);
    let at7 = found(x6, title_close(), tag, at5);
    let x7 = x6 + title_close();
    assert(x7.last() == '>');
    lemma_append_text(x7, element, tag, at7);
    let x8 = x7 + element;
    lemma_append_piece(x8, head_close(), tag, at7);
    let at9 = found(x8, head_close(), tag, at7);
    let x9 = x8 + head_close();
    lemma_append_piece(x9, body_open(), tag, at9);
    let at10 = found(x9, body_open(), tag, at9);
    let x10 = x9 + body_open();
    assert(x10.last() == '>');
    lemma_append_text(x10, body, tag, at10);
    let x11 = x10 + body;
    lemma_append_piece(x11, body_close(), tag, at10);
    let at12 = found(x11, body_close(), tag, at10);
    let x12 = x11 + body_close();
    lemma_append_piece(x12, html_close(), tag, at12);
    let x13 = x12 + html_close();
    assert(x13 =~= document(title, stylesheet, body));
    assert(at12 == Some(tag_at(tag, title, stylesheet, body)));
}

/// A page is complete if its title, its stylesheet's text and its body hold
/// no page tag.
pub proof fn lemma_page_is_complete(title: Seq<char>, stylesheet: StylesheetView, body: Seq<char>)
    requires
        free_of_page_tags(title),
        free_of_page_tags(stylesheet.text()),
        free_of_page_tags(body),
    ensures
        is_complete_page(document(title, stylesheet, body)),
{
    let page = document(title, stylesheet, body);
    lemma_page_tag_is_apart(head_open());
    reveal_strlit("<!DOCTYPE html>");
    reveal_strlit("<html lang=\"en\">");
    reveal_strlit("<head>");
    reveal_strlit("<meta charset=\"utf-8\">");
    reveal_strlit("<title>");
    reveal_strlit("</title>");
    reveal_strlit("</head>");
    reveal_strlit("<body>");
    reveal_strlit("</body>");
    reveal_strlit("</html>");
    assert(is_page_tag(head_open()) && is_page_tag(title_open()) && is_page_tag(title_close()));
    assert(is_page_tag(head_close()) && is_page_tag(body_open()) && is_page_tag(body_close()));
    lemma_page_tag_occurs_once(title, stylesheet, body, head_open());
    lemma_page_tag_occurs_once(title, stylesheet, body, title_open());
    lemma_page_tag_occurs_once(title, stylesheet, body, title_close());
    lemma_page_tag_occurs_once(title, stylesheet, body, head_close());
    lemma_page_tag_occurs_once(title, stylesheet, body, body_open());
    lemma_page_tag_occurs_once(title, stylesheet, body, body_close());
    assert(page.subrange(0, doctype().len() as int) =~= doctype());
    assert(page.subrange(page.len() - html_close().len(), page.len() as int) =~= html_close());
}


/// Where the text of a stylesheet starts in the element that stands for
/// the stylesheet.
spec fn text_in_element(stylesheet: StylesheetView) -> int {
    match stylesheet {
        StylesheetView::Absent => 0,
        StylesheetView::Inline { .. } => (style_open().len() + line_break().len()) as int,
        StylesheetView::Linked { .. } => link_open().len() as int,
    }
}

/// Whatever occurs in the text of a stylesheet occurs in the element that
/// stands for the stylesheet.
proof fn lemma_element_holds_its_text(stylesheet: StylesheetView, pattern: Seq<char>)
    ensures
        forall|at: int|
            occurs_at(stylesheet.text(), pattern, at) ==> #[trigger] occurs_at(
                stylesheet.element(),
                pattern,
                text_in_element(stylesheet) + at,
            ),
{
    match stylesheet {
        StylesheetView::Absent => {},
        StylesheetView::Inline { css } => {
            let a = style_open() + line_break();
            let b = a + css;
            let c = b + line_break();
            lemma_occurrences_stay(a, css, pattern);
            lemma_occurrences_stay(b, line_break(), pattern);
            lemma_occurrences_stay(c, style_close(), pattern);
            assert forall|at: int| occurs_at(css, pattern, at) implies #[trigger] occurs_at(
                stylesheet.element(),
                pattern,
                text_in_element(stylesheet) + at,
            ) by {
                let to = a.len() + at;
                assert(occurs_at(css, pattern, to - a.len()));
                assert(occurs_at(b, pattern, to));
                assert(occurs_at(c, pattern, to));
                assert(occurs_at(c + style_close(), pattern, to));
            }
        },
        StylesheetView::Linked { href } => {
            let a = link_open();
            let b = a + href;
            lemma_occurrences_stay(a, href, pattern);
            lemma_occurrences_stay(b, link_close(), pattern);
            assert forall|at: int| occurs_at(href, pattern, at) implies #[trigger] occurs_at(
                stylesheet.element(),
                pattern,
                text_in_element(stylesheet) + at,
            ) by {
                let to = a.len() + at;
                assert(occurs_at(href, pattern, to - a.len()));
                assert(occurs_at(b, pattern, to));
                assert(occurs_at(b + link_close(), pattern, to));
            }
        },
    }
}

/// A page holds its pieces where it was put together from them: whatever
/// occurs in the title, in the stylesheet's element or in the body occurs
/// in the page, and so does each page tag, at its own place.
pub proof fn lemma_page_holds_its_parts(
    title: Seq<char>,
    stylesheet: StylesheetView,
    body: Seq<char>,
    pattern: Seq<char>,
)
    ensures
        is_page_tag(pattern) ==> occurs_at(
            document(title, stylesheet, body),
            pattern,
            tag_at(pattern, title, stylesheet, body),
        ),
        forall|at: int|
            occurs_at(title, pattern, at) ==> #[trigger] occurs_at(
                document(title, stylesheet, body),
                pattern,
                title_at() + title_open().len() + at,
            ),
        forall|at: int|
            occurs_at(stylesheet.element(), pattern, at) ==> #[trigger] occurs_at(
                document(title, stylesheet, body),
                pattern,
                title_end_at(title) + title_close().len() + at,
            ),
        forall|at: int|
            occurs_at(body, pattern, at) ==> #[trigger] occurs_at(
                document(title, stylesheet, body),
                pattern,
                body_at(title, stylesheet) + body_open().len() + at,
            ),
{
    let page = document(title, stylesheet, body);
    let element = stylesheet.element();
    let x1 = doctype() + html_open();
    let x2 = x1 + head_open();
    let x3 = x2 + charset();
    let x4 = x3 + title_open();
    let x5 = x4 + title;
    let x6 = x5 + title_close();
    let x7 = x6 + element;
    let x8 = x7 + head_close();
    let x9 = x8 + body_open();
    let x10 = x9 + body;
    let x11 = x10 + body_close();
    let x12 = x11 + html_close();
    assert(x12 =~= page);
    lemma_occurrences_stay(x1, head_open(), pattern);
    lemma_occurrences_stay(x2, charset(), pattern);
    lemma_occurrences_stay(x3, title_open(), pattern);
    lemma_occurrences_stay(x4, title, pattern);
    lemma_occurrences_stay(x5, title_close(), pattern);
    lemma_occurrences_stay(x6, element, pattern);
    lemma_occurrences_stay(x7, head_close(), pattern);
    lemma_occurrences_stay(x8, body_open(), pattern);
    lemma_occurrences_stay(x9, body, pattern);
    lemma_occurrences_stay(x10, body_close(), pattern);
    lemma_occurrences_stay(x11, html_close(), pattern);
    assert forall|to: int| occurs_at(x10, pattern, to) implies occurs_at(page, pattern, to) by {
        assert(occurs_at(x11, pattern, to));
    }
    assert forall|to: int| occurs_at(x7, pattern, to) implies occurs_at(x10, pattern, to) by {
        assert(occurs_at(x8, pattern, to));
        assert(occurs_at(x9, pattern, to));
    }
    assert forall|to: int| occurs_at(x5, pattern, to) implies occurs_at(x7, pattern, to) by {
        assert(occurs_at(x6, pattern, to));
    }
    assert forall|at: int| occurs_at(title, pattern, at) implies #[trigger] occurs_at(
        page,
        pattern,
        title_at() + title_open().len() + at,
    ) by {
        let to = x4.len() + at;
        assert(occurs_at(title, pattern, to - x4.len()));
        assert(occurs_at(x5, pattern, to));
    }
    assert forall|at: int| occurs_at(element, pattern, at) implies #[trigger] occurs_at(
        page,
        pattern,
        title_end_at(title) + title_close().len() + at,
    ) by {
        let to = x6.len() + at;
        assert(occurs_at(element, pattern, to - x6.len()));
        assert(occurs_at(x7, pattern, to));
    }
    assert forall|at: int| occurs_at(body, pattern, at) implies #[trigger] occurs_at(
        page,
        pattern,
        body_at(title, stylesheet) + body_open().len() + at,
    ) by {
        let to = x9.len() + at;
        assert(occurs_at(body, pattern, to - x9.len()));
        assert(occurs_at(x10, pattern, to));
    }
    if is_page_tag(pattern) {
        assert(occurs_at(pattern, pattern, 0)) by {
            assert(pattern.subrange(0, pattern.len() as int) =~= pattern);
        }
        let to = tag_at(pattern, title, stylesheet, body);
        if pattern == head_open() {
            assert(occurs_at(head_open(), pattern, to - x1.len()));
            assert(occurs_at(x2, pattern, to));
            assert(occurs_at(x3, pattern, to));
            assert(occurs_at(x4, pattern, to));
            assert(occurs_at(x5, pattern, to));
        } else if pattern == title_open() {
            assert(occurs_at(title_open(), pattern, to - x3.len()));
            assert(occurs_at(x4, pattern, to));
            assert(occurs_at(x5, pattern, to));
        } else if pattern == title_close() {
            assert(occurs_at(title_close(), pattern, to - x5.len()));
            assert(occurs_at(x6, pattern, to));
            assert(occurs_at(x7, pattern, to));
        } else if pattern == head_close() {
            assert(occurs_at(head_close(), pattern, to - x7.len()));
            assert(occurs_at(x8, pattern, to));
            assert(occurs_at(x9, pattern, to));
            assert(occurs_at(x10, pattern, to));
        } else if pattern == body_open() {
            assert(occurs_at(body_open(), pattern, to - x8.len()));
            assert(occurs_at(x9, pattern, to));
            assert(occurs_at(x10, pattern, to));
        } else {
            assert(occurs_at(body_close(), pattern, to - x10.len()));
            assert(occurs_at(x11, pattern, to));
        }
    }
}

/// A page tag that one of a page's parts holds occurs in the page more than
/// once: in the part, and at its own place.
pub proof fn lemma_page_tag_in_a_part_occurs_twice(
    title: Seq<char>,
    stylesheet: StylesheetView,
    body: Seq<char>,
    tag: Seq<char>,
)
    requires
        is_page_tag(tag),
        contains(title, tag) || contains(stylesheet.text(), tag) || contains(body, tag),
    ensures
        !occurs_once(document(title, stylesheet, body), tag),
{
    lemma_page_tag_is_apart(tag);
    lemma_page_holds_its_parts(title, stylesheet, body, tag);
    lemma_element_holds_its_text(stylesheet, tag);
    reveal_strlit("<!DOCTYPE html>");
    reveal_strlit("<html lang=\"en\">");
    reveal_strlit("<head>");
    reveal_strlit("<meta charset=\"utf-8\">");
    reveal_strlit("<title>");
    reveal_strlit("</title>");
    reveal_strlit("</head>");
    reveal_strlit("<body>");
    reveal_strlit("</body>");
    let page = document(title, stylesheet, body);
    let own = tag_at(tag, title, stylesheet, body);
    let other = if contains(title, tag) {
        let at = choose|at: int| occurs_at(title, tag, at);
        title_at() + title_open().len() + at
    } else if contains(stylesheet.text(), tag) {
        let at = choose|at: int| occurs_at(stylesheet.text(), tag, at);
        assert(occurs_at(stylesheet.element(), tag, text_in_element(stylesheet) + at));
        title_end_at(title) + title_close().len() + (text_in_element(stylesheet) + at)
    } else {
        let at = choose|at: int| occurs_at(body, tag, at);
        body_at(title, stylesheet) + body_open().len() + at
    };
    assert(occurs_at(page, tag, own));
    assert(occurs_at(page, tag, other));
    assert(own != other);
    assert forall|at: int| !occurs_only_at(page, tag, at) by {
        if occurs_only_at(page, tag, at) {
            assert(own == at);
            assert(other == at);
        }
    }
}

/// A page is complete only if its title, its stylesheet's text and its
/// body hold no page tag.
pub proof fn lemma_complete_page_has_free_parts(
    title: Seq<char>,
    stylesheet: StylesheetView,
    body: Seq<char>,
)
    requires
        is_complete_page(document(title, stylesheet, body)),
    ensures
        free_of_page_tags(title),
        free_of_page_tags(stylesheet.text()),
        free_of_page_tags(body),
{
    assert forall|tag: Seq<char>| is_page_tag(tag) implies !contains(title, tag) && !contains(
        stylesheet.text(),
        tag,
    ) && !contains(body, tag) by {
        if contains(title, tag) || contains(stylesheet.text(), tag) || contains(body, tag) {
            lemma_page_tag_in_a_part_occurs_twice(title, stylesheet, body, tag);
        }
    }
}

} // verus!
