//! The page: a complete HTML document around a rendered fragment, with its
//! title and, where one is configured, its stylesheet.
//!
//! Title, stylesheet text and fragment are put in as they are, unescaped.

use vstd::prelude::*;
use vstd::string::StringExecFns;

verus! {

/// How a page refers to its stylesheet.
pub enum Stylesheet {
    /// No stylesheet is configured.
    Absent,
    /// The stylesheet was read, and its text goes into the page.
    Inline { css: String },
    /// The stylesheet could not be read, and the page links to it.
    Linked { href: String },
}

/// A `Stylesheet` as plain text.
pub enum StylesheetView {
    Absent,
    Inline { css: Seq<char> },
    Linked { href: Seq<char> },
}

impl View for Stylesheet {
    type V = StylesheetView;

    open spec fn view(&self) -> StylesheetView {
        match self {
            Stylesheet::Absent => StylesheetView::Absent,
            Stylesheet::Inline { css } => StylesheetView::Inline { css: css@ },
            Stylesheet::Linked { href } => StylesheetView::Linked { href: href@ },
        }
    }
}

impl StylesheetView {
    /// The text that comes from outside the page's own markup: the
    /// stylesheet's content or its address.
    pub open spec fn text(self) -> Seq<char> {
        match self {
            StylesheetView::Absent => Seq::empty(),
            StylesheetView::Inline { css } => css,
            StylesheetView::Linked { href } => href,
        }
    }

    /// The element that stands for the stylesheet in the page's head.
    pub open spec fn element(self) -> Seq<char> {
        match self {
            StylesheetView::Absent => Seq::empty(),
            StylesheetView::Inline { css } => style_open() + line_break() + css + line_break()
                + style_close(),
            StylesheetView::Linked { href } => link_open() + href + link_close(),
        }
    }
}

/// The stylesheet of a page, given where it is configured to be and what
/// came of reading it there: inline where it was read, a link to the
/// configured place where it was not.
pub open spec fn resolved_stylesheet(source: Seq<char>, read: Result<Seq<char>, Seq<char>>)
    -> StylesheetView {
    match read {
        Ok(css) => StylesheetView::Inline { css },
        Err(_) => StylesheetView::Linked { href: source },
    }
}

pub open spec fn doctype() -> Seq<char> {
    "<!DOCTYPE html>"@
}

pub open spec fn html_open() -> Seq<char> {
    "<html lang=\"en\">"@
}

pub open spec fn head_open() -> Seq<char> {
    "<head>"@
}

pub open spec fn charset() -> Seq<char> {
    "<meta charset=\"utf-8\">"@
}

pub open spec fn title_open() -> Seq<char> {
    "<title>"@
}

pub open spec fn title_close() -> Seq<char> {
    "</title>"@
}

pub open spec fn style_open() -> Seq<char> {
    "<style>"@
}

pub open spec fn line_break() -> Seq<char> {
    "\n"@
}

pub open spec fn style_close() -> Seq<char> {
    "</style>"@
}

pub open spec fn link_open() -> Seq<char> {
    "<link rel=\"stylesheet\" href=\""@
}

pub open spec fn link_close() -> Seq<char> {
    "\">"@
}

pub open spec fn head_close() -> Seq<char> {
    "</head>"@
}

pub open spec fn body_open() -> Seq<char> {
    "<body>"@
}

pub open spec fn body_close() -> Seq<char> {
    "</body>"@
}

pub open spec fn html_close() -> Seq<char> {
    "</html>"@
}

/// The head of a page: character set, title and stylesheet.
pub open spec fn head(title: Seq<char>, stylesheet: StylesheetView) -> Seq<char> {
    head_open() + charset() + title_open() + title + title_close() + stylesheet.element()
        + head_close()
}

/// The page with the given title, stylesheet and body.
pub open spec fn document(title: Seq<char>, stylesheet: StylesheetView, body: Seq<char>) -> Seq<
    char,
> {
    doctype() + html_open() + head(title, stylesheet) + body_open() + body + body_close()
        + html_close()
}

/// Decides how a page refers to the stylesheet configured at `source`, from
/// what came of reading it: a failed read is no error, it makes the page
/// link to `source`.
pub fn resolve_stylesheet(source: &str, read: Result<String, String>) -> (stylesheet: Stylesheet)
    ensures
        stylesheet@ == resolved_stylesheet(
            source@,
            match read {
                Ok(css) => Ok(css@),
                Err(cause) => Err(cause@),
            },
        ),
{
    match read {
        Ok(css) => Stylesheet::Inline { css },
        Err(_) => Stylesheet::Linked { href: String::from_str(source) },
    }
}

/// Appends to `page` the element that stands for `stylesheet`.
fn push_stylesheet(page: &mut String, stylesheet: &Stylesheet)
    ensures
        final(page)@ == old(page)@ + stylesheet@.element(),
{
    match stylesheet {
        Stylesheet::Absent => {
            assert(page@ + Seq::<char>::empty() == page@);
        },
        Stylesheet::Inline { css } => {
            let ghost before = page@;
            page.append("<style>");
            page.append("\n");
            page.append(css.as_str());
            page.append("\n");
            page.append("</style>");
            assert(page@ == before + stylesheet@.element());
        },
        Stylesheet::Linked { href } => {
            let ghost before = page@;
            page.append("<link rel=\"stylesheet\" href=\"");
            page.append(href.as_str());
            page.append("\">");
            assert(page@ == before + stylesheet@.element());
        },
    }
}

/// Assembles the page: doctype, `<html>` with its language, a head with the
/// character set, the title and the stylesheet if there is one, and a body
/// that holds the fragment.
pub fn assemble_document(title: &str, stylesheet: &Stylesheet, body: &str) -> (page: String)
    ensures
        page@ == document(title@, stylesheet@, body@),
{
    let mut page = String::from_str("<!DOCTYPE html>");
    page.append("<html lang=\"en\">");
    page.append("<head>");
    page.append("<meta charset=\"utf-8\">");
    page.append("<title>");
    page.append(title);
    page.append("</title>");
    push_stylesheet(&mut page, stylesheet);
    page.append("</head>");
    assert(page@ == doctype() + html_open() + head(title@, stylesheet@));
    page.append("<body>");
    page.append(body);
    page.append("</body>");
    page.append("</html>");
    page
}

} // verus!
