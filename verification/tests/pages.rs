use md2html::document::{assemble_document, resolve_stylesheet, Stylesheet};

#[test]
fn page_without_stylesheet() {
    let page = assemble_document("T", &Stylesheet::Absent, "<p>hi</p>\n");
    assert_eq!(
        page,
        "<!DOCTYPE html><html lang=\"en\"><head><meta charset=\"utf-8\"><title>T</title></head><body><p>hi</p>\n</body></html>"
    );
}

#[test]
fn page_with_inline_stylesheet() {
    let sheet = Stylesheet::Inline { css: "body{color:red}".to_string() };
    let page = assemble_document("T", &sheet, "x");
    assert_eq!(
        page,
        "<!DOCTYPE html><html lang=\"en\"><head><meta charset=\"utf-8\"><title>T</title><style>\nbody{color:red}\n</style></head><body>x</body></html>"
    );
}

#[test]
fn page_with_linked_stylesheet() {
    let sheet = Stylesheet::Linked { href: "https://example.com/x.css".to_string() };
    let page = assemble_document("T", &sheet, "x");
    assert_eq!(
        page,
        "<!DOCTYPE html><html lang=\"en\"><head><meta charset=\"utf-8\"><title>T</title><link rel=\"stylesheet\" href=\"https://example.com/x.css\"></head><body>x</body></html>"
    );
}

#[test]
fn page_takes_its_parts_unescaped() {
    let page = assemble_document("a < b & c", &Stylesheet::Absent, "<script>1 < 2</script>");
    assert!(page.contains("<title>a < b & c</title>"));
    assert!(page.contains("<body><script>1 < 2</script></body>"));
}

#[test]
fn page_with_empty_parts() {
    let page = assemble_document("", &Stylesheet::Absent, "");
    assert_eq!(
        page,
        "<!DOCTYPE html><html lang=\"en\"><head><meta charset=\"utf-8\"><title></title></head><body></body></html>"
    );
}

#[test]
fn stylesheet_that_was_read_goes_inline() {
    match resolve_stylesheet("style.css", Ok("body{color:red}".to_string())) {
        Stylesheet::Inline { css } => assert_eq!(css, "body{color:red}"),
        _ => panic!("the stylesheet was read"),
    }
}

#[test]
fn stylesheet_that_was_not_read_is_linked() {
    match resolve_stylesheet("https://example.com/x.css", Err("not found".to_string())) {
        Stylesheet::Linked { href } => assert_eq!(href, "https://example.com/x.css"),
        _ => panic!("the stylesheet was not read"),
    }
}
