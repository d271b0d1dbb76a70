use md2html::path::file_name;
use md2html::title::resolve_title;

fn name_of(path: &str) -> Option<String> {
    file_name(path)
}

#[test]
fn file_name_is_the_last_component() {
    assert_eq!(name_of("notes/report.md"), Some("report.md".to_string()));
    assert_eq!(name_of("tmp/foo.txt"), Some("foo.txt".to_string()));
    assert_eq!(name_of("report.md"), Some("report.md".to_string()));
    assert_eq!(name_of("/abs/dir/page.markdown"), Some("page.markdown".to_string()));
}

#[test]
fn file_name_ignores_trailing_separators_and_lone_dots() {
    assert_eq!(name_of("/usr/bin/"), Some("bin".to_string()));
    assert_eq!(name_of("foo.txt/."), Some("foo.txt".to_string()));
    assert_eq!(name_of("foo.txt/.//"), Some("foo.txt".to_string()));
    assert_eq!(name_of("a//b"), Some("b".to_string()));
    assert_eq!(name_of("./a"), Some("a".to_string()));
}

#[test]
fn file_name_is_absent_where_the_path_names_no_file() {
    assert_eq!(name_of(""), None);
    assert_eq!(name_of("/"), None);
    assert_eq!(name_of("//"), None);
    assert_eq!(name_of("."), None);
    assert_eq!(name_of("./"), None);
    assert_eq!(name_of("/."), None);
    assert_eq!(name_of(".."), None);
    assert_eq!(name_of("foo.txt/.."), None);
    assert_eq!(name_of("foo/../"), None);
}

#[test]
fn file_name_keeps_dots_that_are_part_of_a_name() {
    assert_eq!(name_of("..."), Some("...".to_string()));
    assert_eq!(name_of("a."), Some("a.".to_string()));
    assert_eq!(name_of(".hidden"), Some(".hidden".to_string()));
    assert_eq!(name_of("dir/..md"), Some("..md".to_string()));
    assert_eq!(name_of("a/.b/"), Some(".b".to_string()));
}

#[test]
fn file_name_counts_characters_not_bytes() {
    assert_eq!(name_of("büro/übersicht.md"), Some("übersicht.md".to_string()));
    assert_eq!(name_of("文档/报告.md/"), Some("报告.md".to_string()));
}

#[test]
fn file_name_agrees_with_std_on_unix_paths() {
    let paths = [
        "", "/", ".", "..", "a", "a/", "a/.", "a/..", "/a", "//a//", "a/b/c.md", "./.", "a/./b/.",
        "a.b.c", ".a", "a/.b", "a/b/..", "...", "a/...", "/.", "/..", "x/.//", "x/./.",
    ];
    for path in paths {
        let expected = std::path::Path::new(path)
            .file_name()
            .map(|name| name.to_string_lossy().to_string());
        if std::path::MAIN_SEPARATOR == '/' {
            assert_eq!(name_of(path), expected, "path {:?}", path);
        }
    }
}

#[test]
fn title_is_derived_from_the_input_when_no_override_is_set() {
    assert_eq!(resolve_title(&Some(String::new()), "notes/report.md"), "report.md");
    assert_eq!(resolve_title(&None, "notes/report.md"), "report.md");
}

#[test]
fn title_override_is_used_verbatim() {
    assert_eq!(resolve_title(&Some("My Doc".to_string()), "notes/report.md"), "My Doc");
    assert_eq!(resolve_title(&Some("My Doc".to_string()), "other/file.md"), "My Doc");
    assert_eq!(resolve_title(&Some("<b> & co".to_string()), ""), "<b> & co");
}

#[test]
fn title_is_empty_where_the_path_names_no_file() {
    assert_eq!(resolve_title(&None, ""), "");
    assert_eq!(resolve_title(&None, "/"), "");
    assert_eq!(resolve_title(&Some(String::new()), "notes/.."), "");
}
