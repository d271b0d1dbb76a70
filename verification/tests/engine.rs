use std::collections::BTreeMap;

use md2html::engine::{Action, ConversionEngine};
use md2html::job::{ConversionJob, ConversionSettings};
use md2html::outcome::{ConversionOutcome, Stage};

/// A host with its files in memory. A path that is in `denied` cannot be
/// written; one that is not in `files` cannot be read.
struct Host {
    files: BTreeMap<String, String>,
    denied: Vec<String>,
    log: Vec<String>,
    shown: Vec<String>,
}

impl Host {
    fn new(files: &[(&str, &str)]) -> Host {
        let mut map = BTreeMap::new();
        for (path, text) in files {
            map.insert(path.to_string(), text.to_string());
        }
        Host { files: map, denied: Vec::new(), log: Vec::new(), shown: Vec::new() }
    }

    fn read(&self, path: &str) -> Result<String, String> {
        match self.files.get(path) {
            Some(text) => Ok(text.clone()),
            None => Err("No such file or directory (os error 2)".to_string()),
        }
    }

    fn run(&mut self, job: ConversionJob, settings: ConversionSettings) -> ConversionOutcome {
        let (mut engine, mut action) = ConversionEngine::start(job, settings);
        loop {
            let reply = match action {
                Action::ReadInput { path } => {
                    self.log.push(format!("read {}", path));
                    self.read(&path)
                }
                Action::ReadStylesheet { path } => {
                    self.log.push(format!("css {}", path));
                    self.read(&path)
                }
                Action::WriteOutput { path, document } => {
                    self.log.push(format!("write {}", path));
                    if self.denied.contains(&path) {
                        Err("Permission denied (os error 13)".to_string())
                    } else {
                        self.files.insert(path, document);
                        Ok(String::new())
                    }
                }
                Action::Preview { path } => {
                    self.log.push(format!("show {}", path));
                    self.shown.push(path);
                    Err("no browser".to_string())
                }
                Action::Finish { outcome } => {
                    assert!(engine.is_finished());
                    return outcome;
                }
            };
            action = engine.step(reply);
        }
    }
}

fn strings(items: &[&str]) -> Vec<String> {
    items.iter().map(|item| item.to_string()).collect()
}

fn job(inputs: &[&str], outputs: &[&str]) -> ConversionJob {
    ConversionJob::new(strings(inputs), strings(outputs))
}

fn plain() -> ConversionSettings {
    ConversionSettings::new(None, None, false)
}

fn count(text: &str, pattern: &str) -> usize {
    text.matches(pattern).count()
}

#[test]
fn mismatch_is_reported_and_no_file_is_touched() {
    let mut host = Host::new(&[("a.md", "# A"), ("b.md", "# B")]);
    let outcome = host.run(job(&["a.md", "b.md"], &["a.html"]), plain());
    assert!(matches!(outcome, ConversionOutcome::Mismatch));
    assert!(host.log.is_empty());
    assert_eq!(host.files.len(), 2);
    assert_eq!(
        outcome.status_message(),
        Some("❌ Input/output file count mismatch.".to_string())
    );
}

#[test]
fn mismatch_is_reported_when_outputs_are_more() {
    let mut host = Host::new(&[("a.md", "# A")]);
    let outcome = host.run(job(&["a.md"], &["a.html", "b.html"]), plain());
    assert!(matches!(outcome, ConversionOutcome::Mismatch));
    assert!(host.log.is_empty());
    assert!(!host.files.contains_key("a.html"));
}

#[test]
fn mismatch_is_reported_when_there_are_no_inputs() {
    let mut host = Host::new(&[]);
    let outcome = host.run(job(&[], &["a.html"]), plain());
    assert!(matches!(outcome, ConversionOutcome::Mismatch));
    assert!(host.files.is_empty());
}

#[test]
fn empty_job_ends_at_once_without_a_status() {
    let mut host = Host::new(&[]);
    let outcome = host.run(job(&[], &[]), plain());
    assert!(matches!(outcome, ConversionOutcome::Nothing));
    assert!(outcome.is_success());
    assert_eq!(outcome.status_message(), None);
    assert!(host.log.is_empty());
}

#[test]
fn one_pair_is_read_then_written() {
    let mut host = Host::new(&[("notes/report.md", "hello")]);
    let outcome = host.run(job(&["notes/report.md"], &["out/report.html"]), plain());
    match &outcome {
        ConversionOutcome::Success { input, output } => {
            assert_eq!(input, "notes/report.md");
            assert_eq!(output, "out/report.html");
        }
        _ => panic!("the batch should succeed"),
    }
    assert_eq!(host.log, strings(&["read notes/report.md", "write out/report.html"]));
    assert_eq!(
        host.files["out/report.html"],
        "<!DOCTYPE html><html lang=\"en\"><head><meta charset=\"utf-8\"><title>report.md</title></head><body><p>hello</p>\n</body></html>"
    );
    assert_eq!(
        outcome.status_message(),
        Some("✅ Converted: notes/report.md → out/report.html".to_string())
    );
}

#[test]
fn title_is_the_file_name_of_each_input() {
    let mut host = Host::new(&[("notes/report.md", "x"), ("other/summary.txt", "y")]);
    let outcome = host.run(
        job(&["notes/report.md", "other/summary.txt"], &["1.html", "2.html"]),
        ConversionSettings::new(Some(String::new()), None, false),
    );
    assert!(outcome.is_success());
    assert!(host.files["1.html"].contains("<title>report.md</title>"));
    assert!(host.files["2.html"].contains("<title>summary.txt</title>"));
}

#[test]
fn title_override_is_the_title_of_every_page() {
    let mut host = Host::new(&[("notes/report.md", "x"), ("other/summary.txt", "y")]);
    let outcome = host.run(
        job(&["notes/report.md", "other/summary.txt"], &["1.html", "2.html"]),
        ConversionSettings::new(Some("My Doc".to_string()), None, false),
    );
    assert!(outcome.is_success());
    assert!(host.files["1.html"].contains("<title>My Doc</title>"));
    assert!(host.files["2.html"].contains("<title>My Doc</title>"));
    assert_eq!(count(&host.files["1.html"], "report.md"), 0);
}

#[test]
fn readable_stylesheet_is_embedded() {
    let mut host = Host::new(&[("a.md", "text"), ("style.css", "body{color:red}")]);
    let outcome = host.run(
        job(&["a.md"], &["a.html"]),
        ConversionSettings::new(None, Some("style.css".to_string()), false),
    );
    assert!(outcome.is_success());
    let page = &host.files["a.html"];
    assert!(page.contains("<style>\nbody{color:red}\n</style>"));
    assert!(!page.contains("<link rel=\"stylesheet\""));
    assert!(!page.contains("style.css"));
    assert_eq!(host.log, strings(&["read a.md", "css style.css", "write a.html"]));
}

#[test]
fn unreadable_stylesheet_is_linked() {
    let mut host = Host::new(&[("a.md", "text")]);
    let outcome = host.run(
        job(&["a.md"], &["a.html"]),
        ConversionSettings::new(None, Some("https://example.com/x.css".to_string()), false),
    );
    assert!(outcome.is_success());
    let page = &host.files["a.html"];
    assert!(page.contains("<link rel=\"stylesheet\" href=\"https://example.com/x.css\">"));
    assert!(!page.contains("<style>"));
    assert!(page.contains("</title><link rel=\"stylesheet\" href=\"https://example.com/x.css\"></head>"));
}

#[test]
fn no_stylesheet_means_no_stylesheet_element() {
    let mut host = Host::new(&[("a.md", "text")]);
    host.run(job(&["a.md"], &["a.html"]), plain());
    let page = &host.files["a.html"];
    assert!(!page.contains("<style>"));
    assert!(!page.contains("<link"));
    assert!(page.contains("</title></head>"));
}

#[test]
fn stylesheet_is_read_anew_for_each_pair() {
    let mut host = Host::new(&[("a.md", "a"), ("b.md", "b"), ("s.css", "p{}")]);
    host.run(
        job(&["a.md", "b.md"], &["a.html", "b.html"]),
        ConversionSettings::new(None, Some("s.css".to_string()), false),
    );
    assert_eq!(
        host.log,
        strings(&["read a.md", "css s.css", "write a.html", "read b.md", "css s.css", "write b.html"])
    );
}

#[test]
fn batch_stops_at_the_first_unreadable_input() {
    let mut host = Host::new(&[("1.md", "one"), ("3.md", "three")]);
    let outcome = host.run(
        job(&["1.md", "2.md", "3.md"], &["1.html", "2.html", "3.html"]),
        plain(),
    );
    match &outcome {
        ConversionOutcome::Failure { stage, path, underlying_error } => {
            assert_eq!(*stage, Stage::Read);
            assert_eq!(path, "2.md");
            assert_eq!(underlying_error, "No such file or directory (os error 2)");
        }
        _ => panic!("the batch should fail"),
    }
    assert!(host.files.contains_key("1.html"));
    assert!(!host.files.contains_key("2.html"));
    assert!(!host.files.contains_key("3.html"));
    assert_eq!(host.log, strings(&["read 1.md", "write 1.html", "read 2.md"]));
    assert_eq!(
        outcome.status_message(),
        Some("❌ Failed to read 2.md: No such file or directory (os error 2)".to_string())
    );
}

#[test]
fn batch_stops_at_the_first_failed_write() {
    let mut host = Host::new(&[("1.md", "one"), ("2.md", "two"), ("3.md", "three")]);
    host.denied.push("2.html".to_string());
    let outcome = host.run(
        job(&["1.md", "2.md", "3.md"], &["1.html", "2.html", "3.html"]),
        plain(),
    );
    match &outcome {
        ConversionOutcome::Failure { stage, path, underlying_error } => {
            assert_eq!(*stage, Stage::Write);
            assert_eq!(path, "2.html");
            assert_eq!(underlying_error, "Permission denied (os error 13)");
        }
        _ => panic!("the batch should fail"),
    }
    assert!(!outcome.is_success());
    assert!(host.files.contains_key("1.html"));
    assert!(!host.files.contains_key("2.html"));
    assert!(!host.files.contains_key("3.html"));
    assert_eq!(host.log, strings(&["read 1.md", "write 1.html", "read 2.md", "write 2.html"]));
    assert_eq!(
        outcome.status_message(),
        Some("❌ Failed to write 2.html: Permission denied (os error 13)".to_string())
    );
}

#[test]
fn earlier_pages_stay_as_they_were_written_when_a_later_pair_fails() {
    let mut alone = Host::new(&[("1.md", "*one*")]);
    alone.run(job(&["1.md"], &["1.html"]), plain());
    let mut host = Host::new(&[("1.md", "*one*")]);
    host.run(job(&["1.md", "2.md"], &["1.html", "2.html"]), plain());
    assert_eq!(host.files["1.html"], alone.files["1.html"]);
}

#[test]
fn converting_a_pair_twice_gives_the_same_page() {
    let files = [("a.md", "# Title\n\nSome *text* with ~~old~~ `code`.\n"), ("s.css", "h1{margin:0}")];
    let settings = || ConversionSettings::new(None, Some("s.css".to_string()), false);
    let mut first = Host::new(&files);
    first.run(job(&["a.md"], &["a.html"]), settings());
    let mut second = Host::new(&files);
    second.run(job(&["a.md"], &["a.html"]), settings());
    assert_eq!(first.files["a.html"], second.files["a.html"]);
    let page = first.files["a.html"].clone();
    first.run(job(&["a.md"], &["a.html"]), settings());
    assert_eq!(first.files["a.html"], page);
}

#[test]
fn page_of_a_pair_does_not_depend_on_its_place_in_the_job() {
    let files = [("a.md", "alpha"), ("b.md", "beta")];
    let mut one = Host::new(&files);
    one.run(job(&["a.md", "b.md"], &["a.html", "b.html"]), plain());
    let mut other = Host::new(&files);
    other.run(job(&["b.md", "a.md"], &["b.html", "a.html"]), plain());
    assert_eq!(one.files["a.html"], other.files["a.html"]);
    assert_eq!(one.files["b.html"], other.files["b.html"]);
}

#[test]
fn strikethrough_is_rendered_as_deleted_text() {
    let mut host = Host::new(&[("a.md", "~~x~~")]);
    host.run(job(&["a.md"], &["a.html"]), plain());
    let page = &host.files["a.html"];
    assert!(page.contains("<body><p><del>x</del></p>\n</body>"));
    assert!(!page.contains("~~"));
}

#[test]
fn markup_is_rendered_to_html() {
    let markup = "# Head\n\n*em* **strong** `code` [link](https://example.com)\n\n- one\n- two\n\n```\nblock\n```\n";
    let mut host = Host::new(&[("a.md", markup)]);
    host.run(job(&["a.md"], &["a.html"]), plain());
    let page = &host.files["a.html"];
    assert!(page.contains("<h1>Head</h1>"));
    assert!(page.contains("<em>em</em>"));
    assert!(page.contains("<strong>strong</strong>"));
    assert!(page.contains("<code>code</code>"));
    assert!(page.contains("<a href=\"https://example.com\">link</a>"));
    assert!(page.contains("<ul>\n<li>one</li>\n<li>two</li>\n</ul>"));
    assert!(page.contains("<pre><code>block\n</code></pre>"));
}

#[test]
fn malformed_markup_comes_out_as_text() {
    let mut host = Host::new(&[("a.md", "**unclosed [link( `tick")]);
    let outcome = host.run(job(&["a.md"], &["a.html"]), plain());
    assert!(outcome.is_success());
    assert!(host.files["a.html"].contains("<p>**unclosed [link( `tick</p>"));
}

#[test]
fn empty_input_gives_a_page_with_an_empty_body() {
    let mut host = Host::new(&[("a.md", "")]);
    host.run(job(&["a.md"], &["a.html"]), plain());
    assert!(host.files["a.html"].ends_with("<body></body></html>"));
}

#[test]
fn written_page_is_a_complete_document() {
    let mut host = Host::new(&[("a.md", "# Hi\n\ntext\n"), ("s.css", "p{color:blue}")]);
    host.run(
        job(&["a.md"], &["a.html"]),
        ConversionSettings::new(None, Some("s.css".to_string()), false),
    );
    let page = &host.files["a.html"];
    assert!(page.starts_with("<!DOCTYPE html>"));
    assert!(page.ends_with("</html>"));
    for tag in ["<head>", "<title>", "</title>", "</head>", "<body>", "</body>"] {
        assert_eq!(count(page, tag), 1, "tag {}", tag);
    }
    let at = |tag: &str| page.find(tag).unwrap();
    assert!(at("<head>") < at("<title>"));
    assert!(at("<title>") < at("</title>"));
    assert!(at("</title>") < at("</head>"));
    assert!(at("</head>") < at("<body>"));
    assert!(at("<body>") < at("</body>"));
}

#[test]
fn page_tag_in_the_title_is_put_in_as_it_is() {
    let mut host = Host::new(&[("a.md", "x")]);
    host.run(
        job(&["a.md"], &["a.html"]),
        ConversionSettings::new(Some("<body>".to_string()), None, false),
    );
    let page = &host.files["a.html"];
    assert!(page.contains("<title><body></title>"));
    assert_eq!(count(page, "<body>"), 2);
}

#[test]
fn preview_follows_each_write_and_its_failure_is_ignored() {
    let mut host = Host::new(&[("a.md", "a"), ("b.md", "b")]);
    let outcome = host.run(
        job(&["a.md", "b.md"], &["a.html", "b.html"]),
        ConversionSettings::new(None, None, true),
    );
    assert!(outcome.is_success());
    assert_eq!(host.shown, strings(&["a.html", "b.html"]));
    assert_eq!(
        host.log,
        strings(&["read a.md", "write a.html", "show a.html", "read b.md", "write b.html", "show b.html"])
    );
}

#[test]
fn page_that_was_not_written_is_not_shown() {
    let mut host = Host::new(&[("a.md", "a")]);
    host.denied.push("a.html".to_string());
    let outcome = host.run(job(&["a.md"], &["a.html"]), ConversionSettings::new(None, None, true));
    assert!(matches!(outcome, ConversionOutcome::Failure { stage: Stage::Write, .. }));
    assert!(host.shown.is_empty());
}

#[test]
fn success_names_the_last_pair() {
    let mut host = Host::new(&[("a.md", "a"), ("b.md", "b")]);
    let outcome = host.run(job(&["a.md", "b.md"], &["a.html", "b.html"]), plain());
    match outcome {
        ConversionOutcome::Success { input, output } => {
            assert_eq!(input, "b.md");
            assert_eq!(output, "b.html");
        }
        _ => panic!("the batch should succeed"),
    }
}

#[test]
fn finish_is_repeated_after_the_end() {
    let (mut engine, first) = ConversionEngine::start(job(&["a.md"], &["a.html"]), plain());
    assert!(matches!(first, Action::ReadInput { .. }));
    let end = engine.step(Err("gone".to_string()));
    assert!(matches!(end, Action::Finish { .. }));
    for reply in [Ok("text".to_string()), Err("cause".to_string()), Ok(String::new())] {
        match engine.step(reply) {
            Action::Finish { outcome: ConversionOutcome::Failure { stage, path, underlying_error } } => {
                assert_eq!(stage, Stage::Read);
                assert_eq!(path, "a.md");
                assert_eq!(underlying_error, "gone");
            }
            _ => panic!("the batch has ended"),
        }
        assert!(engine.is_finished());
    }
}

#[test]
fn progress_counts_the_pairs_done() {
    let (mut engine, _) = ConversionEngine::start(
        job(&["a.md", "b.md"], &["a.html", "b.html"]),
        ConversionSettings::new(None, None, true),
    );
    assert_eq!((engine.completed(), engine.total()), (0, 2));
    engine.step(Ok("a".to_string()));
    assert_eq!(engine.completed(), 0);
    let shown = engine.step(Ok(String::new()));
    assert!(matches!(shown, Action::Preview { .. }));
    assert_eq!(engine.completed(), 0);
    let next = engine.step(Ok(String::new()));
    assert!(matches!(next, Action::ReadInput { .. }));
    assert_eq!(engine.completed(), 1);
    engine.step(Ok("b".to_string()));
    engine.step(Ok(String::new()));
    assert!(!engine.is_finished());
    let end = engine.step(Ok(String::new()));
    assert!(matches!(end, Action::Finish { outcome: ConversionOutcome::Success { .. } }));
    assert_eq!((engine.completed(), engine.total()), (2, 2));
    assert!(engine.is_finished());
}

#[test]
fn write_is_asked_with_the_output_of_the_pair_read() {
    let (mut engine, first) = ConversionEngine::start(job(&["in/a.md"], &["out/a.html"]), plain());
    match first {
        Action::ReadInput { path } => assert_eq!(path, "in/a.md"),
        _ => panic!("the input is read first"),
    }
    match engine.step(Ok("hi".to_string())) {
        Action::WriteOutput { path, document } => {
            assert_eq!(path, "out/a.html");
            assert!(document.contains("<title>a.md</title>"));
            assert!(document.contains("<p>hi</p>"));
        }
        _ => panic!("the page is written next"),
    }
}

#[test]
fn outcome_can_be_copied() {
    let outcome = ConversionOutcome::Failure {
        stage: Stage::Write,
        path: "a.html".to_string(),
        underlying_error: "disk full".to_string(),
    };
    let copy = outcome.duplicate();
    assert_eq!(copy.status_message(), outcome.status_message());
    assert_eq!(copy.status_message(), Some("❌ Failed to write a.html: disk full".to_string()));
}

#[test]
fn job_knows_whether_it_is_paired() {
    assert!(job(&[], &[]).is_paired());
    assert!(job(&["a"], &["b"]).is_paired());
    assert!(!job(&["a"], &[]).is_paired());
    assert!(!job(&["a"], &["b", "c"]).is_paired());
}

#[test]
fn pair_is_added_at_the_end() {
    let mut job = job(&["a.md"], &["a.html"]);
    job.add_pair("b.md".to_string(), "b.html".to_string());
    assert_eq!(job.inputs, strings(&["a.md", "b.md"]));
    assert_eq!(job.outputs, strings(&["a.html", "b.html"]));
    assert!(job.is_paired());
}

#[test]
fn pair_is_removed_with_both_its_paths() {
    let mut job = job(&["a.md", "b.md", "c.md"], &["a.html", "b.html", "c.html"]);
    assert!(job.remove_pair(1));
    assert_eq!(job.inputs, strings(&["a.md", "c.md"]));
    assert_eq!(job.outputs, strings(&["a.html", "c.html"]));
    assert!(!job.remove_pair(2));
    assert_eq!(job.inputs, strings(&["a.md", "c.md"]));
    assert_eq!(job.outputs, strings(&["a.html", "c.html"]));
}

#[test]
fn pair_is_not_removed_where_the_job_has_no_output_for_it() {
    let mut job = job(&["a.md", "b.md"], &["a.html"]);
    assert!(!job.remove_pair(1));
    assert_eq!(job.inputs, strings(&["a.md", "b.md"]));
    assert_eq!(job.outputs, strings(&["a.html"]));
    assert!(job.remove_pair(0));
    assert_eq!(job.inputs, strings(&["b.md"]));
    assert!(job.outputs.is_empty());
}
