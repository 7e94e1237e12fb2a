use hurl::primitive::SourceInfo;
use hurl::report::{get_numbered_lines, EntrySource, HurlResult, SourceDoc, Testcase};
use hurl::runner::{Error, RunnerError};

fn error_at(line: usize) -> Error {
    Error {
        source_info: SourceInfo::init(line, 1, line, 5),
        inner: RunnerError::FileReadAccess { value: "x".to_string() },
        assert: true,
    }
}

fn source(filename: &str, content: &str) -> Option<EntrySource> {
    Some(EntrySource { filename: filename.to_string(), content: content.to_string() })
}

fn testcase(errors: Vec<(Error, SourceInfo, Option<EntrySource>)>) -> Testcase {
    Testcase {
        id: "abc".to_string(),
        filename: "main.hurl".to_string(),
        success: errors.is_empty(),
        time_in_ms: 12,
        errors,
        timestamp: 1700000000,
    }
}

fn doc(filename: &str, content: &str, page: &str) -> SourceDoc {
    SourceDoc { filename: filename.to_string(), content: content.to_string(), page: page.to_string() }
}

#[test]
fn page_file_names() {
    let tc = testcase(vec![]);
    assert_eq!(tc.source_filename(), "abc-source.html");
    assert_eq!(tc.timeline_filename(), "abc-timeline.html");
    assert_eq!(tc.run_filename(), "abc-run.html");
}

#[test]
fn numbered_lines_mark_error_lines() {
    assert_eq!(get_numbered_lines("", &[]), "<pre><code></pre></code>");
    assert_eq!(
        get_numbered_lines("GET a\nHTTP 200\n", &[2]),
        "<pre><code><a id=\"l1\" href=\"#l1\">1</a>\n<a id=\"l2\" href=\"#l2\" class=\"line-error\">2</a>\n</pre></code>"
    );
    let many = "x\n".repeat(11);
    let html = get_numbered_lines(&many, &[10, 99]);
    assert!(html.contains("<a id=\"l10\" href=\"#l10\" class=\"line-error\">10</a>\n"));
    assert!(html.contains("<a id=\"l11\" href=\"#l11\">11</a>\n</pre></code>"));
    assert_eq!(html.matches("<a id=").count(), 11);
}

#[test]
fn source_docs_top_then_each_erroneous_sub_script_once() {
    let tc = testcase(vec![
        (error_at(3), SourceInfo::init(3, 1, 3, 1), None),
        (error_at(2), SourceInfo::init(1, 1, 1, 1), source("login.hurl", "GET l\n")),
        (error_at(5), SourceInfo::init(1, 1, 1, 1), source("post.hurl", "GET p\n")),
        (error_at(4), SourceInfo::init(1, 1, 1, 1), source("login.hurl", "other")),
    ]);
    let docs = tc.source_docs("GET top\n");
    assert_eq!(
        docs,
        vec![
            doc("main.hurl", "GET top\n", "abc-source.html"),
            doc("login.hurl", "GET l\n", "abc-source-1.html"),
            doc("post.hurl", "GET p\n", "abc-source-2.html"),
        ]
    );
    assert_eq!(Testcase::doc_for(&None, &docs).filename, "main.hurl");
    assert_eq!(Testcase::doc_for(&source("post.hurl", ""), &docs).page, "abc-source-2.html");
    assert_eq!(Testcase::doc_for(&source("unknown.hurl", ""), &docs).filename, "main.hurl");

    assert_eq!(tc.source_error_lines(&docs[0], &docs), vec![3]);
    assert_eq!(tc.source_error_lines(&docs[1], &docs), vec![2, 4]);
    assert_eq!(tc.source_error_lines(&docs[2], &docs), vec![5]);
}

#[test]
fn sub_script_named_like_the_top_file_shares_its_page() {
    let tc = testcase(vec![(error_at(1), SourceInfo::init(1, 1, 1, 1), source("main.hurl", "sub"))]);
    let docs = tc.source_docs("top");
    assert_eq!(docs, vec![doc("main.hurl", "top", "abc-source.html")]);
    assert_eq!(tc.source_error_lines(&docs[0], &docs), vec![1]);
}

#[test]
fn report_pages_are_distinct() {
    let mut errors = vec![];
    for k in 0..12 {
        errors.push((error_at(k + 1), SourceInfo::init(1, 1, 1, 1), source(&format!("f{k}.hurl"), "c")));
    }
    let tc = testcase(errors);
    let docs = tc.source_docs("top");
    assert_eq!(docs.len(), 13);
    let mut pages: Vec<String> = docs.iter().map(|d| d.page.clone()).collect();
    pages.push(tc.timeline_filename());
    pages.push(tc.run_filename());
    let mut sorted = pages.clone();
    sorted.sort();
    sorted.dedup();
    assert_eq!(sorted.len(), pages.len());
    assert_eq!(docs[12].page, "abc-source-12.html");
}

#[test]
fn source_lines_html_marks_the_errors_of_the_document() {
    let tc = testcase(vec![
        (error_at(1), SourceInfo::init(1, 1, 1, 1), None),
        (error_at(2), SourceInfo::init(1, 1, 1, 1), source("sub.hurl", "a\nb\n")),
    ]);
    let docs = tc.source_docs("only\n");
    assert_eq!(
        tc.get_source_lines_html(&docs[1], &docs),
        "<pre><code><a id=\"l1\" href=\"#l1\">1</a>\n<a id=\"l2\" href=\"#l2\" class=\"line-error\">2</a>\n</pre></code>"
    );
    assert_eq!(
        tc.get_source_lines_html(&docs[0], &docs),
        "<pre><code><a id=\"l1\" href=\"#l1\" class=\"line-error\">1</a>\n</pre></code>"
    );
}

#[test]
fn testcase_from_copies_the_run_and_takes_a_uuid() {
    let result = HurlResult {
        errors: vec![(error_at(4), SourceInfo::init(4, 1, 4, 1), source("s.hurl", "c"))],
        duration_in_ms: 250,
        success: false,
        timestamp: 42,
    };
    let a = Testcase::from(&result, "tests/a.hurl");
    assert_eq!(a.filename, "tests/a.hurl");
    assert_eq!(a.errors, result.errors);
    assert_eq!(a.time_in_ms, 250);
    assert!(!a.success);
    assert_eq!(a.timestamp, 42);
    assert_eq!(a.id.len(), 36);
    for (i, c) in a.id.chars().enumerate() {
        if [8, 13, 18, 23].contains(&i) {
            assert_eq!(c, '-');
        } else {
            assert!(c.is_ascii_hexdigit() && !c.is_ascii_uppercase());
        }
    }
    assert_eq!(a.id.chars().nth(14), Some('4'));
    assert!(['8', '9', 'a', 'b'].contains(&a.id.chars().nth(19).unwrap()));
    let b = Testcase::from(&result, "tests/a.hurl");
    assert_ne!(a.id, b.id);
    let c = Testcase::with_id("fixed".to_string(), &result, "f.hurl");
    assert_eq!(c.id, "fixed");
    assert_eq!(c.source_filename(), "fixed-source.html");
}

#[test]
fn report_pages_in_write_order() {
    let tc = testcase(vec![
        (error_at(1), SourceInfo::init(1, 1, 1, 1), source("a.hurl", "x")),
        (error_at(2), SourceInfo::init(1, 1, 1, 1), None),
    ]);
    assert_eq!(
        tc.report_pages("top"),
        vec!["abc-timeline.html", "abc-run.html", "abc-source.html", "abc-source-1.html"]
    );
}
