//! Laws of the source documents of a testcase report.
use vstd::prelude::*;

use crate::primitive::SourceInfo;
use crate::report::{
    doc_index, error_lines_spec, has_doc, report_pages_spec, lemma_first_doc_from, run_page, source_docs_spec, source_page,
    sub_source_page, timeline_page, EntrySource, Testcase,
};
use crate::runner::Error;
use crate::report::{is_error_line, line_anchor, line_anchors, numbered_lines, report_pages_spec as pages_of};
use crate::text::{decimal, lemma_decimal_injective, lemma_decimal_len, newline_count};

verus! {

/// Whether an error source is the sub-script file of a document: same file name and content.
pub open spec fn gives_doc(source: Option<EntrySource>, doc: (Seq<char>, Seq<char>, Seq<char>)) -> bool {
    match source {
        Some(src) => src.filename@ == doc.0 && src.content@ == doc.1,
        None => false,
    }
}

/// The shape of a list of source documents built from `errors`: the top-level file first, then
/// documents of sub-script files, each with the page of its position, each file once, each taken
/// from the source of one of the errors.
pub open spec fn docs_shape(
    docs: Seq<(Seq<char>, Seq<char>, Seq<char>)>,
    id: Seq<char>,
    top_filename: Seq<char>,
    top_content: Seq<char>,
    errors: Seq<(Error, SourceInfo, Option<EntrySource>)>,
) -> bool {
    &&& docs.len() >= 1
    &&& docs[0] == (top_filename, top_content, source_page(id))
    &&& forall|k: int| 1 <= k < docs.len() ==> (#[trigger] docs[k]).2 == sub_source_page(id, k as nat)
    &&& forall|j: int, k: int| 0 <= j < k < docs.len() ==> (#[trigger] docs[j]).0 != (#[trigger] docs[k]).0
    &&& forall|k: int|
        1 <= k < docs.len() ==> exists|i: int|
            0 <= i < errors.len() && gives_doc(#[trigger] errors[i].2, #[trigger] docs[k])
    &&& forall|i: int|
        0 <= i < errors.len() ==> ((#[trigger] errors[i]).2 matches Some(src) ==> has_doc(
            docs,
            src.filename@,
        ))
}

proof fn lemma_docs_shape(
    id: Seq<char>,
    top_filename: Seq<char>,
    top_content: Seq<char>,
    errors: Seq<(Error, SourceInfo, Option<EntrySource>)>,
)
    ensures
        docs_shape(
            source_docs_spec(id, top_filename, top_content, errors),
            id,
            top_filename,
            top_content,
            errors,
        ),
    decreases errors.len(),
{
    let docs = source_docs_spec(id, top_filename, top_content, errors);
    if errors.len() > 0 {
        let prev_errors = errors.drop_last();
        let prev = source_docs_spec(id, top_filename, top_content, prev_errors);
        lemma_docs_shape(id, top_filename, top_content, prev_errors);
        let last = errors.len() - 1;
        assert forall|i: int| 0 <= i < last implies #[trigger] errors[i] == prev_errors[i] by {}
        match errors.last().2 {
            Some(src) => {
                if has_doc(prev, src.filename@) {
                    assert(docs == prev);
                    assert forall|k: int| 1 <= k < docs.len() implies exists|i: int|
                        0 <= i < errors.len() && gives_doc(#[trigger] errors[i].2, #[trigger] docs[k]) by {
                        let i = choose|i: int|
                            0 <= i < prev_errors.len() && gives_doc(#[trigger] prev_errors[i].2, #[trigger] prev[k]);
                        assert(errors[i] == prev_errors[i]);
                    }
                    assert forall|i: int|
                        0 <= i < errors.len() implies ((#[trigger] errors[i]).2 matches Some(s)
                        ==> has_doc(docs, s.filename@)) by {
                        if i < last {
                            assert(errors[i] == prev_errors[i]);
                        }
                    }
                } else {
                    let n = prev.len();
                    assert(docs == prev.push((src.filename@, src.content@, sub_source_page(id, n))));
                    assert(docs[n as int].0 == src.filename@);
                    assert forall|j: int, k: int|
                        0 <= j < k < docs.len() implies (#[trigger] docs[j]).0 != (
                        #[trigger] docs[k]).0 by {
                        if k == n {
                            assert(prev[j] == docs[j]);
                        } else {
                            assert(prev[j] == docs[j]);
                            assert(prev[k] == docs[k]);
                        }
                    }
                    assert forall|k: int| 1 <= k < docs.len() implies exists|i: int|
                        0 <= i < errors.len() && gives_doc(#[trigger] errors[i].2, #[trigger] docs[k]) by {
                        if k == n {
                            assert(errors[last].2 == Some(src));
                        } else {
                            assert(prev[k] == docs[k]);
                            let i = choose|i: int|
                                0 <= i < prev_errors.len() && gives_doc(#[trigger] prev_errors[i].2, #[trigger] prev[k]);
                            assert(errors[i] == prev_errors[i]);
                        }
                    }
                    assert forall|i: int|
                        0 <= i < errors.len() implies ((#[trigger] errors[i]).2 matches Some(s)
                        ==> has_doc(docs, s.filename@)) by {
                        if i < last {
                            assert(errors[i] == prev_errors[i]);
                            if let Some(s) = errors[i].2 {
                                let j = choose|j: int|
                                    0 <= j < prev.len() && (#[trigger] prev[j]).0 == s.filename@;
                                assert(docs[j] == prev[j]);
                            }
                        } else {
                            assert(docs[n as int].0 == src.filename@);
                        }
                    }
                }
            },
            None => {
                assert(docs == prev);
                assert forall|k: int| 1 <= k < docs.len() implies exists|i: int|
                    0 <= i < errors.len() && gives_doc(#[trigger] errors[i].2, #[trigger] docs[k]) by {
                    let i = choose|i: int|
                        0 <= i < prev_errors.len() && gives_doc(#[trigger] prev_errors[i].2, #[trigger] prev[k]);
                    assert(errors[i] == prev_errors[i]);
                }
                assert forall|i: int|
                    0 <= i < errors.len() implies ((#[trigger] errors[i]).2 matches Some(s)
                    ==> has_doc(docs, s.filename@)) by {
                    if i < last {
                        assert(errors[i] == prev_errors[i]);
                    }
                }
            },
        }
    }
}

/// The source documents of a testcase, as `Testcase::source_docs` gives them.
pub open spec fn testcase_docs(tc: Testcase, top_content: Seq<char>) -> Seq<
    (Seq<char>, Seq<char>, Seq<char>),
> {
    source_docs_spec(tc.id@, tc.filename@, top_content, tc.errors@)
}

/// The first source document is the top-level file, with the given content, rendered to the
/// source page of the testcase.
pub proof fn law_source_docs_top_first(tc: Testcase, top_content: Seq<char>)
    ensures
        testcase_docs(tc, top_content).len() >= 1,
        testcase_docs(tc, top_content)[0] == (tc.filename@, top_content, source_page(tc.id@)),
{
    lemma_docs_shape(tc.id@, tc.filename@, top_content, tc.errors@);
}

/// No two source documents have the same file name.
pub proof fn law_source_docs_distinct_files(tc: Testcase, top_content: Seq<char>, j: int, k: int)
    requires
        0 <= j < k < testcase_docs(tc, top_content).len(),
    ensures
        testcase_docs(tc, top_content)[j].0 != testcase_docs(tc, top_content)[k].0,
{
    lemma_docs_shape(tc.id@, tc.filename@, top_content, tc.errors@);
    let docs = testcase_docs(tc, top_content);
    assert(docs[j].0 != docs[k].0);
}

/// Every source document after the first is the file and content of the sub-script source of
/// one of the errors.
pub proof fn law_source_docs_come_from_errors(tc: Testcase, top_content: Seq<char>, k: int)
    requires
        1 <= k < testcase_docs(tc, top_content).len(),
    ensures
        exists|i: int|
            0 <= i < tc.errors@.len() && gives_doc(
                #[trigger] tc.errors@[i].2,
                testcase_docs(tc, top_content)[k],
            ),
{
    lemma_docs_shape(tc.id@, tc.filename@, top_content, tc.errors@);
    let docs = testcase_docs(tc, top_content);
    assert(1 <= k < docs.len());
}

/// Each error is attributed to the document of its own file: the document of its sub-script
/// file when it comes from a sub-script, else the top-level file.
pub proof fn law_doc_for_error_file(tc: Testcase, top_content: Seq<char>, i: int)
    requires
        0 <= i < tc.errors@.len(),
    ensures
        0 <= doc_index(testcase_docs(tc, top_content), tc.errors@[i].2) < testcase_docs(
            tc,
            top_content,
        ).len(),
        testcase_docs(tc, top_content)[doc_index(
            testcase_docs(tc, top_content),
            tc.errors@[i].2,
        )].0 == match tc.errors@[i].2 {
            Some(src) => src.filename@,
            None => tc.filename@,
        },
{
    let docs = testcase_docs(tc, top_content);
    lemma_docs_shape(tc.id@, tc.filename@, top_content, tc.errors@);
    let e = tc.errors@[i];
    if let Some(src) = e.2 {
        assert(has_doc(docs, src.filename@));
        lemma_first_doc_from(docs, src.filename@, 0);
    }
}

/// The page of the `j`-th source document is not the page of the `k`-th one, nor the timeline
/// page, nor the run page: the report's pages never overwrite one another.
pub proof fn law_report_pages_distinct(tc: Testcase, top_content: Seq<char>, j: int, k: int)
    requires
        0 <= j < testcase_docs(tc, top_content).len(),
        0 <= k < testcase_docs(tc, top_content).len(),
        j != k,
    ensures
        testcase_docs(tc, top_content)[j].2 != testcase_docs(tc, top_content)[k].2,
        testcase_docs(tc, top_content)[j].2 != timeline_page(tc.id@),
        testcase_docs(tc, top_content)[j].2 != run_page(tc.id@),
{
    lemma_docs_shape(tc.id@, tc.filename@, top_content, tc.errors@);
    lemma_doc_pages_distinct(tc.id@, j, k);
}

/// The file an error belongs to: its sub-script file, else the top-level file `top`.
pub open spec fn error_file(source: Option<EntrySource>, top: Seq<char>) -> Seq<char> {
    match source {
        Some(src) => src.filename@,
        None => top,
    }
}

/// The lines of the errors of `errors` that belong to the file `name`, in order.
pub open spec fn file_error_lines(
    errors: Seq<(Error, SourceInfo, Option<EntrySource>)>,
    name: Seq<char>,
    top: Seq<char>,
) -> Seq<usize>
    decreases errors.len(),
{
    if errors.len() == 0 {
        Seq::empty()
    } else {
        let lines = file_error_lines(errors.drop_last(), name, top);
        if error_file(errors.last().2, top) == name {
            lines.push(errors.last().0.source_info.start.line)
        } else {
            lines
        }
    }
}

/// The error lines marked on the source page of a file are the lines of the errors of that very
/// file: an error of a sub-script is marked on the page of the sub-script, at its own line, and
/// only there.
pub proof fn law_errors_marked_on_own_file(tc: Testcase, top_content: Seq<char>, name: Seq<char>)
    ensures
        error_lines_spec(tc.errors@, name, testcase_docs(tc, top_content)) == file_error_lines(
            tc.errors@,
            name,
            tc.filename@,
        ),
{
    lemma_error_lines_prefix(tc, top_content, name, tc.errors@.len() as int);
    assert(tc.errors@.take(tc.errors@.len() as int) =~= tc.errors@);
}

proof fn lemma_error_lines_prefix(tc: Testcase, top_content: Seq<char>, name: Seq<char>, m: int)
    requires
        0 <= m <= tc.errors@.len(),
    ensures
        error_lines_spec(tc.errors@.take(m), name, testcase_docs(tc, top_content))
            == file_error_lines(tc.errors@.take(m), name, tc.filename@),
    decreases m,
{
    if m > 0 {
        lemma_error_lines_prefix(tc, top_content, name, m - 1);
        let pre = tc.errors@.take(m);
        assert(pre.drop_last() =~= tc.errors@.take(m - 1));
        assert(pre.last() == tc.errors@[m - 1]);
        law_doc_for_error_file(tc, top_content, m - 1);
    }
}

/// No page of a testcase report is written twice: the written pages are pairwise distinct.
pub proof fn law_report_page_list_distinct(tc: Testcase, top_content: Seq<char>, i: int, j: int)
    requires
        0 <= i < j < report_pages_spec(tc.id@, testcase_docs(tc, top_content)).len(),
    ensures
        report_pages_spec(tc.id@, testcase_docs(tc, top_content))[i] != report_pages_spec(
            tc.id@,
            testcase_docs(tc, top_content),
        )[j],
{
    let docs = testcase_docs(tc, top_content);
    let pages = report_pages_spec(tc.id@, docs);
    reveal_strlit("-timeline.html");
    reveal_strlit("-run.html");
    assert(timeline_page(tc.id@).len() != run_page(tc.id@).len());
    if j >= 2 {
        assert(pages[j] == docs[j - 2].2);
        if i >= 2 {
            assert(pages[i] == docs[i - 2].2);
            law_report_pages_distinct(tc, top_content, i - 2, j - 2);
        } else {
            lemma_docs_shape(tc.id@, tc.filename@, top_content, tc.errors@);
            lemma_doc_pages_distinct(tc.id@, j - 2, j - 1);
        }
    }
}

/// The page of document `j` (the source page for 0, a numbered source page after it).
pub open spec fn doc_page(id: Seq<char>, j: int) -> Seq<char> {
    if j == 0 {
        source_page(id)
    } else {
        sub_source_page(id, j as nat)
    }
}

proof fn lemma_doc_pages_distinct(id: Seq<char>, j: int, k: int)
    requires
        0 <= j,
        0 <= k,
        j != k,
    ensures
        doc_page(id, j) != doc_page(id, k),
        doc_page(id, j) != timeline_page(id),
        doc_page(id, j) != run_page(id),
{
    reveal_strlit("-source.html");
    reveal_strlit("-source-");
    reveal_strlit(".html");
    reveal_strlit("-timeline.html");
    reveal_strlit("-run.html");
    let n: int = id.len() as int;
    let s = source_page(id);
    let t = timeline_page(id);
    let r = run_page(id);
    assert(s.len() == n + 12);
    assert(t.len() == n + 14);
    assert(r.len() == n + 9);
    assert(s[n + 1] == 's');
    assert(t[n + 1] == 't');
    if j > 0 {
        lemma_decimal_len(j as nat);
        let dj = decimal(j as nat);
        let pj = sub_source_page(id, j as nat);
        assert(pj.len() == n + 13 + dj.len());
        assert(pj[n + 1] == 's');
        assert(pj != t) by {
            if pj.len() == t.len() {
                assert(pj[n + 1] != t[n + 1]);
            }
        }
        assert(pj != r);
        if k > 0 {
            lemma_decimal_len(k as nat);
            let dk = decimal(k as nat);
            let pk = sub_source_page(id, k as nat);
            assert(pk.len() == n + 13 + dk.len());
            assert(pj != pk) by {
                if pj == pk {
                    assert(dj.len() == dk.len());
                    assert(pj.subrange(n + 8, n + 8 + dj.len()) =~= dj);
                    assert(pk.subrange(n + 8, n + 8 + dk.len()) =~= dk);
                    lemma_decimal_injective(j as nat, k as nat);
                }
            }
        } else {
            assert(pj != s);
        }
    } else {
        assert(s != t);
        assert(s != r);
        lemma_decimal_len(k as nat);
        let pk = sub_source_page(id, k as nat);
        assert(pk.len() == n + 13 + decimal(k as nat).len());
        assert(s != pk);
    }
}

/// A text with no line feed holds no line feed.
proof fn lemma_no_newline_count(t: Seq<char>)
    requires
        !t.contains('\n'),
    ensures
        newline_count(t) == 0,
    decreases t.len(),
{
    if t.len() > 0 {
        assert(!t.drop_last().contains('\n')) by {
            if t.drop_last().contains('\n') {
                let i = choose|i: int| 0 <= i < t.drop_last().len() && t.drop_last()[i] == '\n';
                assert(t[i] == '\n');
            }
        }
        assert(t[t.len() - 1] != '\n');
        lemma_no_newline_count(t.drop_last());
    }
}

/// An empty text has no numbered line.
pub proof fn law_numbered_lines_empty(error_lines: Seq<usize>)
    ensures
        numbered_lines(Seq::empty(), error_lines) == "<pre><code>"@ + "</pre></code>"@,
{
    assert("<pre><code>"@ + Seq::<char>::empty() =~= "<pre><code>"@);
}

/// A single line of text, with no line feed at its end, is numbered: it gets the anchor of
/// line 1, marked as an error when line 1 is an error line.
pub proof fn law_numbered_lines_single_line(t: Seq<char>, error_lines: Seq<usize>)
    requires
        t.len() > 0,
        !t.contains('\n'),
    ensures
        numbered_lines(t, error_lines) == "<pre><code>"@ + line_anchor(
            1,
            is_error_line(error_lines, 1),
        ) + "</pre></code>"@,
{
    lemma_no_newline_count(t);
    assert(t.last() != '\n') by {
        assert(t[t.len() - 1] != '\n');
    }
    assert(line_anchors(0, error_lines) =~= Seq::<char>::empty());
    assert(line_anchors(1, error_lines) =~= line_anchor(1, is_error_line(error_lines, 1)));
}

/// A line feed that ends the last line opens no new line: the numbered lines of a text whose
/// last line has no line feed are those of the same text with a line feed added.
pub proof fn law_numbered_lines_final_line_feed(c: Seq<char>, error_lines: Seq<usize>)
    requires
        c.len() > 0,
        c.last() != '\n',
    ensures
        numbered_lines(c.push('\n'), error_lines) == numbered_lines(c, error_lines),
{
    assert(c.push('\n').drop_last() =~= c);
}

/// Each line feed ends a numbered line: a text that ends with a line feed has one numbered line
/// per line feed, the anchors of lines `1..=n` one after the other.
pub proof fn law_numbered_lines_count_line_feeds(c: Seq<char>, error_lines: Seq<usize>)
    requires
        c.len() > 0,
        c.last() == '\n',
    ensures
        numbered_lines(c, error_lines) == "<pre><code>"@ + line_anchors(newline_count(c), error_lines)
            + "</pre></code>"@,
{
}

/// A last line that no line feed ends is numbered too: such a text has one numbered line more
/// than it has line feeds.
pub proof fn law_numbered_lines_unterminated_last_line(c: Seq<char>, error_lines: Seq<usize>)
    requires
        c.len() > 0,
        c.last() != '\n',
    ensures
        numbered_lines(c, error_lines) == "<pre><code>"@ + line_anchors(
            newline_count(c) + 1,
            error_lines,
        ) + "</pre></code>"@,
{
}

/// The report writes the timeline page, the run page, then the page of every source document,
/// the top-level file's source page first: two pages more than there are documents.
pub proof fn law_report_pages_all_docs(tc: Testcase, top_content: Seq<char>)
    ensures
        pages_of(tc.id@, testcase_docs(tc, top_content)).len() == testcase_docs(tc, top_content).len() + 2,
        pages_of(tc.id@, testcase_docs(tc, top_content))[0] == timeline_page(tc.id@),
        pages_of(tc.id@, testcase_docs(tc, top_content))[1] == run_page(tc.id@),
        pages_of(tc.id@, testcase_docs(tc, top_content))[2] == source_page(tc.id@),
        forall|k: int|
            0 <= k < testcase_docs(tc, top_content).len() ==> pages_of(
                tc.id@,
                testcase_docs(tc, top_content),
            )[k + 2] == (#[trigger] testcase_docs(tc, top_content)[k]).2,
{
    let docs = testcase_docs(tc, top_content);
    lemma_docs_shape(tc.id@, tc.filename@, top_content, tc.errors@);
    let pages = pages_of(tc.id@, docs);
    assert forall|k: int| 0 <= k < docs.len() implies pages[k + 2] == (#[trigger] docs[k]).2 by {}
    assert(pages[2] == docs[0].2);
}

} // verus!
