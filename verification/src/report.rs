//! The HTML report of a testcase: its page file names, its source documents, and the numbered
//! lines of a source page with its error lines marked.
use vstd::prelude::*;

use crate::primitive::SourceInfo;
use crate::runner::Error;
use crate::text::{count_lines, decimal, line_count, usize_to_decimal};
use uuid::Uuid;

verus! {

/// Whether `line` is one of `error_lines`.
pub open spec fn is_error_line(error_lines: Seq<usize>, line: int) -> bool {
    exists|i: int| 0 <= i < error_lines.len() && error_lines[i] == line
}

/// The HTML anchor of a line number, with the error class when the line holds an error.
pub open spec fn line_anchor(line: nat, error: bool) -> Seq<char> {
    let n = decimal(line);
    if error {
        "<a id=\"l"@ + n + "\" href=\"#l"@ + n + "\" class=\"line-error\">"@ + n + "</a>\n"@
    } else {
        "<a id=\"l"@ + n + "\" href=\"#l"@ + n + "\">"@ + n + "</a>\n"@
    }
}

/// The anchors of lines `1..=count`, one after the other.
pub open spec fn line_anchors(count: nat, error_lines: Seq<usize>) -> Seq<char>
    decreases count,
{
    if count == 0 {
        Seq::empty()
    } else {
        line_anchors((count - 1) as nat, error_lines) + line_anchor(
            count,
            is_error_line(error_lines, count as int),
        )
    }
}

/// The numbered lines of a text in HTML: one anchor per line of `content`, the lines of
/// `error_lines` marked as errors.
pub open spec fn numbered_lines(content: Seq<char>, error_lines: Seq<usize>) -> Seq<char> {
    "<pre><code>"@ + line_anchors(line_count(content), error_lines) + "</pre></code>"@
}

fn contains_line(error_lines: &[usize], line: usize) -> (r: bool)
    ensures
        r == is_error_line(error_lines@, line as int),
{
    let mut i: usize = 0;
    while i < error_lines.len()
        invariant
            0 <= i <= error_lines@.len(),
            forall|j: int| 0 <= j < i ==> error_lines@[j] != line,
        decreases error_lines@.len() - i,
    {
        if error_lines[i] == line {
            return true;
        }
        i = i + 1;
    }
    false
}

/// Appends the anchor of the line `line` to `lines`.
fn append_anchor(lines: &mut String, line: usize, error: bool)
    ensures
        final(lines)@ == old(lines)@ + line_anchor(line as nat, error),
{
    let n = usize_to_decimal(line);
    lines.append("<a id=\"l");
    lines.append(n.as_str());
    lines.append("\" href=\"#l");
    lines.append(n.as_str());
    if error {
        lines.append("\" class=\"line-error\">");
    } else {
        lines.append("\">");
    }
    lines.append(n.as_str());
    lines.append("</a>\n");
    proof {
        let nn = decimal(line as nat);
        if error {
            assert(old(lines)@ + "<a id=\"l"@ + nn + "\" href=\"#l"@ + nn + "\" class=\"line-error\">"@
                + nn + "</a>\n"@ =~= old(lines)@ + line_anchor(line as nat, true));
        } else {
            assert(old(lines)@ + "<a id=\"l"@ + nn + "\" href=\"#l"@ + nn + "\">"@ + nn + "</a>\n"@
                =~= old(lines)@ + line_anchor(line as nat, false));
        }
    }
}

/// Returns a list of lines number in HTML, marking `error_lines` as errors.
pub fn get_numbered_lines(content: &str, error_lines: &[usize]) -> (s: String)
    ensures
        s@ == numbered_lines(content@, error_lines@),
{
    let count = count_lines(content);
    let mut lines = "<pre><code>".to_owned();
    let mut line: usize = 0;
    while line < count
        invariant
            line <= count,
            count == line_count(content@),
            lines@ == "<pre><code>"@ + line_anchors(line as nat, error_lines@),
        decreases count - line,
    {
        line = line + 1;
        let error = contains_line(error_lines, line);
        append_anchor(&mut lines, line, error);
    }
    lines.append("</pre></code>");
    lines
}

/// The source of an entry run from a sub-script: the file it comes from and its content.
#[derive(Clone, Debug, PartialEq, Eq)]
pub struct EntrySource {
    pub filename: String,
    pub content: String,
}

/// The outcome of a run of a Hurl file, as the report needs it.
#[derive(Clone, Debug, PartialEq, Eq)]
pub struct HurlResult {
    /// The runtime errors: the error, the source information of the entry throwing it, and the
    /// source of that entry when it comes from a sub-script.
    pub errors: Vec<(Error, SourceInfo, Option<EntrySource>)>,
    /// The duration of the run, in milliseconds.
    pub duration_in_ms: u128,
    pub success: bool,
    pub timestamp: i64,
}

#[derive(Clone, Debug, PartialEq, Eq)]
pub struct Testcase {
    /// Unique identifier of this testcase.
    pub id: String,
    /// Source file name.
    pub filename: String,
    pub success: bool,
    pub time_in_ms: u128,
    /// The runtime errors: the error, the source information of the entry throwing this error, and
    /// the source (file and content) of that entry when it comes from an included sub-script.
    pub errors: Vec<(Error, SourceInfo, Option<EntrySource>)>,
    pub timestamp: i64,
}

/// A source document rendered as its own HTML page: the top-level file, or a sub-script file
/// that contains at least one error.
#[derive(Clone, Debug, PartialEq, Eq)]
pub struct SourceDoc {
    /// Displayed file name.
    pub filename: String,
    /// File content (syntax colored in the page).
    pub content: String,
    /// HTML page file name this document is rendered to.
    pub page: String,
}

impl View for SourceDoc {
    /// The file name, the content and the page of the document.
    type V = (Seq<char>, Seq<char>, Seq<char>);

    open spec fn view(&self) -> (Seq<char>, Seq<char>, Seq<char>) {
        (self.filename@, self.content@, self.page@)
    }
}

/// The page of the source view of the testcase `id`.
pub open spec fn source_page(id: Seq<char>) -> Seq<char> {
    id + "-source.html"@
}

/// The page of the timeline view of the testcase `id`.
pub open spec fn timeline_page(id: Seq<char>) -> Seq<char> {
    id + "-timeline.html"@
}

/// The page of the run view of the testcase `id`.
pub open spec fn run_page(id: Seq<char>) -> Seq<char> {
    id + "-run.html"@
}

/// The page of the `k`-th source document of the testcase `id`, for a sub-script file.
pub open spec fn sub_source_page(id: Seq<char>, k: nat) -> Seq<char> {
    id + "-source-"@ + decimal(k) + ".html"@
}

/// The views of a list of documents.
pub open spec fn doc_views(docs: Seq<SourceDoc>) -> Seq<(Seq<char>, Seq<char>, Seq<char>)> {
    docs.map_values(|d: SourceDoc| d@)
}

/// Whether one of `docs` has the file name `name`.
pub open spec fn has_doc(docs: Seq<(Seq<char>, Seq<char>, Seq<char>)>, name: Seq<char>) -> bool {
    exists|j: int| 0 <= j < docs.len() && (#[trigger] docs[j]).0 == name
}

/// The source documents of a testcase: the top-level file first, then each file of a sub-script
/// with an error, in the order their first error comes, each once.
pub open spec fn source_docs_spec(
    id: Seq<char>,
    top_filename: Seq<char>,
    top_content: Seq<char>,
    errors: Seq<(Error, SourceInfo, Option<EntrySource>)>,
) -> Seq<(Seq<char>, Seq<char>, Seq<char>)>
    decreases errors.len(),
{
    if errors.len() == 0 {
        seq![(top_filename, top_content, source_page(id))]
    } else {
        let docs = source_docs_spec(id, top_filename, top_content, errors.drop_last());
        match errors.last().2 {
            Some(src) => if has_doc(docs, src.filename@) {
                docs
            } else {
                docs.push((src.filename@, src.content@, sub_source_page(id, docs.len())))
            },
            None => docs,
        }
    }
}

/// Whether one of `docs` has the file name `name`.
fn has_doc_named(docs: &Vec<SourceDoc>, name: &String) -> (r: bool)
    ensures
        r == has_doc(doc_views(docs@), name@),
{
    let ghost views = doc_views(docs@);
    let mut j: usize = 0;
    while j < docs.len()
        invariant
            0 <= j <= docs@.len(),
            views == doc_views(docs@),
            forall|k: int| 0 <= k < j ==> views[k].0 != name@,
        decreases docs@.len() - j,
    {
        if docs[j].filename == *name {
            assert(views[j as int].0 == name@);
            return true;
        }
        j = j + 1;
    }
    false
}

impl Testcase {
    pub fn source_filename(&self) -> (s: String)
        ensures
            s@ == source_page(self.id@),
    {
        let mut s = self.id.clone();
        s.append("-source.html");
        s
    }

    pub fn timeline_filename(&self) -> (s: String)
        ensures
            s@ == timeline_page(self.id@),
    {
        let mut s = self.id.clone();
        s.append("-timeline.html");
        s
    }

    pub fn run_filename(&self) -> (s: String)
        ensures
            s@ == run_page(self.id@),
    {
        let mut s = self.id.clone();
        s.append("-run.html");
        s
    }

    /// The page of the `k`-th source document, for a sub-script file.
    fn sub_source_filename(&self, k: usize) -> (s: String)
        ensures
            s@ == sub_source_page(self.id@, k as nat),
    {
        let mut s = self.id.clone();
        s.append("-source-");
        let n = usize_to_decimal(k);
        s.append(n.as_str());
        s.append(".html");
        s
    }

    /// Returns the source documents involved in this testcase: the top-level file first (with
    /// `top_content`), then each distinct sub-script file that has an error. Each document is
    /// rendered to its own HTML source page.
    pub fn source_docs(&self, top_content: &str) -> (docs: Vec<SourceDoc>)
        ensures
            doc_views(docs@) == source_docs_spec(
                self.id@,
                self.filename@,
                top_content@,
                self.errors@,
            ),
    {
        let mut docs: Vec<SourceDoc> = Vec::new();
        let first = SourceDoc {
            filename: self.filename.clone(),
            content: top_content.to_owned(),
            page: self.source_filename(),
        };
        docs.push(first);
        proof {
            assert(doc_views(docs@) =~= source_docs_spec(
                self.id@,
                self.filename@,
                top_content@,
                self.errors@.take(0),
            ));
        }
        let mut i: usize = 0;
        while i < self.errors.len()
            invariant
                0 <= i <= self.errors@.len(),
                doc_views(docs@) == source_docs_spec(
                    self.id@,
                    self.filename@,
                    top_content@,
                    self.errors@.take(i as int),
                ),
            decreases self.errors@.len() - i,
        {
            proof {
                assert(self.errors@.take(i + 1).drop_last() =~= self.errors@.take(i as int));
            }
            if let Some(source) = &self.errors[i].2 {
                if !has_doc_named(&docs, &source.filename) {
                    let page = self.sub_source_filename(docs.len());
                    let doc = SourceDoc {
                        filename: source.filename.clone(),
                        content: source.content.clone(),
                        page,
                    };
                    let ghost before = docs@;
                    docs.push(doc);
                    proof {
                        assert(doc_views(docs@) =~= doc_views(before).push(doc@));
                    }
                }
            }
            i = i + 1;
        }
        proof {
            assert(self.errors@.take(self.errors@.len() as int) =~= self.errors@);
        }
        docs
    }
}

/// The position of the first of `docs[start..]` with the file name `name`, if any.
pub open spec fn first_doc_from(
    docs: Seq<(Seq<char>, Seq<char>, Seq<char>)>,
    name: Seq<char>,
    start: int,
) -> Option<int>
    decreases docs.len() - start,
{
    if start < 0 || start >= docs.len() {
        None
    } else if docs[start].0 == name {
        Some(start)
    } else {
        first_doc_from(docs, name, start + 1)
    }
}

/// The document found by `first_doc_from` is the first one from `start` with the file name.
pub proof fn lemma_first_doc_from(
    docs: Seq<(Seq<char>, Seq<char>, Seq<char>)>,
    name: Seq<char>,
    start: int,
)
    requires
        0 <= start,
    ensures
        match first_doc_from(docs, name, start) {
            Some(j) => start <= j < docs.len() && docs[j].0 == name && forall|k: int|
                start <= k < j ==> (#[trigger] docs[k]).0 != name,
            None => forall|k: int| start <= k < docs.len() ==> (#[trigger] docs[k]).0 != name,
        },
    decreases docs.len() - start,
{
    if start < docs.len() && docs[start].0 != name {
        lemma_first_doc_from(docs, name, start + 1);
    }
}

/// The document an error source belongs to is one of the documents.
pub proof fn lemma_doc_index_in_range(
    docs: Seq<(Seq<char>, Seq<char>, Seq<char>)>,
    source: Option<EntrySource>,
)
    requires
        docs.len() > 0,
    ensures
        0 <= doc_index(docs, source) < docs.len(),
{
    if let Some(src) = source {
        lemma_first_doc_from(docs, src.filename@, 0);
    }
}

/// The position of the document an error source belongs to: the first document of the source's
/// file, else the first document (the top-level file).
pub open spec fn doc_index(docs: Seq<(Seq<char>, Seq<char>, Seq<char>)>, source: Option<EntrySource>) -> int {
    match source {
        Some(src) => match first_doc_from(docs, src.filename@, 0) {
            Some(j) => j,
            None => 0,
        },
        None => 0,
    }
}

/// The lines of the errors of `errors` that belong to the document with file name `filename`,
/// in the order of the errors.
pub open spec fn error_lines_spec(
    errors: Seq<(Error, SourceInfo, Option<EntrySource>)>,
    filename: Seq<char>,
    docs: Seq<(Seq<char>, Seq<char>, Seq<char>)>,
) -> Seq<usize>
    decreases errors.len(),
{
    if errors.len() == 0 {
        Seq::empty()
    } else {
        let lines = error_lines_spec(errors.drop_last(), filename, docs);
        let e = errors.last();
        if docs[doc_index(docs, e.2)].0 == filename {
            lines.push(e.0.source_info.start.line)
        } else {
            lines
        }
    }
}

impl Testcase {
    /// Returns the source document a given error `source` belongs to: the matching sub-script file,
    /// or the top-level file (the first document) when the error is not from a sub-script.
    pub fn doc_for<'a>(source: &Option<EntrySource>, docs: &'a [SourceDoc]) -> (d: &'a SourceDoc)
        requires
            docs@.len() > 0,
        ensures
            *d == docs@[doc_index(doc_views(docs@), *source)],
    {
        let ghost views = doc_views(docs@);
        proof {
            lemma_doc_index_in_range(views, *source);
        }
        match source {
            Some(src) => {
                let mut j: usize = 0;
                while j < docs.len()
                    invariant
                        0 <= j <= docs@.len(),
                        views == doc_views(docs@),
                        *source == Some(*src),
                        first_doc_from(views, src.filename@, 0) == first_doc_from(
                            views,
                            src.filename@,
                            j as int,
                        ),
                    decreases docs@.len() - j,
                {
                    assert(views[j as int] == docs@[j as int]@);
                    if docs[j].filename == src.filename {
                        assert(first_doc_from(views, src.filename@, j as int) == Some(j as int));
                        return &docs[j];
                    }
                    j = j + 1;
                }
                &docs[0]
            },
            None => &docs[0],
        }
    }

    /// The lines of the errors of this testcase that belong to the document `doc`.
    pub fn source_error_lines(&self, doc: &SourceDoc, docs: &[SourceDoc]) -> (lines: Vec<usize>)
        requires
            docs@.len() > 0,
        ensures
            lines@ == error_lines_spec(self.errors@, doc.filename@, doc_views(docs@)),
    {
        let mut lines: Vec<usize> = Vec::new();
        let mut i: usize = 0;
        while i < self.errors.len()
            invariant
                0 <= i <= self.errors@.len(),
                docs@.len() > 0,
                lines@ == error_lines_spec(
                    self.errors@.take(i as int),
                    doc.filename@,
                    doc_views(docs@),
                ),
            decreases self.errors@.len() - i,
        {
            proof {
                assert(self.errors@.take(i + 1).drop_last() =~= self.errors@.take(i as int));
            }
            let error = &self.errors[i];
            let d = Testcase::doc_for(&error.2, docs);
            proof {
                lemma_doc_index_in_range(doc_views(docs@), error.2);
                let k = doc_index(doc_views(docs@), error.2);
                assert(doc_views(docs@)[k] == docs@[k]@);
            }
            if d.filename == doc.filename {
                lines.push(error.0.source_info.start.line);
            }
            i = i + 1;
        }
        proof {
            assert(self.errors@.take(self.errors@.len() as int) =~= self.errors@);
        }
        lines
    }

    /// Returns the numbered lines of the source page of `doc`, the lines of its errors marked.
    pub fn get_source_lines_html(&self, doc: &SourceDoc, docs: &[SourceDoc]) -> (s: String)
        requires
            docs@.len() > 0,
        ensures
            s@ == numbered_lines(
                doc.content@,
                error_lines_spec(self.errors@, doc.filename@, doc_views(docs@)),
            ),
    {
        let error_lines = self.source_error_lines(doc, docs);
        get_numbered_lines(doc.content.as_str(), error_lines.as_slice())
    }
}

/// Whether `c` is a lower-case hexadecimal digit.
pub open spec fn is_lower_hex(c: char) -> bool {
    ('0' <= c && c <= '9') || ('a' <= c && c <= 'f')
}

/// Whether `s` is the hyphenated lower-case text of a random (version 4, RFC 4122 variant) UUID:
/// 36 characters, hyphens at 8, 13, 18 and 23, hexadecimal digits elsewhere, the version digit
/// `4` at 14 and a variant digit among `8`, `9`, `a`, `b` at 19.
pub open spec fn is_uuid_v4_text(s: Seq<char>) -> bool {
    &&& s.len() == 36
    &&& forall|i: int|
        0 <= i < 36 ==> if i == 8 || i == 13 || i == 18 || i == 23 {
            s[i] == '-'
        } else {
            is_lower_hex(#[trigger] s[i])
        }
    &&& s[14] == '4'
    &&& (s[19] == '8' || s[19] == '9' || s[19] == 'a' || s[19] == 'b')
}

/// Calls `uuid::Uuid::new_v4` and renders the UUID with its `Display` impl.
///
/// The UUID is random: nothing names it. Of every outcome the source of `uuid` shows that it is
/// rendered hyphenated in lower case (`fmt::LowerHex` through `as_hyphenated`), and that
/// `new_v4` sets the version bits to 4 and the variant bits to `10`, which this contract states.
/// The randomness of the other digits is left unsaid.
#[verifier::external_body]
fn new_uuid_v4_text() -> (id: String)
    ensures
        is_uuid_v4_text(id@),
{
    Uuid::new_v4().to_string()
}

impl EntrySource {
    /// A copy of this source.
    pub fn copy(&self) -> (r: EntrySource)
        ensures
            r == *self,
    {
        EntrySource { filename: self.filename.clone(), content: self.content.clone() }
    }
}

/// A copy of a list of runtime errors with their sources.
fn copy_errors(errors: &Vec<(Error, SourceInfo, Option<EntrySource>)>) -> (r: Vec<
    (Error, SourceInfo, Option<EntrySource>),
>)
    ensures
        r@ == errors@,
{
    let mut r: Vec<(Error, SourceInfo, Option<EntrySource>)> = Vec::new();
    let mut i: usize = 0;
    while i < errors.len()
        invariant
            0 <= i <= errors@.len(),
            r@ == errors@.take(i as int),
        decreases errors@.len() - i,
    {
        let (error, source_info, source) = &errors[i];
        let source_copy = match source {
            Some(src) => Some(src.copy()),
            None => None,
        };
        r.push((error.copy(), *source_info, source_copy));
        proof {
            assert(errors@.take(i + 1) =~= errors@.take(i as int).push(errors@[i as int]));
        }
        i = i + 1;
    }
    proof {
        assert(errors@.take(errors@.len() as int) =~= errors@);
    }
    r
}

impl Testcase {
    /// Creates an HTML testcase with the identifier `id`, from the outcome of a run of the file
    /// `filename`.
    pub fn with_id(id: String, hurl_result: &HurlResult, filename: &str) -> (t: Testcase)
        ensures
            t.id == id,
            t.filename@ == filename@,
            t.success == hurl_result.success,
            t.time_in_ms == hurl_result.duration_in_ms,
            t.errors@ == hurl_result.errors@,
            t.timestamp == hurl_result.timestamp,
    {
        Testcase {
            id,
            filename: filename.to_owned(),
            time_in_ms: hurl_result.duration_in_ms,
            success: hurl_result.success,
            errors: copy_errors(&hurl_result.errors),
            timestamp: hurl_result.timestamp,
        }
    }

    /// Creates an HTML testcase from the outcome of a run of the file `filename`, with a new
    /// random identifier.
    pub fn from(hurl_result: &HurlResult, filename: &str) -> (t: Testcase)
        ensures
            is_uuid_v4_text(t.id@),
            t.filename@ == filename@,
            t.success == hurl_result.success,
            t.time_in_ms == hurl_result.duration_in_ms,
            t.errors@ == hurl_result.errors@,
            t.timestamp == hurl_result.timestamp,
    {
        let id = new_uuid_v4_text();
        Testcase::with_id(id, hurl_result, filename)
    }
}

/// The pages of a testcase report, in the order they are written: the timeline page, the run
/// page, then the page of each source document.
pub open spec fn report_pages_spec(id: Seq<char>, docs: Seq<(Seq<char>, Seq<char>, Seq<char>)>) -> Seq<
    Seq<char>,
> {
    seq![timeline_page(id), run_page(id)] + docs.map_values(|d: (Seq<char>, Seq<char>, Seq<char>)| d.2)
}

/// The texts of a list of strings.
pub open spec fn string_views(strings: Seq<String>) -> Seq<Seq<char>> {
    strings.map_values(|s: String| s@)
}

impl Testcase {
    /// Returns the file names of the pages of this testcase's report, in the order they are
    /// written: the timeline page, the run page, then the source page of each source document.
    pub fn report_pages(&self, top_content: &str) -> (pages: Vec<String>)
        ensures
            string_views(pages@) == report_pages_spec(
                self.id@,
                source_docs_spec(self.id@, self.filename@, top_content@, self.errors@),
            ),
    {
        let docs = self.source_docs(top_content);
        let ghost views = doc_views(docs@);
        let mut pages: Vec<String> = Vec::new();
        pages.push(self.timeline_filename());
        pages.push(self.run_filename());
        let mut i: usize = 0;
        while i < docs.len()
            invariant
                0 <= i <= docs@.len(),
                views == doc_views(docs@),
                string_views(pages@) =~= report_pages_spec(self.id@, views.take(i as int)),
            decreases docs@.len() - i,
        {
            let ghost before = pages@;
            pages.push(docs[i].page.clone());
            proof {
                assert(views.take(i + 1) =~= views.take(i as int).push(views[i as int]));
                assert(string_views(pages@) =~= string_views(before).push(docs@[i as int].page@));
            }
            i = i + 1;
        }
        proof {
            assert(views.take(docs@.len() as int) =~= views);
        }
        pages
    }
}

} // verus!
