//! The Hurl AST: files, entries, includes, requests and responses, and the accessors over their
//! sections.
use vstd::prelude::*;
use vstd::std_specs::cmp::{PartialEqSpec, PartialEqSpecImpl};

use crate::text::{decimal, i64_to_decimal, signed_decimal, str_eq, u64_to_decimal};
use crate::primitive::{
    Assert, Bytes, Capture, Cookie, EntryOption, ExprKind, I64, KeyValue, LineTerminator, MultipartParam,
    Placeholder, RegexValue, Section, SectionValue, SourceInfo, Template, Whitespace,
};

verus! {

/// Represents Hurl AST root node.
#[derive(Clone, Debug, PartialEq, Eq)]
pub struct HurlFile {
    pub entries: Vec<EntryKind>,
    pub line_terminators: Vec<LineTerminator>,
}

/// Represents a top-level item of a Hurl file: either a request/response [`Entry`] or an
/// [`Include`] directive that runs another Hurl file as an isolated sub-script.
#[derive(Clone, Debug, PartialEq, Eq)]
pub enum EntryKind {
    Request(Entry),
    Include(Include),
}

impl EntryKind {
    /// Returns the source information for this top-level item.
    pub fn source_info(&self) -> (s: SourceInfo)
        ensures
            s == match self {
                EntryKind::Request(entry) => entry.request.space0.source_info,
                EntryKind::Include(inc) => inc.source_info,
            },
    {
        match self {
            EntryKind::Request(entry) => entry.source_info(),
            EntryKind::Include(inc) => inc.source_info,
        }
    }
}

/// Represents an entry; a request AST specification to be run and an optional response AST
/// specification to be checked.
#[derive(Clone, Debug, PartialEq, Eq)]
pub struct Entry {
    pub request: Request,
    pub response: Option<Response>,
}

impl Entry {
    /// Returns the source information for this entry.
    pub fn source_info(&self) -> (s: SourceInfo)
        ensures
            s == self.request.space0.source_info,
    {
        self.request.space0.source_info
    }
}

/// Represents an `INCLUDE` directive: it runs another Hurl file as an isolated sub-script.
///
/// The sub-script is executed in a fresh, isolated environment: its variables are seeded only by
/// the (optional) `[Variables]` section, and only the variables listed in the (optional)
/// `[Captures]` section are copied back into the parent (under their renamed name).
#[derive(Clone, Debug, PartialEq, Eq)]
pub struct Include {
    pub line_terminators: Vec<LineTerminator>,
    pub space0: Whitespace,
    pub space1: Whitespace,
    pub path: Template,
    pub line_terminator0: LineTerminator,
    pub variables: Option<IncludeVariablesSection>,
    pub captures: Option<IncludeCapturesSection>,
    pub source_info: SourceInfo,
}

impl Include {
    /// Returns the variables passed to the sub-script (empty if there is no `[Variables]` section).
    pub fn variables(&self) -> (r: &[KeyValue])
        ensures
            r@ == match self.variables {
                Some(section) => section.items@,
                None => Seq::<KeyValue>::empty(),
            },
    {
        match &self.variables {
            Some(section) => section.items.as_slice(),
            None => &[],
        }
    }

    /// Returns the captures promoted from the sub-script to the parent (empty if there is no
    /// `[Captures]` section).
    pub fn captures(&self) -> (r: &[IncludeCapture])
        ensures
            r@ == match self.captures {
                Some(section) => section.items@,
                None => Seq::<IncludeCapture>::empty(),
            },
    {
        match &self.captures {
            Some(section) => section.items.as_slice(),
            None => &[],
        }
    }
}

/// The `[Variables]` section of an [`Include`]: inputs seeded into the sub-script environment.
#[derive(Clone, Debug, PartialEq, Eq)]
pub struct IncludeVariablesSection {
    pub line_terminators: Vec<LineTerminator>,
    pub space0: Whitespace,
    pub line_terminator0: LineTerminator,
    pub items: Vec<KeyValue>,
    pub source_info: SourceInfo,
}

/// The `[Captures]` section of an [`Include`]: a rename map promoting sub-script variables back
/// into the parent.
#[derive(Clone, Debug, PartialEq, Eq)]
pub struct IncludeCapturesSection {
    pub line_terminators: Vec<LineTerminator>,
    pub space0: Whitespace,
    pub line_terminator0: LineTerminator,
    pub items: Vec<IncludeCapture>,
    pub source_info: SourceInfo,
}

/// A single rename entry of an [`Include`] `[Captures]` section: `name: target` where `name` is a
/// variable defined in the sub-script and `target` is the name it takes in the parent.
#[derive(Clone, Debug, PartialEq, Eq)]
pub struct IncludeCapture {
    pub line_terminators: Vec<LineTerminator>,
    pub space0: Whitespace,
    pub name: Template,
    pub space1: Whitespace,
    pub space2: Whitespace,
    pub target: Template,
    pub line_terminator0: LineTerminator,
}

/// The kinds of request and response sections.
#[derive(Clone, Copy, Debug, PartialEq, Eq)]
pub enum SectionKind {
    QueryParams,
    BasicAuth,
    FormParams,
    MultipartFormData,
    Cookies,
    Captures,
    Asserts,
    Options,
}

/// Whether a section value is of the given kind.
pub open spec fn has_kind(v: SectionValue, kind: SectionKind) -> bool {
    match kind {
        SectionKind::QueryParams => v is QueryParams,
        SectionKind::BasicAuth => v is BasicAuth,
        SectionKind::FormParams => v is FormParams,
        SectionKind::MultipartFormData => v is MultipartFormData,
        SectionKind::Cookies => v is Cookies,
        SectionKind::Captures => v is Captures,
        SectionKind::Asserts => v is Asserts,
        SectionKind::Options => v is Options,
    }
}

/// The position of the first section of kind `kind` among `sections[start..]`, if any.
pub open spec fn first_section_from(sections: Seq<Section>, kind: SectionKind, start: int) -> Option<
    int,
>
    decreases sections.len() - start,
{
    if start < 0 || start >= sections.len() {
        None
    } else if has_kind(sections[start].value, kind) {
        Some(start)
    } else {
        first_section_from(sections, kind, start + 1)
    }
}

/// The position of the first section of kind `kind`, if any.
pub open spec fn first_section(sections: Seq<Section>, kind: SectionKind) -> Option<int> {
    first_section_from(sections, kind, 0)
}

/// The kind of a section value, by its variant alone (whatever the items and flags it holds).
pub open spec fn section_kind(v: SectionValue) -> SectionKind {
    match v {
        SectionValue::QueryParams(..) => SectionKind::QueryParams,
        SectionValue::BasicAuth(..) => SectionKind::BasicAuth,
        SectionValue::FormParams(..) => SectionKind::FormParams,
        SectionValue::MultipartFormData(..) => SectionKind::MultipartFormData,
        SectionValue::Cookies(..) => SectionKind::Cookies,
        SectionValue::Captures(..) => SectionKind::Captures,
        SectionValue::Asserts(..) => SectionKind::Asserts,
        SectionValue::Options(..) => SectionKind::Options,
    }
}

/// A section is of a kind exactly when it is that variant, whatever it holds: in particular a
/// query, form or multipart section is of its kind whatever its syntax flag.
pub proof fn law_has_kind_by_variant(v: SectionValue, kind: SectionKind)
    ensures
        has_kind(v, kind) <==> section_kind(v) == kind,
{
}

/// The section found for a kind is the first section of that variant, and none is found when no
/// section is of that variant.
pub proof fn law_first_section(sections: Seq<Section>, kind: SectionKind)
    ensures
        match first_section(sections, kind) {
            Some(i) => 0 <= i < sections.len() && section_kind(sections[i].value) == kind
                && forall|j: int| 0 <= j < i ==> section_kind(#[trigger] sections[j].value) != kind,
            None => forall|j: int|
                0 <= j < sections.len() ==> section_kind(#[trigger] sections[j].value) != kind,
        },
{
    lemma_first_section_from(sections, kind, 0);
}

proof fn lemma_first_section_from(sections: Seq<Section>, kind: SectionKind, start: int)
    requires
        0 <= start,
    ensures
        match first_section_from(sections, kind, start) {
            Some(i) => start <= i < sections.len() && section_kind(sections[i].value) == kind
                && forall|j: int|
                start <= j < i ==> section_kind(#[trigger] sections[j].value) != kind,
            None => forall|j: int|
                start <= j < sections.len() ==> section_kind(#[trigger] sections[j].value) != kind,
        },
    decreases sections.len() - start,
{
    if start < sections.len() {
        law_has_kind_by_variant(sections[start].value, kind);
        if !has_kind(sections[start].value, kind) {
            lemma_first_section_from(sections, kind, start + 1);
        }
    }
}

#[derive(Clone, Debug, PartialEq, Eq)]
pub struct Request {
    pub line_terminators: Vec<LineTerminator>,
    pub space0: Whitespace,
    pub method: Method,
    pub space1: Whitespace,
    pub url: Template,
    pub line_terminator0: LineTerminator,
    pub headers: Vec<KeyValue>,
    pub sections: Vec<Section>,
    pub body: Option<Body>,
    pub source_info: SourceInfo,
}

impl Request {
    /// Returns the query strings params for this request: those of its first `[Query]` section,
    /// or none.
    pub fn querystring_params(&self) -> (r: &[KeyValue])
        ensures
            r@ == match first_section(self.sections@, SectionKind::QueryParams) {
                Some(i) => self.sections@[i].value->QueryParams_0@,
                None => Seq::<KeyValue>::empty(),
            },
    {
        let mut i: usize = 0;
        while i < self.sections.len()
            invariant
                0 <= i <= self.sections@.len(),
                first_section(self.sections@, SectionKind::QueryParams) == first_section_from(
                    self.sections@,
                    SectionKind::QueryParams,
                    i as int,
                ),
            decreases self.sections@.len() - i,
        {
            if let SectionValue::QueryParams(params, _) = &self.sections[i].value {
                return params.as_slice();
            }
            i = i + 1;
        }
        &[]
    }
    /// Returns the form params for this request: those of its first `[Form]` section, or none.
    pub fn form_params(&self) -> (r: &[KeyValue])
        ensures
            r@ == match first_section(self.sections@, SectionKind::FormParams) {
                Some(i) => self.sections@[i].value->FormParams_0@,
                None => Seq::<KeyValue>::empty(),
            },
    {
        let mut i: usize = 0;
        while i < self.sections.len()
            invariant
                0 <= i <= self.sections@.len(),
                first_section(self.sections@, SectionKind::FormParams) == first_section_from(
                    self.sections@,
                    SectionKind::FormParams,
                    i as int,
                ),
            decreases self.sections@.len() - i,
        {
            if let SectionValue::FormParams(params, _) = &self.sections[i].value {
                return params.as_slice();
            }
            i = i + 1;
        }
        &[]
    }
    /// Returns the multipart form data for this request: that of its first `[Multipart]`
    /// section, or none.
    pub fn multipart_form_data(&self) -> (r: &[MultipartParam])
        ensures
            r@ == match first_section(self.sections@, SectionKind::MultipartFormData) {
                Some(i) => self.sections@[i].value->MultipartFormData_0@,
                None => Seq::<MultipartParam>::empty(),
            },
    {
        let mut i: usize = 0;
        while i < self.sections.len()
            invariant
                0 <= i <= self.sections@.len(),
                first_section(self.sections@, SectionKind::MultipartFormData) == first_section_from(
                    self.sections@,
                    SectionKind::MultipartFormData,
                    i as int,
                ),
            decreases self.sections@.len() - i,
        {
            if let SectionValue::MultipartFormData(params, _) = &self.sections[i].value {
                return params.as_slice();
            }
            i = i + 1;
        }
        &[]
    }
    /// Returns the list of cookies on this request: those of its first `[Cookies]` section, or
    /// none.
    pub fn cookies(&self) -> (r: &[Cookie])
        ensures
            r@ == match first_section(self.sections@, SectionKind::Cookies) {
                Some(i) => self.sections@[i].value->Cookies_0@,
                None => Seq::<Cookie>::empty(),
            },
    {
        let mut i: usize = 0;
        while i < self.sections.len()
            invariant
                0 <= i <= self.sections@.len(),
                first_section(self.sections@, SectionKind::Cookies) == first_section_from(
                    self.sections@,
                    SectionKind::Cookies,
                    i as int,
                ),
            decreases self.sections@.len() - i,
        {
            if let SectionValue::Cookies(params) = &self.sections[i].value {
                return params.as_slice();
            }
            i = i + 1;
        }
        &[]
    }

    /// Returns the basic authentication on this request: that of its first `[BasicAuth]` section,
    /// or none.
    pub fn basic_auth(&self) -> (r: Option<&KeyValue>)
        ensures
            match first_section(self.sections@, SectionKind::BasicAuth) {
                Some(i) => match self.sections@[i].value->BasicAuth_0 {
                    Some(kv) => r == Some(&kv),
                    None => r is None,
                },
                None => r is None,
            },
    {
        let mut i: usize = 0;
        while i < self.sections.len()
            invariant
                0 <= i <= self.sections@.len(),
                first_section(self.sections@, SectionKind::BasicAuth) == first_section_from(
                    self.sections@,
                    SectionKind::BasicAuth,
                    i as int,
                ),
            decreases self.sections@.len() - i,
        {
            if let SectionValue::BasicAuth(kv) = &self.sections[i].value {
                return kv.as_ref();
            }
            i = i + 1;
        }
        None
    }
    /// Returns the options specific for this request: those of its first `[Options]` section, or
    /// none.
    pub fn options(&self) -> (r: &[EntryOption])
        ensures
            r@ == match first_section(self.sections@, SectionKind::Options) {
                Some(i) => self.sections@[i].value->Options_0@,
                None => Seq::<EntryOption>::empty(),
            },
    {
        let mut i: usize = 0;
        while i < self.sections.len()
            invariant
                0 <= i <= self.sections@.len(),
                first_section(self.sections@, SectionKind::Options) == first_section_from(
                    self.sections@,
                    SectionKind::Options,
                    i as int,
                ),
            decreases self.sections@.len() - i,
        {
            if let SectionValue::Options(params) = &self.sections[i].value {
                return params.as_slice();
            }
            i = i + 1;
        }
        &[]
    }
}

#[derive(Clone, Debug, PartialEq, Eq)]
pub struct Response {
    pub line_terminators: Vec<LineTerminator>,
    pub version: Version,
    pub space0: Whitespace,
    pub status: Status,
    pub space1: Whitespace,
    pub line_terminator0: LineTerminator,
    pub headers: Vec<KeyValue>,
    pub sections: Vec<Section>,
    pub body: Option<Body>,
    pub source_info: SourceInfo,
}

impl Response {
    /// Returns the captures list of this spec response: those of its first `[Captures]` section,
    /// or none.
    pub fn captures(&self) -> (r: &[Capture])
        ensures
            r@ == match first_section(self.sections@, SectionKind::Captures) {
                Some(i) => self.sections@[i].value->Captures_0@,
                None => Seq::<Capture>::empty(),
            },
    {
        let mut i: usize = 0;
        while i < self.sections.len()
            invariant
                0 <= i <= self.sections@.len(),
                first_section(self.sections@, SectionKind::Captures) == first_section_from(
                    self.sections@,
                    SectionKind::Captures,
                    i as int,
                ),
            decreases self.sections@.len() - i,
        {
            if let SectionValue::Captures(params) = &self.sections[i].value {
                return params.as_slice();
            }
            i = i + 1;
        }
        &[]
    }
    /// Returns the asserts list of this spec response: those of its first `[Asserts]` section,
    /// or none.
    pub fn asserts(&self) -> (r: &[Assert])
        ensures
            r@ == match first_section(self.sections@, SectionKind::Asserts) {
                Some(i) => self.sections@[i].value->Asserts_0@,
                None => Seq::<Assert>::empty(),
            },
    {
        let mut i: usize = 0;
        while i < self.sections.len()
            invariant
                0 <= i <= self.sections@.len(),
                first_section(self.sections@, SectionKind::Asserts) == first_section_from(
                    self.sections@,
                    SectionKind::Asserts,
                    i as int,
                ),
            decreases self.sections@.len() - i,
        {
            if let SectionValue::Asserts(params) = &self.sections[i].value {
                return params.as_slice();
            }
            i = i + 1;
        }
        &[]
    }
}

#[derive(Clone, Debug, Eq)]
pub struct Method(String);

impl PartialEq for Method {
    fn eq(&self, other: &Method) -> (r: bool) {
        self.0 == other.0
    }
}

impl PartialEqSpecImpl for Method {
    open spec fn obeys_eq_spec() -> bool {
        true
    }

    /// Two methods are equal when they have the same text.
    open spec fn eq_spec(&self, other: &Method) -> bool {
        self@ == other@
    }
}

/// Methods made from texts `a` and `b` are equal exactly when the texts are.
pub proof fn law_method_equal_texts(a: Seq<char>, b: Seq<char>, m: Method, n: Method)
    requires
        m@ == a,
        n@ == b,
    ensures
        PartialEqSpec::eq_spec(&m, &n) <==> a == b,
{
}

impl View for Method {
    type V = Seq<char>;

    /// The text of the method.
    closed spec fn view(&self) -> Seq<char> {
        self.0@
    }
}

impl Method {
    /// Creates a new AST element method.
    pub fn new(method: &str) -> (m: Method)
        ensures
            m@ == method@,
    {
        Method(method.to_owned())
    }

    /// The text of the method, as it is displayed.
    pub fn to_string(&self) -> (s: String)
        ensures
            s@ == self@,
    {
        self.0.clone()
    }
}

#[derive(Clone, Debug, PartialEq, Eq)]
pub struct Version {
    pub value: VersionValue,
    pub source_info: SourceInfo,
}

#[derive(Copy, Clone, Debug, PartialEq, Eq)]
pub enum VersionValue {
    Version1,
    Version11,
    Version2,
    Version3,
    VersionAny,
}

/// The text of an HTTP version, as it is displayed.
pub open spec fn version_text(v: VersionValue) -> Seq<char> {
    match v {
        VersionValue::Version1 => "HTTP/1.0"@,
        VersionValue::Version11 => "HTTP/1.1"@,
        VersionValue::Version2 => "HTTP/2"@,
        VersionValue::Version3 => "HTTP/3"@,
        VersionValue::VersionAny => "HTTP"@,
    }
}

impl VersionValue {
    /// The text of this version, as it is displayed.
    pub fn to_string(&self) -> (s: String)
        ensures
            s@ == version_text(*self),
    {
        let s = match self {
            VersionValue::Version1 => "HTTP/1.0",
            VersionValue::Version11 => "HTTP/1.1",
            VersionValue::Version2 => "HTTP/2",
            VersionValue::Version3 => "HTTP/3",
            VersionValue::VersionAny => "HTTP",
        };
        s.to_owned()
    }
}

#[derive(Clone, Debug, PartialEq, Eq)]
pub struct Status {
    pub value: StatusValue,
    pub source_info: SourceInfo,
}

#[derive(Clone, Debug, PartialEq, Eq)]
pub enum StatusValue {
    Any,
    Specific(u64),
}

/// The text of an HTTP status, as it is displayed: `*` for any status, else its code.
pub open spec fn status_text(v: StatusValue) -> Seq<char> {
    match v {
        StatusValue::Any => "*"@,
        StatusValue::Specific(code) => decimal(code as nat),
    }
}

impl StatusValue {
    /// The text of this status, as it is displayed.
    pub fn to_string(&self) -> (s: String)
        ensures
            s@ == status_text(*self),
    {
        match self {
            StatusValue::Any => "*".to_owned(),
            StatusValue::Specific(code) => u64_to_decimal(*code),
        }
    }
}

#[derive(Clone, Debug, PartialEq, Eq)]
pub struct Body {
    pub line_terminators: Vec<LineTerminator>,
    pub space0: Whitespace,
    pub value: Bytes,
    pub line_terminator0: LineTerminator,
}

/// The names of the functions that a variable cannot take.
pub open spec fn reserved_name(name: Seq<char>) -> bool {
    name == "getEnv"@ || name == "newDate"@ || name == "newUuid"@
}

/// Check that variable name is not reserved
/// (would conflicts with an existing function)
pub fn is_variable_reserved(name: &str) -> (r: bool)
    ensures
        r == reserved_name(name@),
{
    str_eq(name, "getEnv") || str_eq(name, "newDate") || str_eq(name, "newUuid")
}

#[derive(Clone, Debug, PartialEq, Eq)]
pub struct Filter {
    pub source_info: SourceInfo,
    pub value: FilterValue,
}

#[derive(Clone, Debug, PartialEq, Eq)]
pub enum FilterValue {
    Base64Decode,
    Base64Encode,
    Base64UrlSafeDecode,
    Base64UrlSafeEncode,
    CharsetDecode { space0: Whitespace, encoding: Template },
    Count,
    DaysAfterNow,
    DaysBeforeNow,
    Decode { space0: Whitespace, encoding: Template },
    First,
    Format { space0: Whitespace, fmt: Template },
    DateFormat { space0: Whitespace, fmt: Template },
    HtmlEscape,
    HtmlUnescape,
    JsonPath { space0: Whitespace, expr: Template },
    Last,
    Location,
    Nth { space0: Whitespace, n: IntegerValue },
    Regex { space0: Whitespace, value: RegexValue },
    Replace { space0: Whitespace, old_value: Template, space1: Whitespace, new_value: Template },
    ReplaceRegex {
        space0: Whitespace,
        pattern: RegexValue,
        space1: Whitespace,
        new_value: Template,
    },
    Split { space0: Whitespace, sep: Template },
    ToDate { space0: Whitespace, fmt: Template },
    ToFloat,
    ToHex,
    ToInt,
    ToString,
    UrlDecode,
    UrlEncode,
    UrlQueryParam { space0: Whitespace, param: Template },
    Utf8Decode,
    Utf8Encode,
    XPath { space0: Whitespace, expr: Template },
}

/// The Hurl identifier of a filter type.
pub open spec fn filter_identifier(f: FilterValue) -> Seq<char> {
    match f {
        FilterValue::Base64Decode => "base64Decode"@,
        FilterValue::Base64Encode => "base64Encode"@,
        FilterValue::Base64UrlSafeDecode => "base64UrlSafeDecode"@,
        FilterValue::Base64UrlSafeEncode => "base64UrlSafeEncode"@,
        FilterValue::CharsetDecode { .. } => "charsetDecode"@,
        FilterValue::Count => "count"@,
        FilterValue::DaysAfterNow => "daysAfterNow"@,
        FilterValue::DaysBeforeNow => "daysBeforeNow"@,
        FilterValue::Decode { .. } => "decode"@,
        FilterValue::First => "first"@,
        FilterValue::Format { .. } => "format"@,
        FilterValue::DateFormat { .. } => "dateFormat"@,
        FilterValue::HtmlEscape => "htmlEscape"@,
        FilterValue::HtmlUnescape => "htmlUnescape"@,
        FilterValue::JsonPath { .. } => "jsonpath"@,
        FilterValue::Last => "last"@,
        FilterValue::Location => "location"@,
        FilterValue::Nth { .. } => "nth"@,
        FilterValue::Regex { .. } => "regex"@,
        FilterValue::Replace { .. } => "replace"@,
        FilterValue::ReplaceRegex { .. } => "replaceRegex"@,
        FilterValue::Split { .. } => "split"@,
        FilterValue::ToDate { .. } => "toDate"@,
        FilterValue::ToFloat => "toFloat"@,
        FilterValue::ToHex => "toHex"@,
        FilterValue::ToInt => "toInt"@,
        FilterValue::ToString => "toString"@,
        FilterValue::UrlDecode => "urlDecode"@,
        FilterValue::UrlEncode => "urlEncode"@,
        FilterValue::UrlQueryParam { .. } => "urlQueryParam"@,
        FilterValue::Utf8Decode => "utf8Decode"@,
        FilterValue::Utf8Encode => "utf8Encode"@,
        FilterValue::XPath { .. } => "xpath"@,
    }
}

/// The position of a filter type in the list of filter types.
pub open spec fn filter_kind(f: FilterValue) -> int {
    match f {
        FilterValue::Base64Decode => 0,
        FilterValue::Base64Encode => 1,
        FilterValue::Base64UrlSafeDecode => 2,
        FilterValue::Base64UrlSafeEncode => 3,
        FilterValue::CharsetDecode { .. } => 4,
        FilterValue::Count => 5,
        FilterValue::DaysAfterNow => 6,
        FilterValue::DaysBeforeNow => 7,
        FilterValue::Decode { .. } => 8,
        FilterValue::First => 9,
        FilterValue::Format { .. } => 10,
        FilterValue::DateFormat { .. } => 11,
        FilterValue::HtmlEscape => 12,
        FilterValue::HtmlUnescape => 13,
        FilterValue::JsonPath { .. } => 14,
        FilterValue::Last => 15,
        FilterValue::Location => 16,
        FilterValue::Nth { .. } => 17,
        FilterValue::Regex { .. } => 18,
        FilterValue::Replace { .. } => 19,
        FilterValue::ReplaceRegex { .. } => 20,
        FilterValue::Split { .. } => 21,
        FilterValue::ToDate { .. } => 22,
        FilterValue::ToFloat => 23,
        FilterValue::ToHex => 24,
        FilterValue::ToInt => 25,
        FilterValue::ToString => 26,
        FilterValue::UrlDecode => 27,
        FilterValue::UrlEncode => 28,
        FilterValue::UrlQueryParam { .. } => 29,
        FilterValue::Utf8Decode => 30,
        FilterValue::Utf8Encode => 31,
        FilterValue::XPath { .. } => 32,
    }
}

/// A character of `s`, or a space past its end.
pub open spec fn char_or_space(s: Seq<char>, i: int) -> char {
    if 0 <= i < s.len() {
        s[i]
    } else {
        ' '
    }
}

/// The length of an identifier and four of its characters, which tell the identifiers apart.
pub open spec fn identifier_signature(s: Seq<char>) -> (nat, char, char, char, char) {
    (s.len(), char_or_space(s, 0), char_or_space(s, 4), char_or_space(s, 6), char_or_space(s, 13))
}

/// The signature of the identifier of the `k`-th filter type.
pub open spec fn kind_signature(k: int) -> (nat, char, char, char, char) {
    if k == 0 {
        (12nat, 'b', '6', 'D', ' ')
    } else if k == 1 {
        (12nat, 'b', '6', 'E', ' ')
    } else if k == 2 {
        (19nat, 'b', '6', 'U', 'D')
    } else if k == 3 {
        (19nat, 'b', '6', 'U', 'E')
    } else if k == 4 {
        (13nat, 'c', 's', 't', ' ')
    } else if k == 5 {
        (5nat, 'c', 't', ' ', ' ')
    } else if k == 6 {
        (12nat, 'd', 'A', 't', ' ')
    } else if k == 7 {
        (13nat, 'd', 'B', 'f', ' ')
    } else if k == 8 {
        (6nat, 'd', 'd', ' ', ' ')
    } else if k == 9 {
        (5nat, 'f', 't', ' ', ' ')
    } else if k == 10 {
        (6nat, 'f', 'a', ' ', ' ')
    } else if k == 11 {
        (10nat, 'd', 'F', 'r', ' ')
    } else if k == 12 {
        (10nat, 'h', 'E', 'c', ' ')
    } else if k == 13 {
        (12nat, 'h', 'U', 'e', ' ')
    } else if k == 14 {
        (8nat, 'j', 'p', 't', ' ')
    } else if k == 15 {
        (4nat, 'l', ' ', ' ', ' ')
    } else if k == 16 {
        (8nat, 'l', 't', 'o', ' ')
    } else if k == 17 {
        (3nat, 'n', ' ', ' ', ' ')
    } else if k == 18 {
        (5nat, 'r', 'x', ' ', ' ')
    } else if k == 19 {
        (7nat, 'r', 'a', 'e', ' ')
    } else if k == 20 {
        (12nat, 'r', 'a', 'e', ' ')
    } else if k == 21 {
        (5nat, 's', 't', ' ', ' ')
    } else if k == 22 {
        (6nat, 't', 't', ' ', ' ')
    } else if k == 23 {
        (7nat, 't', 'o', 't', ' ')
    } else if k == 24 {
        (5nat, 't', 'x', ' ', ' ')
    } else if k == 25 {
        (5nat, 't', 't', ' ', ' ')
    } else if k == 26 {
        (8nat, 't', 'r', 'n', ' ')
    } else if k == 27 {
        (9nat, 'u', 'e', 'o', ' ')
    } else if k == 28 {
        (9nat, 'u', 'n', 'o', ' ')
    } else if k == 29 {
        (13nat, 'u', 'u', 'r', ' ')
    } else if k == 30 {
        (10nat, 'u', 'D', 'c', ' ')
    } else if k == 31 {
        (10nat, 'u', 'E', 'c', ' ')
    } else {
        (5nat, 'x', 'h', ' ', ' ')
    }
}

proof fn lemma_identifier_signature(f: FilterValue)
    ensures
        identifier_signature(filter_identifier(f)) == kind_signature(filter_kind(f)),
{
    match f {
        FilterValue::Base64Decode => {
            reveal_strlit("base64Decode");
        },
        FilterValue::Base64Encode => {
            reveal_strlit("base64Encode");
        },
        FilterValue::Base64UrlSafeDecode => {
            reveal_strlit("base64UrlSafeDecode");
        },
        FilterValue::Base64UrlSafeEncode => {
            reveal_strlit("base64UrlSafeEncode");
        },
        FilterValue::CharsetDecode { .. } => {
            reveal_strlit("charsetDecode");
        },
        FilterValue::Count => {
            reveal_strlit("count");
        },
        FilterValue::DaysAfterNow => {
            reveal_strlit("daysAfterNow");
        },
        FilterValue::DaysBeforeNow => {
            reveal_strlit("daysBeforeNow");
        },
        FilterValue::Decode { .. } => {
            reveal_strlit("decode");
        },
        FilterValue::First => {
            reveal_strlit("first");
        },
        FilterValue::Format { .. } => {
            reveal_strlit("format");
        },
        FilterValue::DateFormat { .. } => {
            reveal_strlit("dateFormat");
        },
        FilterValue::HtmlEscape => {
            reveal_strlit("htmlEscape");
        },
        FilterValue::HtmlUnescape => {
            reveal_strlit("htmlUnescape");
        },
        FilterValue::JsonPath { .. } => {
            reveal_strlit("jsonpath");
        },
        FilterValue::Last => {
            reveal_strlit("last");
        },
        FilterValue::Location => {
            reveal_strlit("location");
        },
        FilterValue::Nth { .. } => {
            reveal_strlit("nth");
        },
        FilterValue::Regex { .. } => {
            reveal_strlit("regex");
        },
        FilterValue::Replace { .. } => {
            reveal_strlit("replace");
        },
        FilterValue::ReplaceRegex { .. } => {
            reveal_strlit("replaceRegex");
        },
        FilterValue::Split { .. } => {
            reveal_strlit("split");
        },
        FilterValue::ToDate { .. } => {
            reveal_strlit("toDate");
        },
        FilterValue::ToFloat => {
            reveal_strlit("toFloat");
        },
        FilterValue::ToHex => {
            reveal_strlit("toHex");
        },
        FilterValue::ToInt => {
            reveal_strlit("toInt");
        },
        FilterValue::ToString => {
            reveal_strlit("toString");
        },
        FilterValue::UrlDecode => {
            reveal_strlit("urlDecode");
        },
        FilterValue::UrlEncode => {
            reveal_strlit("urlEncode");
        },
        FilterValue::UrlQueryParam { .. } => {
            reveal_strlit("urlQueryParam");
        },
        FilterValue::Utf8Decode => {
            reveal_strlit("utf8Decode");
        },
        FilterValue::Utf8Encode => {
            reveal_strlit("utf8Encode");
        },
        FilterValue::XPath { .. } => {
            reveal_strlit("xpath");
        },
    }
}

/// The filter keywords of the Hurl file format, in the order of `filter_kind`.
pub open spec fn hurl_filter_keywords() -> Seq<Seq<char>> {
    seq![
        "base64Decode"@,
        "base64Encode"@,
        "base64UrlSafeDecode"@,
        "base64UrlSafeEncode"@,
        "charsetDecode"@,
        "count"@,
        "daysAfterNow"@,
        "daysBeforeNow"@,
        "decode"@,
        "first"@,
        "format"@,
        "dateFormat"@,
        "htmlEscape"@,
        "htmlUnescape"@,
        "jsonpath"@,
        "last"@,
        "location"@,
        "nth"@,
        "regex"@,
        "replace"@,
        "replaceRegex"@,
        "split"@,
        "toDate"@,
        "toFloat"@,
        "toHex"@,
        "toInt"@,
        "toString"@,
        "urlDecode"@,
        "urlEncode"@,
        "urlQueryParam"@,
        "utf8Decode"@,
        "utf8Encode"@,
        "xpath"@,
    ]
}

/// The identifier of a filter is the Hurl keyword of its type.
pub proof fn law_filter_identifier_is_keyword(f: FilterValue)
    ensures
        0 <= filter_kind(f) < hurl_filter_keywords().len(),
        filter_identifier(f) == hurl_filter_keywords()[filter_kind(f)],
{
}

/// Two filters of different types have different identifiers.
pub proof fn law_filter_identifiers_distinct(f: FilterValue, g: FilterValue)
    requires
        filter_kind(f) != filter_kind(g),
    ensures
        filter_identifier(f) != filter_identifier(g),
{
    lemma_identifier_signature(f);
    lemma_identifier_signature(g);
}

impl FilterValue {
    /// Returns the Hurl identifier for this filter type.
    pub fn identifier(&self) -> (r: &'static str)
        ensures
            r@ == filter_identifier(*self),
    {
        match self {
            FilterValue::Base64Decode => "base64Decode",
            FilterValue::Base64Encode => "base64Encode",
            FilterValue::Base64UrlSafeDecode => "base64UrlSafeDecode",
            FilterValue::Base64UrlSafeEncode => "base64UrlSafeEncode",
            FilterValue::CharsetDecode { .. } => "charsetDecode",
            FilterValue::Count => "count",
            FilterValue::DaysAfterNow => "daysAfterNow",
            FilterValue::DaysBeforeNow => "daysBeforeNow",
            FilterValue::Decode { .. } => "decode",
            FilterValue::First => "first",
            FilterValue::Format { .. } => "format",
            FilterValue::DateFormat { .. } => "dateFormat",
            FilterValue::HtmlEscape => "htmlEscape",
            FilterValue::HtmlUnescape => "htmlUnescape",
            FilterValue::JsonPath { .. } => "jsonpath",
            FilterValue::Last => "last",
            FilterValue::Location => "location",
            FilterValue::Nth { .. } => "nth",
            FilterValue::Regex { .. } => "regex",
            FilterValue::Replace { .. } => "replace",
            FilterValue::ReplaceRegex { .. } => "replaceRegex",
            FilterValue::Split { .. } => "split",
            FilterValue::ToDate { .. } => "toDate",
            FilterValue::ToFloat => "toFloat",
            FilterValue::ToHex => "toHex",
            FilterValue::ToInt => "toInt",
            FilterValue::ToString => "toString",
            FilterValue::UrlDecode => "urlDecode",
            FilterValue::UrlEncode => "urlEncode",
            FilterValue::UrlQueryParam { .. } => "urlQueryParam",
            FilterValue::Utf8Decode => "utf8Decode",
            FilterValue::Utf8Encode => "utf8Encode",
            FilterValue::XPath { .. } => "xpath",
        }
    }
}

#[derive(Clone, Debug, PartialEq, Eq)]
pub enum IntegerValue {
    Literal(I64),
    Placeholder(Placeholder),
}

/// The text of an integer value, as it is displayed: the literal's value in decimal, or the
/// placeholder's expression (the name of its variable).
pub open spec fn integer_value_text(v: IntegerValue) -> Seq<char> {
    match v {
        IntegerValue::Literal(n) => signed_decimal(n.value as int),
        IntegerValue::Placeholder(p) => match p.expr.kind {
            ExprKind::Variable(var) => var.name@,
        },
    }
}

impl IntegerValue {
    /// The text of this integer value, as it is displayed.
    pub fn to_string(&self) -> (s: String)
        ensures
            s@ == integer_value_text(*self),
    {
        match self {
            IntegerValue::Literal(n) => i64_to_decimal(n.value),
            IntegerValue::Placeholder(p) => match &p.expr.kind {
                ExprKind::Variable(var) => var.name.clone(),
            },
        }
    }
}

} // verus!
