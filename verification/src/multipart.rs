//! Evaluation of multipart form parameters, and the content types of uploaded files.
use vstd::prelude::*;

use std::path::Path;

use crate::fs_context::DirectoryContext;
use crate::http;
use crate::primitive::{FileParam, FileValue, KeyValue, MultipartParam};
use crate::text::str_eq;
use crate::body::{file_read_error, is_read_error_result};
use crate::runner::{eval_template, eval_template_spec, Error, VariableSet};

verus! {

/// The extension of a path, as `std::path::Path::extension` gives it.
pub uninterp spec fn path_extension(path: Seq<char>) -> Option<Seq<char>>;

/// The text of an optional string.
pub open spec fn optional_text(s: Option<String>) -> Option<Seq<char>> {
    match s {
        Some(t) => Some(t@),
        None => None,
    }
}

/// Whether `s` holds a `.`.
pub open spec fn has_dot(s: Seq<char>) -> bool {
    s.contains('.')
}

/// Whether `s` is a file name with no directory and no drive (no slash, backslash nor colon),
/// that does not begin with `.` and holds a `.`.
pub open spec fn is_plain_dotted_name(s: Seq<char>) -> bool {
    s.contains('.') && !s.contains('/') && !s.contains('\\') && !s.contains(':') && s[0] != '.'
}

/// The part of `s` after its last `.` (all of `s` when it holds no `.`).
pub open spec fn after_last_dot(s: Seq<char>) -> Seq<char>
    decreases s.len(),
{
    if s.len() == 0 || s.last() == '.' {
        Seq::empty()
    } else {
        after_last_dot(s.drop_last()).push(s.last())
    }
}

/// Calls `std::path::Path::extension` on `path`, as text.
///
/// The result is named `path_extension` of the path. Of it, the documentation of `extension`
/// states: no extension when the file name holds no embedded `.`; else, when the file name does
/// not begin with `.`, the part of the file name after its last `.`. Two cases of that are stated
/// here: a path with no `.` has no extension, and a plain file name (no slash, backslash nor
/// colon, so no directory and no drive on any platform, not beginning with `.`) that holds a `.`
/// has the part after its last `.`. What the function does
/// with directories and with names beginning with `.` is left unsaid.
#[verifier::external_body]
fn file_extension(path: &str) -> (r: Option<String>)
    ensures
        optional_text(r) == path_extension(path@),
        !has_dot(path@) ==> r is None,
        is_plain_dotted_name(path@) ==> optional_text(r) == Some(after_last_dot(path@)),
{
    match Path::new(path).extension() {
        Some(ext) => ext.to_str().map(|e| e.to_owned()),
        None => None,
    }
}

/// The content type of a file with the extension `ext`.
pub open spec fn extension_content_type(ext: Option<Seq<char>>) -> Seq<char> {
    match ext {
        Some(e) => if e == "gif"@ {
            "image/gif"@
        } else if e == "jpg"@ {
            "image/jpeg"@
        } else if e == "jpeg"@ {
            "image/jpeg"@
        } else if e == "png"@ {
            "image/png"@
        } else if e == "svg"@ {
            "image/svg+xml"@
        } else if e == "txt"@ {
            "text/plain"@
        } else if e == "htm"@ {
            "text/html"@
        } else if e == "html"@ {
            "text/html"@
        } else if e == "pdf"@ {
            "application/pdf"@
        } else if e == "xml"@ {
            "application/xml"@
        } else {
            "application/octet-stream"@
        },
        None => "application/octet-stream"@,
    }
}

/// The content type of a file value: the one it gives, else the one of its file extension.
pub open spec fn file_value_content_type_spec(file_value: FileValue) -> Seq<char> {
    match file_value.content_type {
        Some(content_type) => content_type@,
        None => extension_content_type(path_extension(file_value.filename.value@)),
    }
}

/// The content type of a file with the extension `ext` (`None` for no extension).
pub fn content_type_for_extension(ext: Option<&str>) -> (r: String)
    ensures
        r@ == extension_content_type(
            match ext {
                Some(e) => Some(e@),
                None => None,
            },
        ),
{
    let s = match ext {
        Some(e) => if str_eq(e, "gif") {
            "image/gif"
        } else if str_eq(e, "jpg") {
            "image/jpeg"
        } else if str_eq(e, "jpeg") {
            "image/jpeg"
        } else if str_eq(e, "png") {
            "image/png"
        } else if str_eq(e, "svg") {
            "image/svg+xml"
        } else if str_eq(e, "txt") {
            "text/plain"
        } else if str_eq(e, "htm") {
            "text/html"
        } else if str_eq(e, "html") {
            "text/html"
        } else if str_eq(e, "pdf") {
            "application/pdf"
        } else if str_eq(e, "xml") {
            "application/xml"
        } else {
            "application/octet-stream"
        },
        None => "application/octet-stream",
    };
    s.to_owned()
}

/// The content type of an uploaded file: the one the file value gives, else the one of its
/// file extension.
pub fn file_value_content_type(file_value: FileValue) -> (r: String)
    ensures
        r@ == file_value_content_type_spec(file_value),
        file_value.content_type is None && !has_dot(file_value.filename.value@) ==> r@
            == "application/octet-stream"@,
        file_value.content_type is None && is_plain_dotted_name(file_value.filename.value@) ==> r@
            == extension_content_type(Some(after_last_dot(file_value.filename.value@))),
{
    match file_value.content_type {
        None => {
            let ext = file_extension(file_value.filename.value.as_str());
            match ext {
                Some(e) => content_type_for_extension(Some(e.as_str())),
                None => content_type_for_extension(None),
            }
        },
        Some(content_type) => content_type,
    }
}

/// What a file parameter evaluates to once its file has been read and holds `data`: the
/// parameter when the file exists, else the read error under the file's own name.
pub open spec fn file_param_found_post(
    file_param: FileParam,
    data: Seq<u8>,
    found: bool,
    r: Result<http::FileParam, Error>,
) -> bool {
    let filename = file_param.value.filename;
    if found {
        r matches Ok(p) && p.name == file_param.key.value && p.filename == filename.value && p.data@
            == data && p.content_type@ == file_value_content_type_spec(file_param.value)
    } else {
        is_read_error_result(r, filename, filename.value@)
    }
}

/// The file parameter once its file has been read and holds `data`, given whether the file
/// exists.
pub fn file_param_found(file_param: FileParam, data: Vec<u8>, found: bool) -> (r: Result<
    http::FileParam,
    Error,
>)
    ensures
        file_param_found_post(file_param, data@, found, r),
{
    let FileParam { key, value: file_value, .. } = file_param;
    if !found {
        let accessed = file_value.filename.value.clone();
        return Err(file_read_error(&file_value.filename, accessed));
    }
    let name = key.value;
    let filename = file_value.filename.value.clone();
    let content_type = file_value_content_type(file_value);
    Ok(http::FileParam { name, filename, data, content_type })
}

/// What a file parameter evaluates to, as its file is read through the directory context: the
/// read error under the name the file is accessed under when it cannot be read; else what the
/// file's existence gives.
pub open spec fn eval_file_param_post<D: DirectoryContext>(
    context_dir: &D,
    file_param: FileParam,
    r: Result<http::FileParam, Error>,
) -> bool {
    let filename = file_param.value.filename;
    let name = filename.value@;
    ||| exists|accessed: Seq<char>|
        context_dir.read_outcome(name, Err(())) && context_dir.accessed_outcome(name, accessed)
            && #[trigger] is_read_error_result(r, filename, accessed)
    ||| exists|data: Seq<u8>, found: bool|
        context_dir.read_outcome(name, Ok(data)) && context_dir.exists_outcome(name, found)
            && #[trigger] file_param_found_post(file_param, data, found, r)
}

/// Evaluates a multipart file parameter: reads the file through the directory context.
pub fn eval_file_param<D: DirectoryContext>(file_param: FileParam, context_dir: &D) -> (r: Result<
    http::FileParam,
    Error,
>)
    ensures
        eval_file_param_post(context_dir, file_param, r),
{
    let read = context_dir.open(&file_param.value.filename);
    match read {
        Ok(data) => {
            let found = context_dir.file_exists(&file_param.value.filename);
            let ghost bytes = data@;
            let r = file_param_found(file_param, data, found);
            assert(file_param_found_post(file_param, bytes, found, r));
            r
        },
        Err(_) => {
            let accessed = context_dir.get_absolute_filename(&file_param.value.filename);
            let ghost name = accessed@;
            let r = Err(file_read_error(&file_param.value.filename, accessed));
            assert(is_read_error_result(r, file_param.value.filename, name));
            r
        },
    }
}

/// A file parameter's result as a multipart parameter's result.
pub open spec fn as_multipart_result(r: Result<http::FileParam, Error>) -> Result<
    http::MultipartParam,
    Error,
> {
    match r {
        Ok(p) => Ok(http::MultipartParam::FileParam(p)),
        Err(e) => Err(e),
    }
}

/// What a multipart parameter evaluates to: a plain parameter has its name and its evaluated
/// value; a file parameter evaluates as `eval_file_param` does.
pub open spec fn multipart_param_post<D: DirectoryContext>(
    context_dir: &D,
    multipart_param: MultipartParam,
    variables: VariableSet,
    r: Result<http::MultipartParam, Error>,
) -> bool {
    match multipart_param {
        MultipartParam::Param(kv) => match eval_template_spec(kv.value, variables) {
            Ok(value) => r matches Ok(http::MultipartParam::Param(p)) && p.name == kv.key.value
                && p.value@ == value,
            Err(e) => r == Err::<http::MultipartParam, Error>(e),
        },
        MultipartParam::FileParam(fp) => exists|inner: Result<http::FileParam, Error>|
            eval_file_param_post(context_dir, fp, inner) && r == #[trigger] as_multipart_result(
                inner,
            ),
    }
}

/// Evaluates a multipart form parameter.
pub fn eval_multipart_param<D: DirectoryContext>(
    multipart_param: MultipartParam,
    variables: &VariableSet,
    context_dir: &D,
) -> (r: Result<http::MultipartParam, Error>)
    ensures
        multipart_param_post(context_dir, multipart_param, *variables, r),
{
    match multipart_param {
        MultipartParam::Param(KeyValue { key, value, .. }) => {
            let name = key.value;
            match eval_template(&value, variables) {
                Ok(value) => Ok(http::MultipartParam::Param(http::Param { name, value })),
                Err(e) => Err(e),
            }
        },
        MultipartParam::FileParam(param) => {
            let inner = eval_file_param(param, context_dir);
            let ghost g = inner;
            let r = match inner {
                Ok(file_param) => Ok(http::MultipartParam::FileParam(file_param)),
                Err(e) => Err(e),
            };
            assert(r == as_multipart_result(g));
            r
        },
    }
}

} // verus!
