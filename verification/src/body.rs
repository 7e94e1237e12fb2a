//! Evaluation of request bodies.
use vstd::prelude::*;

use crate::ast::Body;
use crate::fs_context::DirectoryContext;
use crate::http;
use crate::primitive::{Base64, Bytes, File, Filename, Hex, RawString};
use crate::runner::{eval_template, eval_template_spec, Error, RunnerError, VariableSet};

verus! {

/// `r` is the text body of the evaluated text `t`, or its error.
pub open spec fn text_body(t: Result<Seq<char>, Error>, r: Result<http::Body, Error>) -> bool {
    match t {
        Ok(s) => r matches Ok(http::Body::Text(x)) && x@ == s,
        Err(e) => r == Err::<http::Body, Error>(e),
    }
}

/// `e` is the error for a file that cannot be opened or read, reported under the name
/// `accessed`.
pub open spec fn is_read_error(e: Error, filename: Filename, accessed: Seq<char>) -> bool {
    &&& e.source_info == filename.source_info
    &&& e.inner matches RunnerError::FileReadAccess { value } && value@ == accessed
    &&& !e.assert
}

/// `r` is the error for a file that cannot be opened or read, reported under `accessed`.
pub open spec fn is_read_error_result<T>(r: Result<T, Error>, filename: Filename, accessed: Seq<char>) -> bool {
    r matches Err(e) && is_read_error(e, filename, accessed)
}

/// `r` is the body of the file `filename` holding `data`.
pub open spec fn is_file_body(r: Result<http::Body, Error>, filename: Filename, data: Seq<u8>) -> bool {
    r matches Ok(http::Body::File(d, n)) && d@ == data && n == filename.value
}

/// What a file body is, as read through the directory context: the file's content when it is
/// read, else the read error under the name the file is accessed under.
pub open spec fn file_body_post<D: DirectoryContext>(
    context_dir: &D,
    filename: Filename,
    r: Result<http::Body, Error>,
) -> bool {
    let name = filename.value@;
    ||| exists|data: Seq<u8>|
        context_dir.read_outcome(name, Ok(data)) && #[trigger] is_file_body(r, filename, data)
    ||| exists|accessed: Seq<char>|
        context_dir.read_outcome(name, Err(())) && context_dir.accessed_outcome(name, accessed)
            && #[trigger] is_read_error_result(r, filename, accessed)
}

/// What evaluating `bytes` gives: a raw string's template is evaluated, JSON, XML, base64 and
/// hex bytes are taken as they are, and a file gives its content as read through the directory context.
pub open spec fn eval_bytes_post<D: DirectoryContext>(
    context_dir: &D,
    bytes: Bytes,
    variables: VariableSet,
    r: Result<http::Body, Error>,
) -> bool {
    match bytes {
        Bytes::RawString(raw) => text_body(eval_template_spec(raw.value, variables), r),
        Bytes::Json { value } => r == Ok::<http::Body, Error>(http::Body::Text(value)),
        Bytes::Xml { value } => r == Ok::<http::Body, Error>(http::Body::Text(value)),
        Bytes::Base64(b) => r == Ok::<http::Body, Error>(http::Body::Binary(b.value)),
        Bytes::Hex(h) => r == Ok::<http::Body, Error>(http::Body::Binary(h.value)),
        Bytes::File(f) => file_body_post(context_dir, f.filename, r),
    }
}

/// The error for the file `filename` that cannot be opened or read, reported under the name
/// `accessed`.
pub fn file_read_error(filename: &Filename, accessed: String) -> (e: Error)
    ensures
        is_read_error(e, *filename, accessed@),
{
    Error {
        source_info: filename.source_info,
        inner: RunnerError::FileReadAccess { value: accessed },
        assert: false,
    }
}

/// Evaluates a request body.
pub fn eval_body<D: DirectoryContext>(body: Body, variables: &VariableSet, context_dir: &D) -> (r:
    Result<http::Body, Error>)
    ensures
        eval_bytes_post(context_dir, body.value, *variables, r),
{
    eval_bytes(body.value, variables, context_dir)
}

/// Evaluates the bytes of a body.
pub fn eval_bytes<D: DirectoryContext>(bytes: Bytes, variables: &VariableSet, context_dir: &D) -> (r:
    Result<http::Body, Error>)
    ensures
        eval_bytes_post(context_dir, bytes, *variables, r),
{
    match bytes {
        Bytes::RawString(RawString { value, .. }) => {
            match eval_template(&value, variables) {
                Ok(text) => Ok(http::Body::Text(text)),
                Err(e) => Err(e),
            }
        },
        Bytes::Xml { value, .. } => Ok(http::Body::Text(value)),
        Bytes::Json { value, .. } => Ok(http::Body::Text(value)),
        Bytes::Base64(Base64 { value, .. }) => Ok(http::Body::Binary(value)),
        Bytes::Hex(Hex { value, .. }) => Ok(http::Body::Binary(value)),
        Bytes::File(File { filename, .. }) => {
            match context_dir.open(&filename) {
                Ok(body_contents) => {
                    let ghost data = body_contents@;
                    let r = Ok(http::Body::File(body_contents, filename.value));
                    assert(is_file_body(r, filename, data));
                    r
                },
                Err(_) => {
                    let accessed = context_dir.get_absolute_filename(&filename);
                    let ghost name = accessed@;
                    let r = Err(file_read_error(&filename, accessed));
                    assert(is_read_error_result(r, filename, name));
                    r
                },
            }
        },
    }
}

} // verus!
