//! Verified core of the Hurl runner and HTML report: the Hurl AST accessors, the evaluation of
//! request bodies and multipart parameters, and the pages of the HTML testcase report.

pub mod ast;
pub mod body;
pub mod fs_context;
pub mod http;
pub mod multipart;
pub mod primitive;
pub mod report;
pub mod report_laws;
pub mod runner;
pub mod text;
