use hurl::body::{eval_body, eval_bytes};
use hurl::fs_context::{DirectoryContext, FsDirectoryContext};
use hurl::http;
use hurl::primitive::{
    Base64, Bytes, File, Filename, Hex, LineTerminator, RawString, SourceInfo, Template,
    TemplateElement, Whitespace,
};
use hurl::runner::{RunnerError, VariableSet};

/// A directory whose files are held in memory, named as in a directory of the file system.
struct MemoryDir {
    dir: FsDirectoryContext,
    files: Vec<(String, Vec<u8>)>,
}

impl MemoryDir {
    fn new(base_dir: &str, files: Vec<(&str, &[u8])>) -> MemoryDir {
        MemoryDir {
            dir: FsDirectoryContext::new(base_dir.to_string()),
            files: files.into_iter().map(|(n, d)| (n.to_string(), d.to_vec())).collect(),
        }
    }
}

impl DirectoryContext for MemoryDir {
    fn file_exists(&self, filename: &Filename) -> bool {
        let name = self.dir.get_absolute_filename(filename);
        self.files.iter().any(|(n, _)| *n == name)
    }

    fn open(&self, filename: &Filename) -> Result<Vec<u8>, ()> {
        let name = self.dir.get_absolute_filename(filename);
        match self.files.iter().find(|(n, _)| *n == name) {
            Some((_, data)) => Ok(data.clone()),
            None => Err(()),
        }
    }

    fn get_absolute_filename(&self, filename: &Filename) -> String {
        self.dir.get_absolute_filename(filename)
    }
}

fn whitespace() -> Whitespace {
    Whitespace { value: String::from(" "), source_info: SourceInfo::init(0, 0, 0, 0) }
}

fn text_template(text: &str) -> Template {
    Template {
        delimiter: None,
        elements: vec![TemplateElement::String {
            value: text.to_string(),
            source: text.to_string(),
        }],
        source_info: SourceInfo::init(1, 1, 1, 1),
    }
}

#[test]
pub fn test_body_file() {
    // file, data.bin;
    let whitespace = whitespace();

    let bytes = Bytes::File(File {
        space0: whitespace.clone(),
        filename: Filename {
            value: String::from("tests/data.bin"),
            source_info: SourceInfo::init(1, 7, 1, 15),
        },
        space1: whitespace,
    });

    let variables = VariableSet::new();
    let dir = MemoryDir::new(".", vec![("./tests/data.bin", b"Hello World!")]);
    assert_eq!(
        eval_bytes(bytes, &variables, &dir).unwrap(),
        http::Body::File(b"Hello World!".to_vec(), "tests/data.bin".to_string())
    );
}

#[test]
pub fn test_body_file_error() {
    // file, data.bin;
    let whitespace = whitespace();

    let bytes = Bytes::File(File {
        space0: whitespace.clone(),
        filename: Filename {
            value: String::from("data.bin"),
            source_info: SourceInfo::init(1, 7, 1, 15),
        },
        space1: whitespace,
    });

    let variables = VariableSet::new();

    let separator = std::path::MAIN_SEPARATOR;
    let dir = MemoryDir::new("current_dir", vec![]);
    let error = eval_bytes(bytes, &variables, &dir).err().unwrap();
    assert_eq!(
        error.inner,
        RunnerError::FileReadAccess { value: format!("current_dir{}data.bin", separator) }
    );
    assert_eq!(error.source_info, SourceInfo::init(1, 7, 1, 15));
}

#[test]
fn body_base64_hex_xml_are_taken_as_they_are() {
    let variables = VariableSet::new();
    let dir = MemoryDir::new(".", vec![]);
    let b64 = Bytes::Base64(Base64 {
        space0: whitespace(),
        value: vec![1, 2, 3],
        encoded: "AQID".to_string(),
        space1: whitespace(),
    });
    assert_eq!(eval_bytes(b64, &variables, &dir).unwrap(), http::Body::Binary(vec![1, 2, 3]));
    let hex = Bytes::Hex(Hex {
        space0: whitespace(),
        value: vec![0xca, 0xfe],
        encoded: "cafe".to_string(),
        space1: whitespace(),
    });
    assert_eq!(eval_bytes(hex, &variables, &dir).unwrap(), http::Body::Binary(vec![0xca, 0xfe]));
    let xml = Bytes::Xml { value: "<a/>".to_string() };
    assert_eq!(eval_bytes(xml, &variables, &dir).unwrap(), http::Body::Text("<a/>".to_string()));
}

#[test]
fn body_raw_string_is_evaluated_and_json_taken_as_written() {
    let variables = VariableSet::new();
    let dir = MemoryDir::new(".", vec![]);
    let raw = Bytes::RawString(RawString { newline: whitespace(), value: text_template("hello") });
    assert_eq!(eval_bytes(raw, &variables, &dir).unwrap(), http::Body::Text("hello".to_string()));
    let json = Bytes::Json { value: "{\"a\": \"{{x}}\"}".to_string() };
    assert_eq!(
        eval_bytes(json, &variables, &dir).unwrap(),
        http::Body::Text("{\"a\": \"{{x}}\"}".to_string())
    );
}

#[test]
fn eval_body_evaluates_its_bytes() {
    let variables = VariableSet::new();
    let dir = MemoryDir::new("base", vec![("base/f.txt", b"abc")]);
    let lt = LineTerminator { space0: whitespace(), comment: None, newline: whitespace() };
    let body = hurl::ast::Body {
        line_terminators: vec![],
        space0: whitespace(),
        value: Bytes::File(File {
            space0: whitespace(),
            filename: Filename { value: "f.txt".to_string(), source_info: SourceInfo::init(2, 6, 2, 11) },
            space1: whitespace(),
        }),
        line_terminator0: lt,
    };
    assert_eq!(
        eval_body(body, &variables, &dir).unwrap(),
        http::Body::File(b"abc".to_vec(), "f.txt".to_string())
    );
}
