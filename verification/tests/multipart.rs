use hurl::fs_context::{DirectoryContext, FsDirectoryContext};
use hurl::http;
use hurl::multipart::{
    content_type_for_extension, eval_file_param, eval_multipart_param, file_param_found,
    file_value_content_type,
};
use hurl::primitive::{
    EncodedString, Expr, ExprKind, FileParam, FileValue, Filename, KeyValue, LineTerminator,
    MultipartParam, Placeholder, SourceInfo, Template, TemplateElement, Variable, Whitespace,
};
use hurl::runner::{RunnerError, Value, VariableSet};

/// A directory whose files are held in memory, named as in a directory of the file system.
struct MemoryDir {
    dir: FsDirectoryContext,
    files: Vec<(String, Vec<u8>)>,
}

impl MemoryDir {
    fn new(base_dir: &str, files: Vec<(&str, &[u8])>) -> MemoryDir {
        MemoryDir {
            dir: FsDirectoryContext::new(base_dir.to_string()),
            files: files.into_iter().map(|(n, d)| (n.to_string(), d.to_vec())).collect(),
        }
    }
}

impl DirectoryContext for MemoryDir {
    fn file_exists(&self, filename: &Filename) -> bool {
        let name = self.dir.get_absolute_filename(filename);
        self.files.iter().any(|(n, _)| *n == name)
    }

    fn open(&self, filename: &Filename) -> Result<Vec<u8>, ()> {
        let name = self.dir.get_absolute_filename(filename);
        match self.files.iter().find(|(n, _)| *n == name) {
            Some((_, data)) => Ok(data.clone()),
            None => Err(()),
        }
    }

    fn get_absolute_filename(&self, filename: &Filename) -> String {
        self.dir.get_absolute_filename(filename)
    }
}

pub fn whitespace() -> Whitespace {
    Whitespace { value: String::from(" "), source_info: SourceInfo::init(0, 0, 0, 0) }
}

fn line_terminator() -> LineTerminator {
    LineTerminator { space0: whitespace(), comment: None, newline: whitespace() }
}

fn encoded(value: &str) -> EncodedString {
    EncodedString {
        value: value.to_string(),
        encoded: value.to_string(),
        quotes: false,
        source_info: SourceInfo::init(0, 0, 0, 0),
    }
}

fn file_value(filename: &str, content_type: Option<&str>) -> FileValue {
    FileValue {
        space0: whitespace(),
        filename: Filename {
            value: filename.to_string(),
            source_info: SourceInfo::init(0, 0, 0, 0),
        },
        space1: whitespace(),
        space2: whitespace(),
        content_type: content_type.map(|c| c.to_string()),
    }
}

fn file_param(key: &str, filename: &str) -> FileParam {
    FileParam {
        line_terminators: vec![],
        space0: whitespace(),
        key: encoded(key),
        space1: whitespace(),
        space2: whitespace(),
        value: file_value(filename, None),
        line_terminator0: line_terminator(),
    }
}

#[test]
pub fn test_eval_file_param() {
    let line_terminator = LineTerminator {
        space0: whitespace(),
        comment: None,
        newline: whitespace(),
    };
    assert_eq!(
        eval_file_param(
            FileParam {
                line_terminators: vec![],
                space0: whitespace(),
                key: EncodedString {
                    value: "upload1".to_string(),
                    encoded: "upload1".to_string(),
                    quotes: false,
                    source_info: SourceInfo::init(0, 0, 0, 0),
                },
                space1: whitespace(),
                space2: whitespace(),
                value: FileValue {
                    space0: whitespace(),
                    filename: Filename {
                        value: "hello.txt".to_string(),
                        source_info: SourceInfo::init(0, 0, 0, 0),
                    },
                    space1: whitespace(),
                    space2: whitespace(),
                    content_type: None,
                },
                line_terminator0: line_terminator,
            },
            &MemoryDir::new("tests", vec![("tests/hello.txt", b"Hello World!")]),
        )
        .unwrap(),
        http::FileParam {
            name: "upload1".to_string(),
            filename: "hello.txt".to_string(),
            data: b"Hello World!".to_vec(),
            content_type: "text/plain".to_string(),
        }
    );
}

#[test]
pub fn test_file_value_content_type() {
    assert_eq!(
        file_value_content_type(FileValue {
            space0: whitespace(),
            filename: Filename {
                value: "hello.txt".to_string(),
                source_info: SourceInfo::init(0, 0, 0, 0),
            },
            space1: whitespace(),
            space2: whitespace(),
            content_type: None,
        }),
        "text/plain".to_string()
    );

    assert_eq!(
        file_value_content_type(FileValue {
            space0: whitespace(),
            filename: Filename {
                value: "hello.html".to_string(),
                source_info: SourceInfo::init(0, 0, 0, 0),
            },
            space1: whitespace(),
            space2: whitespace(),
            content_type: None,
        }),
        "text/html".to_string()
    );

    assert_eq!(
        file_value_content_type(FileValue {
            space0: whitespace(),
            filename: Filename {
                value: "hello.txt".to_string(),
                source_info: SourceInfo::init(0, 0, 0, 0),
            },
            space1: whitespace(),
            space2: whitespace(),
            content_type: Some("text/html".to_string()),
        }),
        "text/html".to_string()
    );

    assert_eq!(
        file_value_content_type(FileValue {
            space0: whitespace(),
            filename: Filename {
                value: "hello".to_string(),
                source_info: SourceInfo::init(0, 0, 0, 0),
            },
            space1: whitespace(),
            space2: whitespace(),
            content_type: None,
        }),
        "application/octet-stream".to_string()
    );
}

#[test]
fn content_type_of_each_extension() {
    let cases = [
        ("gif", "image/gif"),
        ("jpg", "image/jpeg"),
        ("jpeg", "image/jpeg"),
        ("png", "image/png"),
        ("svg", "image/svg+xml"),
        ("txt", "text/plain"),
        ("htm", "text/html"),
        ("html", "text/html"),
        ("pdf", "application/pdf"),
        ("xml", "application/xml"),
        ("json", "application/octet-stream"),
        ("TXT", "application/octet-stream"),
        ("", "application/octet-stream"),
    ];
    for (ext, expected) in cases {
        assert_eq!(content_type_for_extension(Some(ext)), expected.to_string());
    }
    assert_eq!(content_type_for_extension(None), "application/octet-stream".to_string());
}

#[test]
fn content_type_goes_by_the_last_extension_of_the_file_name() {
    assert_eq!(file_value_content_type(file_value("photo.jpeg", None)), "image/jpeg");
    assert_eq!(file_value_content_type(file_value("archive.tar.gz", None)), "application/octet-stream");
    assert_eq!(file_value_content_type(file_value("page.min.svg", None)), "image/svg+xml");
    assert_eq!(file_value_content_type(file_value("dir.d/data.pdf", None)), "application/pdf");
    assert_eq!(file_value_content_type(file_value("dir.xml/data", None)), "application/octet-stream");
    assert_eq!(file_value_content_type(file_value(".png", None)), "application/octet-stream");
    assert_eq!(file_value_content_type(file_value("a.png", Some("image/webp"))), "image/webp");
}

#[test]
fn file_param_missing_file_is_a_read_error_with_the_accessed_name() {
    let dir = MemoryDir::new("base", vec![]);
    let error = eval_file_param(file_param("upload", "missing.bin"), &dir).err().unwrap();
    assert_eq!(error.inner, RunnerError::FileReadAccess { value: "base/missing.bin".to_string() });
    assert!(!error.assert);
}

#[test]
fn file_param_found_for_each_outcome() {
    let p = file_param("upload", "data.png");
    let ok = file_param_found(p.clone(), vec![1, 2], true);
    assert_eq!(
        ok.unwrap(),
        http::FileParam {
            name: "upload".to_string(),
            filename: "data.png".to_string(),
            data: vec![1, 2],
            content_type: "image/png".to_string(),
        }
    );
    let gone = file_param_found(p, vec![1], false).err().unwrap();
    assert_eq!(gone.inner, RunnerError::FileReadAccess { value: "data.png".to_string() });
    assert_eq!(gone.source_info, SourceInfo::init(0, 0, 0, 0));
    assert!(!gone.assert);
}

/// A directory context that records the calls made on it.
struct CountingDir {
    inner: MemoryDir,
    calls: std::cell::RefCell<Vec<&'static str>>,
}

impl DirectoryContext for CountingDir {
    fn file_exists(&self, filename: &Filename) -> bool {
        self.calls.borrow_mut().push("exists");
        self.inner.file_exists(filename)
    }

    fn open(&self, filename: &Filename) -> Result<Vec<u8>, ()> {
        self.calls.borrow_mut().push("open");
        self.inner.open(filename)
    }

    fn get_absolute_filename(&self, filename: &Filename) -> String {
        self.calls.borrow_mut().push("absolute");
        self.inner.get_absolute_filename(filename)
    }
}

#[test]
fn file_param_calls_the_directory_context_as_needed() {
    let present = CountingDir {
        inner: MemoryDir::new("d", vec![("d/a.txt", b"x")]),
        calls: std::cell::RefCell::new(vec![]),
    };
    assert!(eval_file_param(file_param("f", "a.txt"), &present).is_ok());
    assert_eq!(*present.calls.borrow(), vec!["open", "exists"]);
    let absent = CountingDir { inner: MemoryDir::new("d", vec![]), calls: std::cell::RefCell::new(vec![]) };
    assert!(eval_file_param(file_param("f", "a.txt"), &absent).is_err());
    assert_eq!(*absent.calls.borrow(), vec!["open", "absolute"]);
}

#[test]
fn multipart_param_evaluates_its_template() {
    let mut variables = VariableSet::new();
    variables.insert("user".to_string(), Value::String("bob".to_string()));
    let var_si = SourceInfo::init(3, 10, 3, 14);
    let template = Template {
        delimiter: None,
        elements: vec![
            TemplateElement::String { value: "name=".to_string(), source: "name=".to_string() },
            TemplateElement::Placeholder(Placeholder {
                space0: whitespace(),
                expr: Expr {
                    source_info: var_si,
                    kind: ExprKind::Variable(Variable { name: "user".to_string(), source_info: var_si }),
                },
                space1: whitespace(),
            }),
        ],
        source_info: SourceInfo::init(3, 1, 3, 16),
    };
    let param = MultipartParam::Param(KeyValue {
        line_terminators: vec![],
        space0: whitespace(),
        key: encoded("field"),
        space1: whitespace(),
        space2: whitespace(),
        value: template,
        line_terminator0: line_terminator(),
    });
    let dir = MemoryDir::new(".", vec![]);
    assert_eq!(
        eval_multipart_param(param.clone(), &variables, &dir).unwrap(),
        http::MultipartParam::Param(http::Param {
            name: "field".to_string(),
            value: "name=bob".to_string()
        })
    );
    let empty = VariableSet::new();
    let error = eval_multipart_param(param, &empty, &dir).err().unwrap();
    assert_eq!(error.inner, RunnerError::TemplateVariableNotDefined { name: "user".to_string() });
    assert_eq!(error.source_info, var_si);

    let file = MultipartParam::FileParam(file_param("f", "a.txt"));
    let dir = MemoryDir::new(".", vec![("./a.txt", b"x")]);
    assert_eq!(
        eval_multipart_param(file, &variables, &dir).unwrap(),
        http::MultipartParam::FileParam(http::FileParam {
            name: "f".to_string(),
            filename: "a.txt".to_string(),
            data: b"x".to_vec(),
            content_type: "text/plain".to_string(),
        })
    );
}
