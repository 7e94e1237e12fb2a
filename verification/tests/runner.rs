use hurl::fs_context::FsDirectoryContext;
use hurl::primitive::{
    Expr, ExprKind, Filename, Placeholder, SourceInfo, Template, TemplateElement, Variable,
    Whitespace,
};
use hurl::runner::{eval_template, RunnerError, Value, VariableSet};
use hurl::text::{count_lines, i64_to_decimal, u64_to_decimal, usize_to_decimal};

fn whitespace() -> Whitespace {
    Whitespace { value: String::new(), source_info: SourceInfo::init(0, 0, 0, 0) }
}

fn text(s: &str) -> TemplateElement {
    TemplateElement::String { value: s.to_string(), source: s.to_string() }
}

fn var(name: &str, line: usize) -> TemplateElement {
    let si = SourceInfo::init(line, 3, line, 3 + name.len());
    TemplateElement::Placeholder(Placeholder {
        space0: whitespace(),
        expr: Expr { source_info: si, kind: ExprKind::Variable(Variable { name: name.to_string(), source_info: si }) },
        space1: whitespace(),
    })
}

fn template(elements: Vec<TemplateElement>) -> Template {
    Template { delimiter: None, elements, source_info: SourceInfo::init(1, 1, 1, 1) }
}

#[test]
fn template_renders_each_kind_of_value() {
    let mut variables = VariableSet::new();
    variables.insert("b".to_string(), Value::Bool(true));
    variables.insert("f".to_string(), Value::Bool(false));
    variables.insert("n".to_string(), Value::Integer(-42));
    variables.insert("z".to_string(), Value::Null);
    variables.insert("s".to_string(), Value::String("str".to_string()));
    let t = template(vec![
        var("b", 1), text(","), var("f", 1), text(","), var("n", 1), text(","), var("z", 1),
        text(","), var("s", 1),
    ]);
    assert_eq!(eval_template(&t, &variables).unwrap(), "true,false,-42,null,str");
}

#[test]
fn template_without_placeholder_is_its_text() {
    let variables = VariableSet::new();
    assert_eq!(eval_template(&template(vec![]), &variables).unwrap(), "");
    assert_eq!(eval_template(&template(vec![text("a"), text("bc")]), &variables).unwrap(), "abc");
}

#[test]
fn template_first_error_is_reported() {
    let mut variables = VariableSet::new();
    variables.insert("bytes".to_string(), Value::Bytes(vec![1]));
    let t = template(vec![text("x"), var("bytes", 4), var("missing", 5)]);
    let error = eval_template(&t, &variables).err().unwrap();
    assert_eq!(error.inner, RunnerError::UnrenderableVariable { name: "bytes".to_string() });
    assert_eq!(error.source_info, SourceInfo::init(4, 3, 4, 8));
    assert!(!error.assert);
    let t = template(vec![var("missing", 5), var("bytes", 4)]);
    let error = eval_template(&t, &variables).err().unwrap();
    assert_eq!(error.inner, RunnerError::TemplateVariableNotDefined { name: "missing".to_string() });
    assert_eq!(error.source_info, SourceInfo::init(5, 3, 5, 10));
}

#[test]
fn variable_set_reads_what_was_written() {
    let mut variables = VariableSet::new();
    assert_eq!(variables.get("a"), None);
    variables.insert("a".to_string(), Value::Integer(1));
    variables.insert("b".to_string(), Value::Integer(2));
    assert_eq!(variables.get("a"), Some(&Value::Integer(1)));
    variables.insert("a".to_string(), Value::Integer(3));
    assert_eq!(variables.get("a"), Some(&Value::Integer(3)));
    assert_eq!(variables.get("b"), Some(&Value::Integer(2)));
    assert_eq!(variables.get("c"), None);
}

#[test]
fn decimal_rendering() {
    assert_eq!(u64_to_decimal(0), "0");
    assert_eq!(u64_to_decimal(7), "7");
    assert_eq!(u64_to_decimal(10), "10");
    assert_eq!(u64_to_decimal(u64::MAX), u64::MAX.to_string());
    assert_eq!(usize_to_decimal(1234), "1234");
    assert_eq!(i64_to_decimal(-1), "-1");
    assert_eq!(i64_to_decimal(i64::MIN), i64::MIN.to_string());
    assert_eq!(i64_to_decimal(i64::MAX), i64::MAX.to_string());
    assert_eq!(Value::Integer(-905).render(), Some("-905".to_string()));
    assert_eq!(Value::Bytes(vec![]).render(), None);
}

#[test]
fn line_count_follows_str_lines() {
    for s in ["", "a", "a\n", "\n", "\n\n", "a\nb", "a\r\nb\r\n", "a\n\nb\n\n", "é\nü"] {
        assert_eq!(count_lines(s), s.lines().count(), "{:?}", s);
    }
}

#[test]
fn absolute_filename_joins_relative_names() {
    let f = |v: &str| Filename { value: v.to_string(), source_info: SourceInfo::init(1, 1, 1, 1) };
    let dir = FsDirectoryContext::new("tests".to_string());
    assert_eq!(dir.get_absolute_filename(&f("a.txt")), "tests/a.txt");
    assert_eq!(dir.get_absolute_filename(&f("/etc/hosts")), "/etc/hosts");
    assert_eq!(dir.get_absolute_filename(&f("")), "tests/");
    let slash = FsDirectoryContext::new("tests/".to_string());
    assert_eq!(slash.get_absolute_filename(&f("a.txt")), "tests/a.txt");
    let empty = FsDirectoryContext::new(String::new());
    assert_eq!(empty.get_absolute_filename(&f("a.txt")), "a.txt");
    assert_eq!(empty.base_dir(), "");
    for (base, name) in [("tests", "a.txt"), ("tests/", "b"), ("", "c"), ("d", "/e"), ("x", "")] {
        let expected = std::path::Path::new(base).join(name).to_str().unwrap().to_string();
        let dir = FsDirectoryContext::new(base.to_string());
        assert_eq!(dir.get_absolute_filename(&f(name)), expected);
    }
}
