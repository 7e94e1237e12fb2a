//! Runner values, variables and errors, and the evaluation of templates.
use vstd::prelude::*;

use crate::primitive::{ExprKind, SourceInfo, Template, TemplateElement, Variable};
use crate::text::{i64_to_decimal, signed_decimal, str_eq};

verus! {

/// A value a variable can hold.
#[derive(Clone, Debug, PartialEq, Eq)]
pub enum Value {
    Bool(bool),
    Integer(i64),
    Null,
    String(String),
    Bytes(Vec<u8>),
}

/// The text a value renders to in a template, if it can be rendered.
pub open spec fn render_value(v: Value) -> Option<Seq<char>> {
    match v {
        Value::Bool(b) => Some(if b { "true"@ } else { "false"@ }),
        Value::Integer(n) => Some(signed_decimal(n as int)),
        Value::Null => Some("null"@),
        Value::String(s) => Some(s@),
        Value::Bytes(_) => None,
    }
}

impl Value {
    /// Renders this value in a template: `None` for bytes, which have no text.
    pub fn render(&self) -> (r: Option<String>)
        ensures
            match r {
                Some(s) => render_value(*self) == Some(s@),
                None => render_value(*self) is None,
            },
    {
        match self {
            Value::Bool(b) => if *b {
                Some("true".to_owned())
            } else {
                Some("false".to_owned())
            },
            Value::Integer(n) => Some(i64_to_decimal(*n)),
            Value::Null => Some("null".to_owned()),
            Value::String(s) => Some(s.clone()),
            Value::Bytes(_) => None,
        }
    }
}

/// The value bound to `name` in a list of bindings: the first binding of that name.
pub open spec fn lookup(items: Seq<(String, Value)>, name: Seq<char>) -> Option<Value>
    decreases items.len(),
{
    if items.len() == 0 {
        None
    } else if items[0].0@ == name {
        Some(items[0].1)
    } else {
        lookup(items.drop_first(), name)
    }
}

/// The variables of a run, each name bound to one value.
#[derive(Clone, Debug, PartialEq, Eq)]
pub struct VariableSet {
    items: Vec<(String, Value)>,
}

impl VariableSet {
    /// The value of the variable `name`, if it is defined.
    pub closed spec fn value_of(&self, name: Seq<char>) -> Option<Value> {
        lookup(self.items@, name)
    }

    /// Creates a set with no variable.
    pub fn new() -> (s: VariableSet)
        ensures
            forall|name: Seq<char>| s.value_of(name) is None,
    {
        VariableSet { items: Vec::new() }
    }

    /// The value of the variable `name`, if it is defined.
    pub fn get(&self, name: &str) -> (r: Option<&Value>)
        ensures
            match r {
                Some(v) => self.value_of(name@) == Some(*v),
                None => self.value_of(name@) is None,
            },
    {
        let mut i: usize = 0;
        proof {
            assert(self.items@.skip(0) =~= self.items@);
        }
        while i < self.items.len()
            invariant
                0 <= i <= self.items@.len(),
                lookup(self.items@, name@) == lookup(self.items@.skip(i as int), name@),
            decreases self.items@.len() - i,
        {
            proof {
                assert(self.items@.skip(i as int).drop_first() =~= self.items@.skip(i + 1));
            }
            if str_eq(self.items[i].0.as_str(), name) {
                return Some(&self.items[i].1);
            }
            i = i + 1;
        }
        None
    }

    /// Binds `name` to `value`, replacing its former value if it had one.
    pub fn insert(&mut self, name: String, value: Value)
        ensures
            final(self).value_of(name@) == Some(value),
            forall|other: Seq<char>|
                other != name@ ==> final(self).value_of(other) == old(self).value_of(other),
    {
        let mut i: usize = 0;
        while i < self.items.len()
            invariant
                0 <= i <= self.items@.len(),
                self.items@ == old(self).items@,
                forall|j: int| 0 <= j < i ==> self.items@[j].0@ != name@,
            decreases self.items@.len() - i,
        {
            if self.items[i].0 == name {
                proof { lemma_lookup_update(self.items@, i as int, name, value); }
                self.items.set(i, (name, value));
                return;
            }
            i = i + 1;
        }
        proof { lemma_lookup_push(self.items@, name, value); }
        self.items.push((name, value));
    }
}

proof fn lemma_lookup_update(items: Seq<(String, Value)>, i: int, name: String, value: Value)
    requires
        0 <= i < items.len(),
        items[i].0@ == name@,
        forall|j: int| 0 <= j < i ==> items[j].0@ != name@,
    ensures
        lookup(items.update(i, (name, value)), name@) == Some(value),
        forall|other: Seq<char>|
            other != name@ ==> lookup(items.update(i, (name, value)), other) == lookup(
                items,
                other,
            ),
    decreases i,
{
    let updated = items.update(i, (name, value));
    if i > 0 {
        lemma_lookup_update(items.drop_first(), i - 1, name, value);
        assert(updated.drop_first() =~= items.drop_first().update(i - 1, (name, value)));
        assert(items[0].0@ != name@);
    } else {
        assert(updated.drop_first() =~= items.drop_first());
    }
    assert forall|other: Seq<char>| other != name@ implies lookup(updated, other) == lookup(
        items,
        other,
    ) by {
        if i > 0 {
            assert(updated[0] == items[0]);
            assert(lookup(items.drop_first().update(i - 1, (name, value)), other) == lookup(
                items.drop_first(),
                other,
            ));
        }
    }
}

proof fn lemma_lookup_push(items: Seq<(String, Value)>, name: String, value: Value)
    requires
        forall|j: int| 0 <= j < items.len() ==> items[j].0@ != name@,
    ensures
        lookup(items.push((name, value)), name@) == Some(value),
        forall|other: Seq<char>|
            other != name@ ==> lookup(items.push((name, value)), other) == lookup(items, other),
    decreases items.len(),
{
    let pushed = items.push((name, value));
    if items.len() > 0 {
        lemma_lookup_push(items.drop_first(), name, value);
        assert(pushed.drop_first() =~= items.drop_first().push((name, value)));
        assert(items[0].0@ != name@);
        assert forall|other: Seq<char>| other != name@ implies lookup(pushed, other) == lookup(
            items,
            other,
        ) by {
            assert(pushed[0] == items[0]);
            assert(lookup(items.drop_first().push((name, value)), other) == lookup(
                items.drop_first(),
                other,
            ));
        }
    } else {
        assert(pushed.drop_first() =~= items);
    }
}

/// A runtime error: where it happened, what it is, and whether it comes from an assert.
#[derive(Clone, Debug, PartialEq, Eq)]
pub struct Error {
    pub source_info: SourceInfo,
    pub inner: RunnerError,
    pub assert: bool,
}

#[derive(Clone, Debug, PartialEq, Eq)]
pub enum RunnerError {
    /// A file could not be opened or read.
    FileReadAccess { value: String },
    /// A template uses a variable that is not defined.
    TemplateVariableNotDefined { name: String },
    /// A template uses a variable whose value has no text.
    UnrenderableVariable { name: String },
}

impl RunnerError {
    /// A copy of this error.
    pub fn copy(&self) -> (r: RunnerError)
        ensures
            r == *self,
    {
        match self {
            RunnerError::FileReadAccess { value } => RunnerError::FileReadAccess {
                value: value.clone(),
            },
            RunnerError::TemplateVariableNotDefined { name } =>
                RunnerError::TemplateVariableNotDefined { name: name.clone() },
            RunnerError::UnrenderableVariable { name } => RunnerError::UnrenderableVariable {
                name: name.clone(),
            },
        }
    }
}

impl Error {
    /// A copy of this error.
    pub fn copy(&self) -> (r: Error)
        ensures
            r == *self,
    {
        Error { source_info: self.source_info, inner: self.inner.copy(), assert: self.assert }
    }
}

/// What a template element evaluates to.
pub open spec fn eval_element(element: TemplateElement, variables: VariableSet) -> Result<
    Seq<char>,
    Error,
> {
    match element {
        TemplateElement::String { value, .. } => Ok(value@),
        TemplateElement::Placeholder(placeholder) => match placeholder.expr.kind {
            ExprKind::Variable(var) => match variables.value_of(var.name@) {
                None => Err(
                    Error {
                        source_info: var.source_info,
                        inner: RunnerError::TemplateVariableNotDefined { name: var.name },
                        assert: false,
                    },
                ),
                Some(v) => match render_value(v) {
                    None => Err(
                        Error {
                            source_info: var.source_info,
                            inner: RunnerError::UnrenderableVariable { name: var.name },
                            assert: false,
                        },
                    ),
                    Some(text) => Ok(text),
                },
            },
        },
    }
}

/// What a sequence of template elements evaluates to: the texts of the elements one after the
/// other, or the error of the first element that fails.
pub open spec fn eval_elements(elements: Seq<TemplateElement>, variables: VariableSet) -> Result<
    Seq<char>,
    Error,
>
    decreases elements.len(),
{
    if elements.len() == 0 {
        Ok(Seq::empty())
    } else {
        match eval_elements(elements.drop_last(), variables) {
            Err(e) => Err(e),
            Ok(prefix) => match eval_element(elements.last(), variables) {
                Err(e) => Err(e),
                Ok(text) => Ok(prefix + text),
            },
        }
    }
}

/// What a template evaluates to.
pub open spec fn eval_template_spec(template: Template, variables: VariableSet) -> Result<
    Seq<char>,
    Error,
> {
    eval_elements(template.elements@, variables)
}

/// The text of a string result, kept with its error.
pub open spec fn text_of(r: Result<String, Error>) -> Result<Seq<char>, Error> {
    match r {
        Ok(s) => Ok(s@),
        Err(e) => Err(e),
    }
}

/// Evaluates a template against the variables of the run.
pub fn eval_template(template: &Template, variables: &VariableSet) -> (r: Result<String, Error>)
    ensures
        text_of(r) == eval_template_spec(*template, *variables),
{
    let mut out = String::new();
    let mut i: usize = 0;
    let ghost elements = template.elements@;
    while i < template.elements.len()
        invariant
            0 <= i <= elements.len(),
            elements == template.elements@,
            eval_elements(elements.take(i as int), *variables) == Ok::<Seq<char>, Error>(out@),
        decreases elements.len() - i,
    {
        proof {
            assert(elements.take(i + 1).drop_last() =~= elements.take(i as int));
        }
        match &template.elements[i] {
            TemplateElement::String { value, .. } => {
                out.append(value.as_str());
            },
            TemplateElement::Placeholder(placeholder) => {
                match &placeholder.expr.kind {
                    ExprKind::Variable(var) => {
                        match variables.get(var.name.as_str()) {
                            None => {
                                proof { lemma_eval_elements_error(elements, i as int, *variables); }
                                return Err(
                                    Error {
                                        source_info: var.source_info,
                                        inner: RunnerError::TemplateVariableNotDefined {
                                            name: var.name.clone(),
                                        },
                                        assert: false,
                                    },
                                );
                            },
                            Some(value) => {
                                match value.render() {
                                    None => {
                                        proof {
                                            lemma_eval_elements_error(elements, i as int, *variables);
                                        }
                                        return Err(
                                            Error {
                                                source_info: var.source_info,
                                                inner: RunnerError::UnrenderableVariable {
                                                    name: var.name.clone(),
                                                },
                                                assert: false,
                                            },
                                        );
                                    },
                                    Some(text) => {
                                        out.append(text.as_str());
                                    },
                                }
                            },
                        }
                    },
                }
            },
        }
        i = i + 1;
    }
    proof {
        assert(elements.take(elements.len() as int) =~= elements);
    }
    Ok(out)
}

/// Once an element fails, the whole sequence fails with its error.
proof fn lemma_eval_elements_error(elements: Seq<TemplateElement>, i: int, variables: VariableSet)
    requires
        0 <= i < elements.len(),
        eval_elements(elements.take(i), variables) is Ok,
        eval_element(elements[i], variables) is Err,
    ensures
        eval_elements(elements, variables) == Err::<Seq<char>, Error>(
            eval_element(elements[i], variables)->Err_0,
        ),
    decreases elements.len(),
{
    assert(elements.take(i + 1).drop_last() =~= elements.take(i));
    if i + 1 < elements.len() {
        assert(elements.drop_last().take(i) =~= elements.take(i));
        assert(elements.drop_last()[i] == elements[i]);
        lemma_eval_elements_error(elements.drop_last(), i, variables);
    } else {
        assert(elements.take(i + 1) =~= elements);
    }
}

/// How evaluating two sequences of elements one after the other combines their results.
pub open spec fn combine_results(
    first: Result<Seq<char>, Error>,
    second: Result<Seq<char>, Error>,
) -> Result<Seq<char>, Error> {
    match first {
        Err(e) => Err(e),
        Ok(a) => match second {
            Err(e) => Err(e),
            Ok(b) => Ok(a + b),
        },
    }
}

proof fn lemma_eval_elements_concat(a: Seq<TemplateElement>, b: Seq<TemplateElement>, variables: VariableSet)
    ensures
        eval_elements(a + b, variables) == combine_results(
            eval_elements(a, variables),
            eval_elements(b, variables),
        ),
    decreases b.len(),
{
    if b.len() == 0 {
        assert(a + b =~= a);
        if let Ok(x) = eval_elements(a, variables) {
            assert(x + Seq::<char>::empty() =~= x);
        }
    } else {
        lemma_eval_elements_concat(a, b.drop_last(), variables);
        assert((a + b).drop_last() =~= a + b.drop_last());
        assert((a + b).last() == b.last());
        if let (Ok(x), Ok(y)) = (eval_elements(a, variables), eval_elements(b.drop_last(), variables)) {
            if let Ok(z) = eval_element(b.last(), variables) {
                assert(x + y + z =~= x + (y + z));
            }
        }
    }
}

/// A template is evaluated part by part: the text of a template made of the elements of `t`
/// followed by those of `u` is the text of `t` followed by the text of `u`, and its error is the
/// error of `t`, else the error of `u`.
pub proof fn law_template_concat(t: Template, u: Template, w: Template, variables: VariableSet)
    requires
        w.elements@ == t.elements@ + u.elements@,
    ensures
        eval_template_spec(w, variables) == combine_results(
            eval_template_spec(t, variables),
            eval_template_spec(u, variables),
        ),
{
    lemma_eval_elements_concat(t.elements@, u.elements@, variables);
}

/// A literal element evaluates to its decoded text, whatever its source text: a template made of
/// one literal element evaluates to the element's `value`.
pub proof fn law_template_literal(t: Template, value: String, source: String, variables: VariableSet)
    requires
        t.elements@ == seq![TemplateElement::String { value, source }],
    ensures
        eval_template_spec(t, variables) == Ok::<Seq<char>, Error>(value@),
{
    assert(t.elements@.drop_last() =~= Seq::<TemplateElement>::empty());
    assert(eval_elements(t.elements@.drop_last(), variables) == Ok::<Seq<char>, Error>(
        Seq::empty(),
    ));
    assert(t.elements@.last() == t.elements@[0]);
    assert(Seq::<char>::empty() + value@ =~= value@);
}

/// A placeholder of a variable evaluates to the text of the variable's value; it fails with the
/// variable's name and place when the variable is not defined, or when its value has no text.
pub proof fn law_template_variable(t: Template, var: Variable, variables: VariableSet)
    requires
        t.elements@.len() == 1,
        t.elements@[0] matches TemplateElement::Placeholder(p) && p.expr.kind == ExprKind::Variable(var),
    ensures
        variables.value_of(var.name@) is None ==> eval_template_spec(t, variables) == Err::<
            Seq<char>,
            Error,
        >(
            Error {
                source_info: var.source_info,
                inner: RunnerError::TemplateVariableNotDefined { name: var.name },
                assert: false,
            },
        ),
        variables.value_of(var.name@) matches Some(v) ==> match render_value(v) {
            Some(text) => eval_template_spec(t, variables) == Ok::<Seq<char>, Error>(text),
            None => eval_template_spec(t, variables) == Err::<Seq<char>, Error>(
                Error {
                    source_info: var.source_info,
                    inner: RunnerError::UnrenderableVariable { name: var.name },
                    assert: false,
                },
            ),
        },
{
    assert(t.elements@.drop_last() =~= Seq::<TemplateElement>::empty());
    assert(eval_elements(t.elements@.drop_last(), variables) == Ok::<Seq<char>, Error>(
        Seq::empty(),
    ));
    assert(t.elements@.last() == t.elements@[0]);
    if let Some(v) = variables.value_of(var.name@) {
        if let Some(text) = render_value(v) {
            assert(Seq::<char>::empty() + text =~= text);
        }
    }
}

} // verus!
