//! The four ways of holding a test's output against its golden file: as it is,
//! through `Debug`, through a template, and as JSON.
//!
//! Each way ends in an [`Evidence`]: what is known once the golden file was read
//! and both sides were rendered. Templates are `upon`'s and JSON is
//! `serde_json`'s; what those crates compute is named here and not restated.

use vstd::prelude::*;

use crate::template::{check_indexes, indexes_fit};
use crate::text::{same_text, text_of};

verus! {

/// `serde_json::Value`, a JSON document. It is carried as it is: what it holds
/// is read by `serde_json` alone.
#[verifier::external_type_specification]
#[verifier::external_body]
pub struct ExJsonValue(serde_json::Value);

/// `serde_json::Error`, why a text is no JSON. Only that there is one is used.
#[verifier::external_type_specification]
#[verifier::external_body]
pub struct ExJsonError(serde_json::Error);

/// `upon::Engine`, which holds the syntax that templates are compiled with.
#[verifier::external_type_specification]
#[verifier::external_body]
pub struct ExTemplateEngine<'engine>(upon::Engine<'engine>);

/// `upon::Template`, a compiled template together with the engine that made it.
#[verifier::external_type_specification]
#[verifier::external_body]
pub struct ExTemplate<'engine, 'source>(upon::Template<'engine, 'source>);

/// `upon::Error`, why a template did not compile or render. Only that there is
/// one is used.
#[verifier::external_type_specification]
#[verifier::external_body]
pub struct ExTemplateError(upon::Error);

/// `upon::Value`, the context that a template is rendered against. It is
/// carried as it is: what it holds is read by `upon` alone.
#[verifier::external_type_specification]
#[verifier::external_body]
pub struct ExTemplateValue(upon::Value);

/// The document that `serde_json::from_str` reads from `text`, where it reads one.
pub uninterp spec fn json_parsed(text: Seq<char>) -> Option<serde_json::Value>;

/// Whether `serde_json` takes two documents for equal (`==` on `serde_json::Value`).
pub uninterp spec fn json_equal(a: serde_json::Value, b: serde_json::Value) -> bool;

/// The text that `serde_json::to_string_pretty` writes for a document.
pub uninterp spec fn json_pretty(value: serde_json::Value) -> Seq<char>;

/// The `upon` engine whose expressions stand between `begin` and `end`, and which
/// knows neither blocks nor comments.
pub uninterp spec fn delimited_engine(begin: Seq<char>, end: Seq<char>) -> upon::Engine<'static>;

/// The template that `upon::Engine::compile` makes of `source`, where it makes one.
pub uninterp spec fn template_compiled(engine: upon::Engine<'static>, source: Seq<char>) -> Option<
    upon::Template<'static, 'static>,
>;

/// The text that `upon::Template::render_from` gives for a context, where it gives one.
pub uninterp spec fn template_rendered(
    template: upon::Template<'static, 'static>,
    context: upon::Value,
) -> Option<Seq<char>>;

/// What is known of an assertion once its golden file was read and rendered.
#[derive(Debug, PartialEq, Eq)]
pub enum Evidence {
    /// There was no golden file to read.
    Unreadable,
    /// The golden file did not compile as a template.
    TemplateCompileError,
    /// The template could not be rendered against the context.
    TemplateRenderError,
    /// The golden file did not parse as JSON.
    InvalidJson,
    /// Both sides were rendered: their texts, and whether they count as equal.
    Compared { actual: String, expected: String, equal: bool },
}

/// The model of [`Evidence`].
pub enum EvidenceView {
    Unreadable,
    TemplateCompileError,
    TemplateRenderError,
    InvalidJson,
    Compared { actual: Seq<char>, expected: Seq<char>, equal: bool },
}

impl View for Evidence {
    type V = EvidenceView;

    open spec fn view(&self) -> EvidenceView {
        match self {
            Evidence::Unreadable => EvidenceView::Unreadable,
            Evidence::TemplateCompileError => EvidenceView::TemplateCompileError,
            Evidence::TemplateRenderError => EvidenceView::TemplateRenderError,
            Evidence::InvalidJson => EvidenceView::InvalidJson,
            Evidence::Compared { actual, expected, equal } => EvidenceView::Compared {
                actual: actual@,
                expected: expected@,
                equal: *equal,
            },
        }
    }
}

/// The opening delimiter of an expression in a templated golden file.
pub open spec fn expression_begin() -> Seq<char> {
    "{{"@
}

/// The closing delimiter of an expression in a templated golden file.
pub open spec fn expression_end() -> Seq<char> {
    "}}"@
}

/// Plain text: the golden file is expected letter for letter.
pub open spec fn raw_evidence(actual: Seq<char>, stored: Option<Seq<char>>) -> EvidenceView {
    match stored {
        None => EvidenceView::Unreadable,
        Some(expected) => EvidenceView::Compared { actual, expected, equal: actual == expected },
    }
}

/// The template that a templated golden file compiles to. There is none
/// where `upon` refuses the source, and none where a list index in one of its
/// paths does not fit a `usize`.
pub open spec fn golden_template(source: Seq<char>) -> Option<upon::Template<'static, 'static>> {
    if indexes_fit(source) {
        template_compiled(delimited_engine(expression_begin(), expression_end()), source)
    } else {
        None
    }
}

/// A templated golden file: what it renders to against `context` is expected
/// letter for letter.
pub open spec fn templated_evidence(
    context: upon::Value,
    actual: Seq<char>,
    stored: Option<Seq<char>>,
) -> EvidenceView {
    match stored {
        None => EvidenceView::Unreadable,
        Some(source) => match golden_template(source) {
            None => EvidenceView::TemplateCompileError,
            Some(template) => match template_rendered(template, context) {
                None => EvidenceView::TemplateRenderError,
                Some(expected) => EvidenceView::Compared {
                    actual,
                    expected,
                    equal: actual == expected,
                },
            },
        },
    }
}

/// A JSON golden file: the document it holds is expected, however it is written.
pub open spec fn structural_evidence(actual: serde_json::Value, stored: Option<Seq<char>>)
    -> EvidenceView {
    match stored {
        None => EvidenceView::Unreadable,
        Some(text) => match json_parsed(text) {
            None => EvidenceView::InvalidJson,
            Some(expected) => EvidenceView::Compared {
                actual: json_pretty(actual),
                expected: json_pretty(expected),
                equal: json_equal(actual, expected),
            },
        },
    }
}

/// `serde_json::from_str` at `serde_json::Value`. The contract claims only that
/// the outcome is a function of the text: the same text reads as the same
/// document, or fails, every time.
#[verifier::external_body]
fn parse_json(text: &str) -> (r: Result<serde_json::Value, serde_json::Error>)
    ensures
        match r {
            Ok(value) => json_parsed(text@) == Some(value),
            Err(_) => json_parsed(text@) is None,
        },
{
    serde_json::from_str::<serde_json::Value>(text)
}

/// `==` on `serde_json::Value`: the same members whatever their order, numbers
/// and strings exactly. The contract claims only that the answer is a function
/// of the two documents.
#[verifier::external_body]
fn json_same(a: &serde_json::Value, b: &serde_json::Value) -> (r: bool)
    ensures
        r == json_equal(*a, *b),
{
    a == b
}

/// `serde_json::to_string_pretty` at `serde_json::Value`. The contract claims
/// only that the text is a function of the document. Writing a document into a
/// string has no failing case in `serde_json` (keys are strings, numbers are
/// finite, the writer is memory); were there one, the text would be empty.
#[verifier::external_body]
pub(crate) fn pretty_json(value: &serde_json::Value) -> (r: String)
    ensures
        r@ == json_pretty(*value),
{
    serde_json::to_string_pretty(value).unwrap_or_default()
}

/// `upon::Engine::with_syntax` on a syntax that has expressions only, built by
/// `upon::Syntax::builder`. The builder panics on an empty delimiter, which
/// `requires` leaves out. The contract claims only that the engine is a function
/// of the two delimiters.
#[verifier::external_body]
fn expression_engine(begin: &'static str, end: &'static str) -> (engine: upon::Engine<'static>)
    requires
        begin@.len() > 0,
        end@.len() > 0,
    ensures
        engine == delimited_engine(begin@, end@),
{
    upon::Engine::with_syntax(upon::Syntax::builder().expr(begin, end).build())
}

/// `upon::Engine::compile`. The contract claims only that the outcome is a
/// function of the engine and the source: a template, or a failure.
///
/// The call panics on one kind of source, which `requires` leaves out: where a
/// path holds a list index (`a.12`), the parser reads the digits into a `usize`
/// and unwraps the result. `indexes_fit` reads the source as the lexer of an
/// engine with the delimiters `{{` and `}}` does, and holds where no run of
/// digits that the lexer takes for an index exceeds `usize::MAX`. It speaks of
/// that engine only, so `requires` asks for it.
#[verifier::external_body]
fn compile_template<'engine, 'source>(
    engine: &'engine upon::Engine<'static>,
    source: &'source str,
) -> (r: Result<upon::Template<'engine, 'source>, upon::Error>)
    requires
        *engine == delimited_engine(expression_begin(), expression_end()),
        indexes_fit(source@),
    ensures
        match r {
            Ok(template) => template_compiled(*engine, source@) == Some(template),
            Err(_) => template_compiled(*engine, source@) is None,
        },
{
    engine.compile(source)
}

/// `upon::Template::render_from`. The contract claims only that the outcome is a
/// function of the template and the context: a text, or a failure.
#[verifier::external_body]
fn render_template(template: &upon::Template<'_, '_>, context: &upon::Value) -> (r: Result<
    String,
    upon::Error,
>)
    ensures
        match r {
            Ok(text) => template_rendered(*template, *context) == Some(text@),
            Err(_) => template_rendered(*template, *context) is None,
        },
{
    template.render_from(context.clone())
}

/// The pretty form of `Debug` (`{:#?}`). Nothing is claimed of the text: it is
/// whatever the value's own `Debug` writes.
#[verifier::external_body]
pub(crate) fn debug_text<T: core::fmt::Debug>(value: &T) -> (r: String) {
    format!("{:#?}", value)
}

/// Holds `actual` against the stored text, letter for letter.
pub fn text_evidence(actual: &str, stored: Option<&str>) -> (e: Evidence)
    ensures
        e@ == raw_evidence(actual@, text_of(stored)),
{
    match stored {
        None => Evidence::Unreadable,
        Some(expected) => Evidence::Compared {
            actual: actual.to_owned(),
            expected: expected.to_owned(),
            equal: same_text(actual, expected),
        },
    }
}

/// Renders the stored template against `context` and holds `actual` against the
/// result, letter for letter.
pub fn template_evidence(context: &upon::Value, actual: &str, stored: Option<&str>) -> (e:
    Evidence)
    ensures
        e@ == templated_evidence(*context, actual@, text_of(stored)),
{
    let source = match stored {
        Some(source) => source,
        None => {
            return Evidence::Unreadable;
        },
    };
    if !check_indexes(source) {
        return Evidence::TemplateCompileError;
    }
    proof {
        reveal_strlit("{{");
        reveal_strlit("}}");
    }
    let engine = expression_engine("{{", "}}");
    let template = match compile_template(&engine, source) {
        Ok(template) => template,
        Err(_) => {
            return Evidence::TemplateCompileError;
        },
    };
    match render_template(&template, context) {
        Ok(expected) => {
            let equal = same_text(actual, expected.as_str());
            Evidence::Compared { actual: actual.to_owned(), expected, equal }
        },
        Err(_) => Evidence::TemplateRenderError,
    }
}

/// Reads the stored text as JSON and holds the document `actual` against it.
pub fn json_evidence(actual: &serde_json::Value, stored: Option<&str>) -> (e: Evidence)
    ensures
        e@ == structural_evidence(*actual, text_of(stored)),
{
    let text = match stored {
        Some(text) => text,
        None => {
            return Evidence::Unreadable;
        },
    };
    match parse_json(text) {
        Ok(expected) => Evidence::Compared {
            actual: pretty_json(actual),
            expected: pretty_json(&expected),
            equal: json_same(actual, &expected),
        },
        Err(_) => Evidence::InvalidJson,
    }
}

} // verus!
