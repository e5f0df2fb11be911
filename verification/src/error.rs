//! The failures a golden file assertion can end in.

use vstd::prelude::*;
use vstd::string::StringExecFns;

use crate::text::{begins_with, chars_of, lemma_occurs_between, occurs_in, starts_with, text_of};

verus! {

/// A failure, over character sequences: the model of [`GoldieError`].
pub enum Failure {
    MalformedIdentifier { function_path: Seq<char> },
    GoldenFileUnreadable { golden_file: Seq<char> },
    Mismatch { golden_file: Seq<char>, actual: Seq<char>, expected: Seq<char> },
    TemplateCompileError { golden_file: Seq<char> },
    TemplateRenderError { golden_file: Seq<char> },
    GoldenFileInvalidJson { golden_file: Seq<char> },
    UnsupportedOperation { golden_file: Seq<char> },
}

/// Why an assertion did not pass.
#[derive(Debug, PartialEq, Eq)]
pub enum GoldieError {
    /// The function path holds no `::`, so it names no function inside a module.
    MalformedIdentifier { function_path: String },
    /// No golden file could be read while verifying.
    GoldenFileUnreadable { golden_file: String },
    /// The golden file holds something else than the test produced.
    Mismatch { golden_file: String, actual: String, expected: String },
    /// The golden file is no well formed template.
    TemplateCompileError { golden_file: String },
    /// The template asks for what the context does not hold.
    TemplateRenderError { golden_file: String },
    /// The golden file is no JSON document.
    GoldenFileInvalidJson { golden_file: String },
    /// An update was asked of an assertion that cannot regenerate its golden file.
    UnsupportedOperation { golden_file: String },
}

impl View for GoldieError {
    type V = Failure;

    open spec fn view(&self) -> Failure {
        match self {
            GoldieError::MalformedIdentifier { function_path } => Failure::MalformedIdentifier {
                function_path: function_path@,
            },
            GoldieError::GoldenFileUnreadable { golden_file } => Failure::GoldenFileUnreadable {
                golden_file: golden_file@,
            },
            GoldieError::Mismatch { golden_file, actual, expected } => Failure::Mismatch {
                golden_file: golden_file@,
                actual: actual@,
                expected: expected@,
            },
            GoldieError::TemplateCompileError { golden_file } => Failure::TemplateCompileError {
                golden_file: golden_file@,
            },
            GoldieError::TemplateRenderError { golden_file } => Failure::TemplateRenderError {
                golden_file: golden_file@,
            },
            GoldieError::GoldenFileInvalidJson { golden_file } => Failure::GoldenFileInvalidJson {
                golden_file: golden_file@,
            },
            GoldieError::UnsupportedOperation { golden_file } => Failure::UnsupportedOperation {
                golden_file: golden_file@,
            },
        }
    }
}

/// How to have a golden file written anew: the toggle's name and a value that sets it.
pub open spec fn update_hint() -> Seq<char> {
    "run with GOLDIE_UPDATE=1 to regenerate the golden file"@
}

/// `path` as seen from the directory `base`: what follows `base` and the `/`
/// after it, where `path` lies below `base`; `path` itself where it does not.
pub open spec fn relative(path: Seq<char>, base: Seq<char>) -> Seq<char> {
    if base.len() == 0 || !starts_with(path, base) {
        path
    } else if base.last() == '/' {
        path.subrange(base.len() as int, path.len() as int)
    } else if base.len() < path.len() && path[base.len() as int] == '/' {
        path.subrange(base.len() as int + 1, path.len() as int)
    } else {
        path
    }
}

/// The path that a message shows: relative to the working directory where that
/// is known and holds the file.
pub open spec fn shown_path(golden_file: Seq<char>, working_dir: Option<Seq<char>>) -> Seq<char> {
    match working_dir {
        Some(base) => relative(golden_file, base),
        None => golden_file,
    }
}

/// The message on a golden file that could not be used while verifying.
pub open spec fn description(what: Seq<char>, golden_file: Seq<char>) -> Seq<char> {
    "\n\n"@ + what + ": "@ + golden_file + "\n"@ + update_hint() + "\n\n"@
}

/// The message on a golden file that holds something else than was produced.
pub open spec fn mismatch_report(shown: Seq<char>, actual: Seq<char>, expected: Seq<char>) -> Seq<
    char,
> {
    "\n\ngolden file `"@ + shown + "` does not match\n\nactual:\n"@ + actual + "\n\nexpected:\n"@
        + expected + "\n\n"@ + update_hint() + "\n\n"@
}

/// The message of a failure, as shown to whoever runs the test.
pub open spec fn failure_message(failure: Failure, working_dir: Option<Seq<char>>) -> Seq<char> {
    match failure {
        Failure::MalformedIdentifier { function_path } => "\n\nfunction path `"@ + function_path
            + "` names no function inside a module\n\n"@,
        Failure::GoldenFileUnreadable { golden_file } => description(
            "failed to read golden file"@,
            golden_file,
        ),
        Failure::Mismatch { golden_file, actual, expected } => mismatch_report(
            shown_path(golden_file, working_dir),
            actual,
            expected,
        ),
        Failure::TemplateCompileError { golden_file } => description(
            "failed to compile golden file template"@,
            golden_file,
        ),
        Failure::TemplateRenderError { golden_file } => description(
            "failed to render golden file template"@,
            golden_file,
        ),
        Failure::GoldenFileInvalidJson { golden_file } => description("bad JSON"@, golden_file),
        Failure::UnsupportedOperation { golden_file } =>
            "\n\ntemplated golden file cannot be updated: "@ + golden_file + "\n\n"@,
    }
}

/// The mismatch of `actual` with what the golden file at `golden_file` holds.
pub open spec fn mismatch(golden_file: Seq<char>, actual: Seq<char>, expected: Seq<char>)
    -> Failure {
    Failure::Mismatch { golden_file, actual, expected }
}

/// The failures that verifying a golden file can end in.
pub open spec fn arises_in_verify_mode(failure: Failure) -> bool {
    !(failure is MalformedIdentifier) && !(failure is UnsupportedOperation)
}

/// The golden file that a failure is about.
pub open spec fn golden_file_of(failure: Failure) -> Option<Seq<char>> {
    match failure {
        Failure::MalformedIdentifier { .. } => None,
        Failure::GoldenFileUnreadable { golden_file } => Some(golden_file),
        Failure::Mismatch { golden_file, .. } => Some(golden_file),
        Failure::TemplateCompileError { golden_file } => Some(golden_file),
        Failure::TemplateRenderError { golden_file } => Some(golden_file),
        Failure::GoldenFileInvalidJson { golden_file } => Some(golden_file),
        Failure::UnsupportedOperation { golden_file } => Some(golden_file),
    }
}

/// `path` as seen from the directory `base`.
pub fn relative_to<'a>(path: &'a str, base: &str) -> (r: &'a str)
    ensures
        r@ == relative(path@, base@),
{
    let path_chars = chars_of(path);
    let base_chars = chars_of(base);
    let n: usize = base_chars.len();
    if n == 0 || !begins_with(&path_chars, &base_chars) {
        return path;
    }
    if base_chars[n - 1] == '/' {
        return path.substring_char(n, path_chars.len());
    }
    if n < path_chars.len() && path_chars[n] == '/' {
        return path.substring_char(n + 1, path_chars.len());
    }
    path
}

/// The message on a golden file that could not be used while verifying.
fn describe(what: &str, golden_file: &str) -> (text: String)
    ensures
        text@ == description(what@, golden_file@),
{
    let mut text = String::from_str("\n\n");
    text.append(what);
    text.append(": ");
    text.append(golden_file);
    text.append("\n");
    text.append("run with GOLDIE_UPDATE=1 to regenerate the golden file");
    text.append("\n\n");
    text
}

impl GoldieError {
    /// The message of this failure. A mismatch names its golden file as seen
    /// from `working_dir`, where that is given and holds the file.
    pub fn message(&self, working_dir: Option<&str>) -> (text: String)
        ensures
            text@ == failure_message(self@, text_of(working_dir)),
    {
        match self {
            GoldieError::MalformedIdentifier { function_path } => {
                let mut text = String::from_str("\n\nfunction path `");
                text.append(function_path.as_str());
                text.append("` names no function inside a module\n\n");
                text
            },
            GoldieError::GoldenFileUnreadable { golden_file } => describe(
                "failed to read golden file",
                golden_file.as_str(),
            ),
            GoldieError::Mismatch { golden_file, actual, expected } => {
                let shown = match working_dir {
                    Some(base) => relative_to(golden_file.as_str(), base),
                    None => golden_file.as_str(),
                };
                let mut text = String::from_str("\n\ngolden file `");
                text.append(shown);
                text.append("` does not match\n\nactual:\n");
                text.append(actual.as_str());
                text.append("\n\nexpected:\n");
                text.append(expected.as_str());
                text.append("\n\n");
                text.append("run with GOLDIE_UPDATE=1 to regenerate the golden file");
                text.append("\n\n");
                text
            },
            GoldieError::TemplateCompileError { golden_file } => describe(
                "failed to compile golden file template",
                golden_file.as_str(),
            ),
            GoldieError::TemplateRenderError { golden_file } => describe(
                "failed to render golden file template",
                golden_file.as_str(),
            ),
            GoldieError::GoldenFileInvalidJson { golden_file } => describe(
                "bad JSON",
                golden_file.as_str(),
            ),
            GoldieError::UnsupportedOperation { golden_file } => {
                let mut text = String::from_str("\n\ntemplated golden file cannot be updated: ");
                text.append(golden_file.as_str());
                text.append("\n\n");
                text
            },
        }
    }
}

/// A path that was made relative is the rest of the path below its base: the
/// base, a `/` where the base ends in none, and the relative path give it back.
pub proof fn law_relative_path_lies_below_base(path: Seq<char>, base: Seq<char>)
    ensures
        relative(path, base) == path || base + relative(path, base) == path || base + seq!['/']
            + relative(path, base) == path,
{
    let rest = relative(path, base);
    if rest != path {
        assert(path.subrange(0, base.len() as int) =~= base);
        if base.last() == '/' {
            assert(base + rest =~= path);
        } else {
            assert(base + seq!['/'] + rest =~= path);
        }
    }
}

/// Mismatch diagnostic: the message of a mismatch holds what the test produced,
/// what the golden file holds, the golden file's path as shown, and how to
/// have the file written anew.
pub proof fn law_mismatch_message_names_both_sides(
    golden_file: Seq<char>,
    actual: Seq<char>,
    expected: Seq<char>,
    working_dir: Option<Seq<char>>,
)
    ensures
        occurs_in(actual, failure_message(mismatch(golden_file, actual, expected), working_dir)),
        occurs_in(expected, failure_message(mismatch(golden_file, actual, expected), working_dir)),
        occurs_in(
            shown_path(golden_file, working_dir),
            failure_message(mismatch(golden_file, actual, expected), working_dir),
        ),
        occurs_in(
            update_hint(),
            failure_message(mismatch(golden_file, actual, expected), working_dir),
        ),
{
    let shown = shown_path(golden_file, working_dir);
    let message = mismatch_report(shown, actual, expected);
    let a = "\n\ngolden file `"@;
    let b = "` does not match\n\nactual:\n"@;
    let c = "\n\nexpected:\n"@;
    let d = "\n\n"@;
    lemma_occurs_between(a, shown, b + actual + c + expected + d + update_hint() + d);
    assert(a + shown + (b + actual + c + expected + d + update_hint() + d) =~= message);
    lemma_occurs_between(a + shown + b, actual, c + expected + d + update_hint() + d);
    assert(a + shown + b + actual + (c + expected + d + update_hint() + d) =~= message);
    lemma_occurs_between(a + shown + b + actual + c, expected, d + update_hint() + d);
    assert(a + shown + b + actual + c + expected + (d + update_hint() + d) =~= message);
    lemma_occurs_between(a + shown + b + actual + c + expected + d, update_hint(), d);
}

/// Every failure of verifying names the golden file by its full path, or, for a
/// mismatch, as shown, and says how to have the file written anew.
pub proof fn law_verify_failures_name_file_and_remedy(
    failure: Failure,
    working_dir: Option<Seq<char>>,
)
    requires
        arises_in_verify_mode(failure),
    ensures
        occurs_in(update_hint(), failure_message(failure, working_dir)),
        failure is Mismatch ==> occurs_in(
            shown_path(golden_file_of(failure)->0, working_dir),
            failure_message(failure, working_dir),
        ),
        !(failure is Mismatch) ==> occurs_in(
            golden_file_of(failure)->0,
            failure_message(failure, working_dir),
        ),
{
    match failure {
        Failure::Mismatch { golden_file, actual, expected } => {
            law_mismatch_message_names_both_sides(golden_file, actual, expected, working_dir);
        },
        Failure::GoldenFileUnreadable { golden_file } => {
            lemma_description_names_file_and_remedy("failed to read golden file"@, golden_file);
        },
        Failure::TemplateCompileError { golden_file } => {
            lemma_description_names_file_and_remedy(
                "failed to compile golden file template"@,
                golden_file,
            );
        },
        Failure::TemplateRenderError { golden_file } => {
            lemma_description_names_file_and_remedy(
                "failed to render golden file template"@,
                golden_file,
            );
        },
        Failure::GoldenFileInvalidJson { golden_file } => {
            lemma_description_names_file_and_remedy("bad JSON"@, golden_file);
        },
        _ => {},
    }
}

proof fn lemma_description_names_file_and_remedy(what: Seq<char>, golden_file: Seq<char>)
    ensures
        occurs_in(golden_file, description(what, golden_file)),
        occurs_in(update_hint(), description(what, golden_file)),
{
    let a = "\n\n"@;
    let b = ": "@;
    let c = "\n"@;
    let message = description(what, golden_file);
    lemma_occurs_between(a + what + b, golden_file, c + update_hint() + a);
    assert(a + what + b + golden_file + (c + update_hint() + a) =~= message);
    lemma_occurs_between(a + what + b + golden_file + c, update_hint(), a);
}

} // verus!
