//! The tester: one golden file, and whether to verify it or to write it anew.

use vstd::prelude::*;

use crate::error::{Failure, GoldieError};
use crate::render::{
    debug_text, json_evidence, json_pretty, pretty_json, raw_evidence, structural_evidence,
    template_evidence, templated_evidence, text_evidence, Evidence, EvidenceView,
};
use crate::resolve::{directory_of, resolve, resolved, Layout};
use crate::text::{chars_of, find_last, same_text, text_of};

verus! {

/// A golden file tester: made once for one assertion, and not changed after.
#[derive(Debug)]
pub struct Goldie {
    /// The path to the golden file.
    golden_file: String,
    /// Whether to write the golden file instead of verifying it.
    update: bool,
}

/// The model of a [`Goldie`].
pub struct GoldieView {
    pub golden_file: Seq<char>,
    pub update: bool,
}

impl View for Goldie {
    type V = GoldieView;

    closed spec fn view(&self) -> GoldieView {
        GoldieView { golden_file: self.golden_file@, update: self.update }
    }
}

/// What the caller has to do once an assertion passed.
#[derive(Debug, PartialEq, Eq)]
pub enum Outcome {
    /// The golden file holds what was expected: nothing is left to do.
    Matched,
    /// The golden file is to be written anew with `contents`, and the
    /// directories above it made where they are missing.
    Write { contents: String },
}

/// The model of an [`Outcome`].
pub enum OutcomeView {
    Matched,
    Write { contents: Seq<char> },
}

impl View for Outcome {
    type V = OutcomeView;

    open spec fn view(&self) -> OutcomeView {
        match self {
            Outcome::Matched => OutcomeView::Matched,
            Outcome::Write { contents } => OutcomeView::Write { contents: contents@ },
        }
    }
}

/// The model of what an assertion returns.
pub open spec fn verdict(r: Result<Outcome, GoldieError>) -> Result<OutcomeView, Failure> {
    match r {
        Ok(outcome) => Ok(outcome@),
        Err(e) => Err(e@),
    }
}

/// The model of what a constructor returns.
pub open spec fn built(r: Result<Goldie, GoldieError>) -> Result<GoldieView, Failure> {
    match r {
        Ok(goldie) => Ok(goldie@),
        Err(e) => Err(e@),
    }
}

/// The values of the update toggle that ask for an update: `1` and `true`.
pub open spec fn selects_update(toggle: Option<Seq<char>>) -> bool {
    toggle == Some("1"@) || toggle == Some("true"@)
}

/// The tester of the test `function_path` in `source_path`.
pub open spec fn tester(
    source_path: Seq<char>,
    function_path: Seq<char>,
    toggle: Option<Seq<char>>,
    layout: Layout,
) -> Result<GoldieView, Failure> {
    match resolved(source_path, function_path, layout) {
        Ok(golden_file) => Ok(GoldieView { golden_file, update: selects_update(toggle) }),
        Err(failure) => Err(failure),
    }
}

/// Verifying: what the evidence comes to for the golden file at `golden_file`.
pub open spec fn judged(golden_file: Seq<char>, evidence: EvidenceView) -> Result<
    OutcomeView,
    Failure,
> {
    match evidence {
        EvidenceView::Unreadable => Err(Failure::GoldenFileUnreadable { golden_file }),
        EvidenceView::TemplateCompileError => Err(Failure::TemplateCompileError { golden_file }),
        EvidenceView::TemplateRenderError => Err(Failure::TemplateRenderError { golden_file }),
        EvidenceView::InvalidJson => Err(Failure::GoldenFileInvalidJson { golden_file }),
        EvidenceView::Compared { actual, expected, equal } => if equal {
            Ok(OutcomeView::Matched)
        } else {
            Err(Failure::Mismatch { golden_file, actual, expected })
        },
    }
}

/// The assertion on plain text.
pub open spec fn compared_text(goldie: GoldieView, actual: Seq<char>, stored: Option<Seq<char>>)
    -> Result<OutcomeView, Failure> {
    if goldie.update {
        Ok(OutcomeView::Write { contents: actual })
    } else {
        judged(goldie.golden_file, raw_evidence(actual, stored))
    }
}

/// The assertion on a templated golden file. A template cannot be written anew
/// from the text it renders to, so an update is refused.
pub open spec fn compared_template(
    goldie: GoldieView,
    context: upon::Value,
    actual: Seq<char>,
    stored: Option<Seq<char>>,
) -> Result<OutcomeView, Failure> {
    if goldie.update {
        Err(Failure::UnsupportedOperation { golden_file: goldie.golden_file })
    } else {
        judged(goldie.golden_file, templated_evidence(context, actual, stored))
    }
}

/// The assertion on a JSON document.
pub open spec fn compared_json(
    goldie: GoldieView,
    actual: serde_json::Value,
    stored: Option<Seq<char>>,
) -> Result<OutcomeView, Failure> {
    if goldie.update {
        Ok(OutcomeView::Write { contents: json_pretty(actual) })
    } else {
        judged(goldie.golden_file, structural_evidence(actual, stored))
    }
}

/// Whether the update toggle, as read from the environment, asks for an update.
pub fn update_requested(toggle: Option<&str>) -> (r: bool)
    ensures
        r == selects_update(text_of(toggle)),
{
    match toggle {
        Some(value) => same_text(value, "1") || same_text(value, "true"),
        None => false,
    }
}

/// Verifying: turns the evidence into the assertion's result.
pub fn judge(golden_file: &str, evidence: Evidence) -> (r: Result<Outcome, GoldieError>)
    ensures
        verdict(r) == judged(golden_file@, evidence@),
{
    match evidence {
        Evidence::Unreadable => Err(
            GoldieError::GoldenFileUnreadable { golden_file: golden_file.to_owned() },
        ),
        Evidence::TemplateCompileError => Err(
            GoldieError::TemplateCompileError { golden_file: golden_file.to_owned() },
        ),
        Evidence::TemplateRenderError => Err(
            GoldieError::TemplateRenderError { golden_file: golden_file.to_owned() },
        ),
        Evidence::InvalidJson => Err(
            GoldieError::GoldenFileInvalidJson { golden_file: golden_file.to_owned() },
        ),
        Evidence::Compared { actual, expected, equal } => if equal {
            Ok(Outcome::Matched)
        } else {
            Err(GoldieError::Mismatch { golden_file: golden_file.to_owned(), actual, expected })
        },
    }
}

impl Goldie {
    /// Construct a new golden file tester, with every golden file directly in
    /// `testdata`.
    ///
    /// Where
    /// - `source_file` is path to the source file that the test resides in.
    /// - `function_path` is the full path to the function. e.g.
    ///   `crate::module::tests::function_name`.
    /// - `toggle` is the value of the update toggle, where it is set.
    pub fn new(source_file: &str, function_path: &str, toggle: Option<&str>) -> (r: Result<
        Goldie,
        GoldieError,
    >)
        ensures
            built(r) == tester(source_file@, function_path@, text_of(toggle), Layout::Flat),
    {
        Goldie::with_layout(source_file, function_path, toggle, Layout::Flat)
    }

    /// Construct a new golden file tester whose golden file lies where `layout` says.
    pub fn with_layout(
        source_file: &str,
        function_path: &str,
        toggle: Option<&str>,
        layout: Layout,
    ) -> (r: Result<Goldie, GoldieError>)
        ensures
            built(r) == tester(source_file@, function_path@, text_of(toggle), layout),
    {
        match resolve(source_file, function_path, layout) {
            Ok(golden_file) => Ok(Goldie { golden_file, update: update_requested(toggle) }),
            Err(e) => Err(e),
        }
    }

    /// The path to the golden file.
    pub fn golden_file(&self) -> (path: &str)
        ensures
            path@ == self@.golden_file,
    {
        self.golden_file.as_str()
    }

    /// The directory that holds the golden file, to be made before the file is
    /// written.
    pub fn golden_dir(&self) -> (dir: &str)
        ensures
            dir@ == directory_of(self@.golden_file),
    {
        let path = self.golden_file.as_str();
        let chars = chars_of(path);
        match find_last(&chars, '/', chars.len()) {
            Some(slash) => if slash == 0 {
                path.substring_char(0, 1)
            } else {
                path.substring_char(0, slash)
            },
            None => path.substring_char(0, 0),
        }
    }

    /// Whether this tester writes the golden file instead of verifying it.
    pub fn is_update(&self) -> (update: bool)
        ensures
            update == self@.update,
    {
        self.update
    }

    /// Assert the golden file matches.
    ///
    /// `stored` is the text of the golden file, or `None` where it could not be
    /// read. A tester that updates does not look at it.
    pub fn assert_text(&self, actual: &str, stored: Option<&str>) -> (r: Result<
        Outcome,
        GoldieError,
    >)
        ensures
            verdict(r) == compared_text(self@, actual@, text_of(stored)),
    {
        if self.update {
            Ok(Outcome::Write { contents: actual.to_owned() })
        } else {
            judge(self.golden_file.as_str(), text_evidence(actual, stored))
        }
    }

    /// Assert the golden file matches the debug output.
    ///
    /// What `actual` renders to is its own `Debug`'s to say; the result is that
    /// of [`Goldie::assert_text`] on that text.
    pub fn assert_debug<T: core::fmt::Debug>(&self, actual: &T, stored: Option<&str>) -> (r: Result<
        Outcome,
        GoldieError,
    >)
        ensures
            exists|rendered: Seq<char>|
                verdict(r) == #[trigger] compared_text(self@, rendered, text_of(stored)),
    {
        let rendered = debug_text(actual);
        self.assert_text(rendered.as_str(), stored)
    }

    /// Assert the templated golden file matches.
    pub fn assert_template(&self, context: &upon::Value, actual: &str, stored: Option<&str>) -> (r:
        Result<Outcome, GoldieError>)
        ensures
            verdict(r) == compared_template(self@, *context, actual@, text_of(stored)),
    {
        if self.update {
            Err(GoldieError::UnsupportedOperation { golden_file: self.golden_file.clone() })
        } else {
            judge(self.golden_file.as_str(), template_evidence(context, actual, stored))
        }
    }

    /// Assert the JSON golden file matches.
    pub fn assert_json(&self, actual: &serde_json::Value, stored: Option<&str>) -> (r: Result<
        Outcome,
        GoldieError,
    >)
        ensures
            verdict(r) == compared_json(self@, *actual, text_of(stored)),
    {
        if self.update {
            Ok(Outcome::Write { contents: pretty_json(actual) })
        } else {
            judge(self.golden_file.as_str(), json_evidence(actual, stored))
        }
    }
}

/// The tester of the golden file at `golden_file` that verifies.
pub open spec fn verifying(golden_file: Seq<char>) -> GoldieView {
    GoldieView { golden_file, update: false }
}

/// The tester of the golden file at `golden_file` that updates.
pub open spec fn updating(golden_file: Seq<char>) -> GoldieView {
    GoldieView { golden_file, update: true }
}

/// Round trip: an update of plain text never fails, whatever the golden file
/// held, and verifying the same text against what the update wrote passes.
pub proof fn law_update_then_verify_passes(
    golden_file: Seq<char>,
    actual: Seq<char>,
    stored: Option<Seq<char>>,
)
    ensures
        compared_text(updating(golden_file), actual, stored) matches Ok(
            OutcomeView::Write { contents },
        ) && contents == actual && compared_text(verifying(golden_file), actual, Some(contents))
            == Ok::<OutcomeView, Failure>(OutcomeView::Matched),
{
}

/// A templated golden file is never updated: whatever the context, the text and
/// the golden file, an update ends in `UnsupportedOperation`.
pub proof fn law_template_refuses_update(
    golden_file: Seq<char>,
    context: upon::Value,
    actual: Seq<char>,
    stored: Option<Seq<char>>,
)
    ensures
        compared_template(updating(golden_file), context, actual, stored) == Err::<
            OutcomeView,
            Failure,
        >((Failure::UnsupportedOperation { golden_file })),
{
}

/// Verifying never asks for the golden file to be written, and each of its
/// failures is about the tester's own golden file.
pub proof fn law_verifying_writes_nothing(golden_file: Seq<char>, evidence: EvidenceView)
    ensures
        match judged(golden_file, evidence) {
            Ok(outcome) => outcome is Matched,
            Err(failure) => crate::error::arises_in_verify_mode(failure)
                && crate::error::golden_file_of(failure) == Some(golden_file),
        },
{
}

/// Plain text passes exactly where the golden file holds it letter for letter;
/// where it holds something else, the mismatch carries both texts.
pub proof fn law_text_passes_only_on_equal(
    golden_file: Seq<char>,
    actual: Seq<char>,
    expected: Seq<char>,
)
    ensures
        compared_text(verifying(golden_file), actual, Some(expected)) is Ok <==> actual
            == expected,
        actual != expected ==> compared_text(verifying(golden_file), actual, Some(expected))
            == Err::<OutcomeView, Failure>(
            (Failure::Mismatch { golden_file, actual, expected }),
        ),
{
}

} // verus!
