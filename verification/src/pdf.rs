//! Turning an invoice into a PDF document: the order of the steps, the
//! context of their failures, and the address under which the browser is
//! shown the rendered page.
//!
//! The steps themselves (a session with the browser driver, the template
//! engine, the print job) belong to the caller. It performs one
//! [`PdfStage`] at a time and tells [`PdfStage::advance`] how it went.

use base64::engine::general_purpose::STANDARD;
use base64::Engine;
use crate::error::{Error, ErrorKind, ErrorKindView, ErrorView};
use vstd::prelude::*;
use vstd::string::StringExecFns;

verus! {

/// The character that stands for the six-bit value `v` in base64.
pub open spec fn base64_char(v: int) -> char
    recommends
        0 <= v < 64,
{
    "ABCDEFGHIJKLMNOPQRSTUVWXYZabcdefghijklmnopqrstuvwxyz0123456789+/"@[v]
}

/// The standard base64 encoding of `bytes`, with padding: every three bytes
/// give four characters, and a last group of one or two bytes is filled up
/// with `=`.
pub open spec fn base64_text(bytes: Seq<u8>) -> Seq<char>
    decreases bytes.len(),
{
    if bytes.len() == 0 {
        Seq::empty()
    } else if bytes.len() == 1 {
        let a = bytes[0] as int;
        seq![base64_char(a / 4), base64_char((a % 4) * 16), '=', '=']
    } else if bytes.len() == 2 {
        let a = bytes[0] as int;
        let b = bytes[1] as int;
        seq![
            base64_char(a / 4),
            base64_char((a % 4) * 16 + b / 16),
            base64_char((b % 16) * 4),
            '=',
        ]
    } else {
        let a = bytes[0] as int;
        let b = bytes[1] as int;
        let c = bytes[2] as int;
        seq![
            base64_char(a / 4),
            base64_char((a % 4) * 16 + b / 16),
            base64_char((b % 16) * 4 + c / 64),
            base64_char(c % 64),
        ] + base64_text(bytes.skip(3))
    }
}

/// The number of characters in the base64 encoding of `n` bytes.
pub open spec fn base64_len(n: int) -> int {
    4 * ((n + 2) / 3)
}

/// What precedes the encoded page in its address.
pub open spec fn data_url_prefix() -> Seq<char> {
    "data:text/html;base64,"@
}

/// Calls `base64`'s `STANDARD.encode`: the standard alphabet, with padding.
/// The crate panics where the length of the encoding does not fit in
/// `usize`.
#[verifier::external_body]
fn base64_of(bytes: &[u8]) -> (r: String)
    requires
        base64_len(bytes@.len() as int) <= usize::MAX,
    ensures
        r@ == base64_text(bytes@),
{
    STANDARD.encode(bytes)
}

/// Whether a page of `len` bytes has an encoding whose length fits in
/// `usize`.
pub fn can_encode(len: usize) -> (r: bool)
    ensures
        r == (base64_len(len as int) <= usize::MAX),
{
    let groups: usize = if len % 3 == 0 {
        len / 3
    } else {
        len / 3 + 1
    };
    groups <= usize::MAX / 4
}

/// The address under which the browser is shown a page, given the bytes of
/// its HTML: a `data:` URL that carries the page itself, base64-encoded.
pub fn data_url(html: &[u8]) -> (r: String)
    requires
        base64_len(html@.len() as int) <= usize::MAX,
    ensures
        r@ == data_url_prefix() + base64_text(html@),
{
    let encoded = base64_of(html);
    String::from_str("data:text/html;base64,").concat(encoded.as_str())
}

/// One step on the way from an invoice to its PDF.
#[derive(Debug, Clone, Copy, PartialEq, Eq, Structural)]
pub enum PdfStage {
    /// Open a session with the browser driver.
    Connect,
    /// Set up the template engine.
    SetupTemplates,
    /// Render the invoice to HTML.
    Render,
    /// Point the browser at the rendered page.
    Navigate,
    /// Build the print configuration.
    ConfigurePrinter,
    /// Print the page to PDF.
    Print,
}

/// How a job goes on after a step.
#[derive(Debug)]
pub enum PdfProgress {
    /// The step succeeded; this one is next.
    Next(PdfStage),
    /// The last step succeeded; the document is there.
    Finished,
    /// The step failed; the job ends with this failure.
    Abort(Error),
}

/// The mathematical value of a [`PdfProgress`].
pub enum PdfProgressView {
    Next(PdfStage),
    Finished,
    Abort(ErrorView),
}

impl View for PdfProgress {
    type V = PdfProgressView;

    open spec fn view(&self) -> PdfProgressView {
        match self {
            PdfProgress::Next(stage) => PdfProgressView::Next(*stage),
            PdfProgress::Finished => PdfProgressView::Finished,
            PdfProgress::Abort(error) => PdfProgressView::Abort(error@),
        }
    }
}

/// The view of the outcome of a step.
pub open spec fn outcome_view(outcome: Result<(), ErrorKind>) -> Result<(), ErrorKindView> {
    match outcome {
        Ok(_) => Ok(()),
        Err(cause) => Err(cause@),
    }
}

impl PdfStage {
    /// The step with which every job begins.
    pub fn first() -> (r: PdfStage)
        ensures
            r == PdfStage::Connect,
    {
        PdfStage::Connect
    }

    /// The step that follows this one, if any.
    pub open spec fn following(self) -> Option<PdfStage> {
        match self {
            PdfStage::Connect => Some(PdfStage::SetupTemplates),
            PdfStage::SetupTemplates => Some(PdfStage::Render),
            PdfStage::Render => Some(PdfStage::Navigate),
            PdfStage::Navigate => Some(PdfStage::ConfigurePrinter),
            PdfStage::ConfigurePrinter => Some(PdfStage::Print),
            PdfStage::Print => None,
        }
    }

    /// The number of steps from this one to the end, itself included.
    pub open spec fn remaining(self) -> nat {
        match self {
            PdfStage::Connect => 6,
            PdfStage::SetupTemplates => 5,
            PdfStage::Render => 4,
            PdfStage::Navigate => 3,
            PdfStage::ConfigurePrinter => 2,
            PdfStage::Print => 1,
        }
    }

    /// What a failure of this step is: the cause, then what the step was
    /// doing, then the phase of the job to which it belongs.
    pub open spec fn failure(self, cause: ErrorKindView) -> ErrorView {
        let error = ErrorView::caused_by(cause);
        match self {
            PdfStage::Connect => error.with("connecting to client"@).with("generating pdf"@),
            PdfStage::SetupTemplates => error.with("setting up templating environment"@).with(
                "generating pdf"@,
            ),
            PdfStage::Render => error.with("rendering html template"@).with("generating pdf"@),
            PdfStage::Navigate => error.with("navigating to address"@).with("printing pdf"@),
            PdfStage::ConfigurePrinter => error.with("configuring printer"@).with(
                "printing pdf"@,
            ),
            PdfStage::Print => error.with("printing pdf"@),
        }
    }

    /// How the job goes on after this step with the given outcome.
    pub open spec fn after(self, outcome: Result<(), ErrorKindView>) -> PdfProgressView {
        match outcome {
            Ok(_) => match self.following() {
                Some(next) => PdfProgressView::Next(next),
                None => PdfProgressView::Finished,
            },
            Err(cause) => PdfProgressView::Abort(self.failure(cause)),
        }
    }

    /// The failure of this step from `cause`, with its lines of context.
    pub fn fail(self, cause: ErrorKind) -> (r: Error)
        ensures
            r@ == self.failure(cause@),
    {
        let error = Error::new(cause);
        match self {
            PdfStage::Connect => error.add_context("connecting to client").add_context(
                "generating pdf",
            ),
            PdfStage::SetupTemplates => error.add_context(
                "setting up templating environment",
            ).add_context("generating pdf"),
            PdfStage::Render => error.add_context("rendering html template").add_context(
                "generating pdf",
            ),
            PdfStage::Navigate => error.add_context("navigating to address").add_context(
                "printing pdf",
            ),
            PdfStage::ConfigurePrinter => error.add_context("configuring printer").add_context(
                "printing pdf",
            ),
            PdfStage::Print => error.add_context("printing pdf"),
        }
    }

    /// Decides how the job goes on after this step. A success leads to the
    /// next step, or ends the job after the last one. A failure ends the job
    /// at once: nothing is retried.
    pub fn advance(self, outcome: Result<(), ErrorKind>) -> (r: PdfProgress)
        ensures
            r@ == self.after(outcome_view(outcome)),
            r matches PdfProgress::Next(next) ==> next.remaining() < self.remaining(),
    {
        match outcome {
            Ok(_) => match self {
                PdfStage::Connect => PdfProgress::Next(PdfStage::SetupTemplates),
                PdfStage::SetupTemplates => PdfProgress::Next(PdfStage::Render),
                PdfStage::Render => PdfProgress::Next(PdfStage::Navigate),
                PdfStage::Navigate => PdfProgress::Next(PdfStage::ConfigurePrinter),
                PdfStage::ConfigurePrinter => PdfProgress::Next(PdfStage::Print),
                PdfStage::Print => PdfProgress::Finished,
            },
            Err(cause) => PdfProgress::Abort(self.fail(cause)),
        }
    }
}

/// The encoding of `n` bytes has `4 * ceil(n / 3)` characters: the length
/// that must fit in `usize` for a page to be encoded.
pub proof fn law_base64_length(bytes: Seq<u8>)
    ensures
        base64_text(bytes).len() == base64_len(bytes.len() as int),
    decreases bytes.len(),
{
    if bytes.len() >= 3 {
        law_base64_length(bytes.skip(3));
    }
}

/// The failure of a step keeps its cause as the innermost line and adds a
/// line for the step and a line for its phase; printing, which is a phase of
/// its own, adds one line.
pub proof fn law_failure_message(stage: PdfStage, cause: ErrorKindView)
    ensures
        stage.failure(cause).context[0] == cause.cause(),
        stage.failure(cause).kind == cause,
        stage.failure(cause).context.len() == if stage == PdfStage::Print {
            2nat
        } else {
            3nat
        },
{
}

} // verus!
