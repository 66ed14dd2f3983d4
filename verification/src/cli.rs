//! The command line's choices: where the invoices are read from, where each
//! document goes, and what a failure says about the step that met it.
//!
//! Reading, writing and rendering are the caller's. Delivering one document
//! is a dialogue like the driver's startup: the caller performs one
//! [`DeliveryAction`] at a time and reports the outcome as a
//! [`DeliveryEvent`].

use crate::error::{Error, ErrorKind, ErrorKindView, ErrorView};
use crate::party::opt_text;
use vstd::prelude::*;
use vstd::string::StringExecFns;

verus! {

/// The options of the command line.
#[derive(Debug)]
pub struct Cli {
    /// Path of the file with the invoice data; standard input where absent.
    pub data: Option<String>,
    /// Directory in which the documents are saved; standard output where
    /// absent.
    pub out: Option<String>,
}

/// Where the invoice data is read from.
#[derive(Debug)]
pub enum InvoiceSource {
    /// The file at this path.
    File(String),
    /// Standard input, up to its end.
    Stdin,
}

/// The name of the file that holds the document of the invoice `id`.
pub open spec fn pdf_name(id: Seq<char>) -> Seq<char> {
    id + ".pdf"@
}

/// The line of context for a failure to read the invoice data.
pub open spec fn read_context(data: Option<Seq<char>>) -> Seq<char> {
    match data {
        Some(path) => "reading invoice data from file '"@ + path + "'"@,
        None => "reading invoice data from stdin"@,
    }
}

/// The notice for a document that could not be written to its file.
pub open spec fn write_notice(id: Seq<char>, path: Seq<char>) -> Seq<char> {
    "Failed to write invoice '"@ + id + "' to '"@ + path + "'"@
}

/// The name of the file that holds the document of the invoice `id`: the
/// identifier followed by `.pdf`.
pub fn pdf_file_name(id: &str) -> (r: String)
    ensures
        r@ == pdf_name(id@),
{
    String::from_str(id).concat(".pdf")
}

/// The failure of reading the invoice data as structured text: the cause is
/// the parser's message.
pub fn parse_failure(cause: &str) -> (r: Error)
    ensures
        r@ == ErrorView::other(cause@).with("parsing invoice JSON"@),
{
    Error::other(cause).add_context("parsing invoice JSON")
}

/// The failure of killing the driver's process.
pub fn kill_failure(cause: ErrorKind) -> (r: Error)
    ensures
        r@ == ErrorView::caused_by(cause@).with("killing chromedriver process from cli"@),
{
    Error::new(cause).add_context("killing chromedriver process from cli")
}

impl Cli {
    /// Where the invoice data is read from: the file that was named, or
    /// standard input.
    pub fn source(&self) -> (r: InvoiceSource)
        ensures
            match r {
                InvoiceSource::File(path) => self.data is Some && path@ == self.data->Some_0@,
                InvoiceSource::Stdin => self.data is None,
            },
    {
        match &self.data {
            Some(path) => InvoiceSource::File(path.clone()),
            None => InvoiceSource::Stdin,
        }
    }

    /// The failure of reading the invoice data: the cause, and a line that
    /// names the source.
    pub fn read_failure(&self, cause: ErrorKind) -> (r: Error)
        ensures
            r@ == ErrorView::caused_by(cause@).with(read_context(opt_text(self.data))),
    {
        match &self.data {
            Some(path) => {
                let line = String::from_str("reading invoice data from file '").concat(
                    path.as_str(),
                ).concat("'");
                Error::new(cause).add_context(line.as_str())
            },
            None => Error::new(cause).add_context("reading invoice data from stdin"),
        }
    }
}

/// What the delivery of one document is waiting for.
#[derive(Debug, Clone, Copy, PartialEq, Eq, Structural)]
pub enum DeliveryState {
    /// The document is being generated.
    Generating,
    /// The document is being written to its file.
    WritingFile,
    /// The document is being generated again, for standard output.
    Regenerating,
    /// The document is being written to standard output.
    WritingStdout,
    /// Standard output is being flushed.
    Flushing,
    /// The delivery has ended, in `Done` or in `Fail`.
    Finished,
}

/// What came of the action that the caller performed.
#[derive(Debug)]
pub enum DeliveryEvent {
    /// The document was generated.
    Generated,
    /// Generating the document failed.
    GenerateFailed(Error),
    /// The file was written.
    Written,
    /// The file at `path` could not be written.
    WriteFailed { path: String },
    /// The bytes were written to standard output.
    StdoutWritten,
    /// Standard output was flushed.
    Flushed,
    /// Standard output failed; the payload is the cause.
    StdoutFailed(ErrorKind),
}

/// The mathematical value of a [`DeliveryEvent`].
pub enum DeliveryEventView {
    Generated,
    GenerateFailed(ErrorView),
    Written,
    WriteFailed { path: Seq<char> },
    StdoutWritten,
    Flushed,
    StdoutFailed(ErrorKindView),
}

impl View for DeliveryEvent {
    type V = DeliveryEventView;

    open spec fn view(&self) -> DeliveryEventView {
        match self {
            DeliveryEvent::Generated => DeliveryEventView::Generated,
            DeliveryEvent::GenerateFailed(error) => DeliveryEventView::GenerateFailed(error@),
            DeliveryEvent::Written => DeliveryEventView::Written,
            DeliveryEvent::WriteFailed { path } => DeliveryEventView::WriteFailed { path: path@ },
            DeliveryEvent::StdoutWritten => DeliveryEventView::StdoutWritten,
            DeliveryEvent::Flushed => DeliveryEventView::Flushed,
            DeliveryEvent::StdoutFailed(cause) => DeliveryEventView::StdoutFailed(cause@),
        }
    }
}

/// What the caller is to do next.
#[derive(Debug)]
pub enum DeliveryAction {
    /// Generate the document.
    Generate,
    /// Write the document to the file `file_name` in `directory`.
    WriteFile { directory: String, file_name: String },
    /// Print `notice` on standard error, then generate the document again.
    WarnAndGenerate { notice: String },
    /// Write the document to standard output.
    WriteStdout,
    /// Flush standard output.
    FlushStdout,
    /// The document is delivered.
    Done,
    /// The delivery failed.
    Fail(Error),
    /// The delivery has ended before; there is nothing to do.
    Nothing,
}

/// The mathematical value of a [`DeliveryAction`].
pub enum DeliveryActionView {
    Generate,
    WriteFile { directory: Seq<char>, file_name: Seq<char> },
    WarnAndGenerate { notice: Seq<char> },
    WriteStdout,
    FlushStdout,
    Done,
    Fail(ErrorView),
    Nothing,
}

impl View for DeliveryAction {
    type V = DeliveryActionView;

    open spec fn view(&self) -> DeliveryActionView {
        match self {
            DeliveryAction::Generate => DeliveryActionView::Generate,
            DeliveryAction::WriteFile { directory, file_name } => DeliveryActionView::WriteFile {
                directory: directory@,
                file_name: file_name@,
            },
            DeliveryAction::WarnAndGenerate { notice } => DeliveryActionView::WarnAndGenerate {
                notice: notice@,
            },
            DeliveryAction::WriteStdout => DeliveryActionView::WriteStdout,
            DeliveryAction::FlushStdout => DeliveryActionView::FlushStdout,
            DeliveryAction::Done => DeliveryActionView::Done,
            DeliveryAction::Fail(error) => DeliveryActionView::Fail(error@),
            DeliveryAction::Nothing => DeliveryActionView::Nothing,
        }
    }
}

impl DeliveryState {
    /// Whether `event` is an outcome of the action that the state waits for.
    pub open spec fn expects(self, event: DeliveryEventView) -> bool {
        match self {
            DeliveryState::Generating => event is Generated || event is GenerateFailed,
            DeliveryState::WritingFile => event is Written || event is WriteFailed,
            DeliveryState::Regenerating => event is Generated || event is GenerateFailed,
            DeliveryState::WritingStdout => event is StdoutWritten || event is StdoutFailed,
            DeliveryState::Flushing => event is Flushed || event is StdoutFailed,
            DeliveryState::Finished => false,
        }
    }

    /// An upper bound on the number of expected events that can still
    /// follow.
    pub open spec fn remaining(self) -> nat {
        match self {
            DeliveryState::Generating => 5,
            DeliveryState::WritingFile => 4,
            DeliveryState::Regenerating => 3,
            DeliveryState::WritingStdout => 2,
            DeliveryState::Flushing => 1,
            DeliveryState::Finished => 0,
        }
    }

    /// The state and the action that follow `event`, for the invoice `id`
    /// and the output directory `out`. An event that the state does not
    /// expect ends nothing and starts nothing.
    pub open spec fn after(self, event: DeliveryEventView, out: Option<Seq<char>>, id: Seq<char>) -> (
        DeliveryState,
        DeliveryActionView,
    ) {
        match (self, event) {
            (DeliveryState::Generating, DeliveryEventView::Generated) => match out {
                Some(directory) => (
                    DeliveryState::WritingFile,
                    DeliveryActionView::WriteFile { directory, file_name: pdf_name(id) },
                ),
                None => (DeliveryState::Regenerating, DeliveryActionView::Generate),
            },
            (DeliveryState::Generating, DeliveryEventView::GenerateFailed(error)) => (
                DeliveryState::Finished,
                DeliveryActionView::Fail(
                    error.with("generating pdf data from invoice"@).with("invoice id: "@ + id),
                ),
            ),
            (DeliveryState::WritingFile, DeliveryEventView::Written) => (
                DeliveryState::Finished,
                DeliveryActionView::Done,
            ),
            (DeliveryState::WritingFile, DeliveryEventView::WriteFailed { path }) => (
                DeliveryState::Regenerating,
                DeliveryActionView::WarnAndGenerate { notice: write_notice(id, path) },
            ),
            (DeliveryState::Regenerating, DeliveryEventView::Generated) => (
                DeliveryState::WritingStdout,
                DeliveryActionView::WriteStdout,
            ),
            (DeliveryState::Regenerating, DeliveryEventView::GenerateFailed(error)) => (
                DeliveryState::Finished,
                DeliveryActionView::Fail(
                    error.with("generating invoice pdf"@).with("printing to stdout"@),
                ),
            ),
            (DeliveryState::WritingStdout, DeliveryEventView::StdoutWritten) => (
                DeliveryState::Flushing,
                DeliveryActionView::FlushStdout,
            ),
            (DeliveryState::WritingStdout, DeliveryEventView::StdoutFailed(cause)) => (
                DeliveryState::Finished,
                DeliveryActionView::Fail(
                    ErrorView::caused_by(cause).with("writing invoice pdf to stdout"@),
                ),
            ),
            (DeliveryState::Flushing, DeliveryEventView::Flushed) => (
                DeliveryState::Finished,
                DeliveryActionView::Done,
            ),
            (DeliveryState::Flushing, DeliveryEventView::StdoutFailed(cause)) => (
                DeliveryState::Finished,
                DeliveryActionView::Fail(
                    ErrorView::caused_by(cause).with("flushing stdout"@).with(
                        "printing to stdout"@,
                    ),
                ),
            ),
            _ => (self, DeliveryActionView::Nothing),
        }
    }
}

/// Where the delivery of a document begins: it is generated.
pub fn begin_delivery() -> (r: (DeliveryState, DeliveryAction))
    ensures
        r.0 == DeliveryState::Generating,
        r.1@ == DeliveryActionView::Generate,
{
    (DeliveryState::Generating, DeliveryAction::Generate)
}

/// Decides what follows `event` in `state` while the document of the invoice
/// `invoice_id` is delivered.
///
/// With an output directory the document goes to the file named after the
/// invoice; if that file cannot be written, a notice is printed and the
/// document goes to standard output instead. Without a directory it goes to
/// standard output at once. For standard output the document is generated
/// anew, then written, then flushed. The first failure of generating or of
/// standard output ends the delivery.
pub fn deliver_step(cli: &Cli, invoice_id: &str, state: DeliveryState, event: DeliveryEvent) -> (r:
    (DeliveryState, DeliveryAction))
    ensures
        r.0 == state.after(event@, opt_text(cli.out), invoice_id@).0,
        r.1@ == state.after(event@, opt_text(cli.out), invoice_id@).1,
        state.expects(event@) ==> r.0.remaining() < state.remaining(),
        !state.expects(event@) ==> r.0 == state && r.1 is Nothing,
{
    match (state, event) {
        (DeliveryState::Generating, DeliveryEvent::Generated) => match &cli.out {
            Some(directory) => (
                DeliveryState::WritingFile,
                DeliveryAction::WriteFile {
                    directory: directory.clone(),
                    file_name: pdf_file_name(invoice_id),
                },
            ),
            None => (DeliveryState::Regenerating, DeliveryAction::Generate),
        },
        (DeliveryState::Generating, DeliveryEvent::GenerateFailed(error)) => {
            let line = String::from_str("invoice id: ").concat(invoice_id);
            (
                DeliveryState::Finished,
                DeliveryAction::Fail(
                    error.add_context("generating pdf data from invoice").add_context(
                        line.as_str(),
                    ),
                ),
            )
        },
        (DeliveryState::WritingFile, DeliveryEvent::Written) => (
            DeliveryState::Finished,
            DeliveryAction::Done,
        ),
        (DeliveryState::WritingFile, DeliveryEvent::WriteFailed { path }) => {
            let notice = String::from_str("Failed to write invoice '").concat(invoice_id).concat(
                "' to '",
            ).concat(path.as_str()).concat("'");
            (DeliveryState::Regenerating, DeliveryAction::WarnAndGenerate { notice })
        },
        (DeliveryState::Regenerating, DeliveryEvent::Generated) => (
            DeliveryState::WritingStdout,
            DeliveryAction::WriteStdout,
        ),
        (DeliveryState::Regenerating, DeliveryEvent::GenerateFailed(error)) => (
            DeliveryState::Finished,
            DeliveryAction::Fail(
                error.add_context("generating invoice pdf").add_context("printing to stdout"),
            ),
        ),
        (DeliveryState::WritingStdout, DeliveryEvent::StdoutWritten) => (
            DeliveryState::Flushing,
            DeliveryAction::FlushStdout,
        ),
        (DeliveryState::WritingStdout, DeliveryEvent::StdoutFailed(cause)) => (
            DeliveryState::Finished,
            DeliveryAction::Fail(Error::new(cause).add_context("writing invoice pdf to stdout")),
        ),
        (DeliveryState::Flushing, DeliveryEvent::Flushed) => (
            DeliveryState::Finished,
            DeliveryAction::Done,
        ),
        (DeliveryState::Flushing, DeliveryEvent::StdoutFailed(cause)) => (
            DeliveryState::Finished,
            DeliveryAction::Fail(
                Error::new(cause).add_context("flushing stdout").add_context("printing to stdout"),
            ),
        ),
        (state, _) => (state, DeliveryAction::Nothing),
    }
}

} // verus!
