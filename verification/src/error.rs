//! Failures that cross layer boundaries, with the context each layer adds.
//!
//! An [`Error`] starts from a cause and collects one line of context at each
//! layer it passes, innermost first. Its message lists the lines in reverse:
//! what the caller was doing comes first, the cause last.

use vstd::prelude::*;
use vstd::string::StringExecFns;

verus! {

/// Where a failure came from. Each variant carries the rendering of its
/// cause.
#[derive(Debug)]
pub enum ErrorKind {
    /// Reading or writing failed.
    Io(String),
    /// No session with the browser driver could be opened.
    FantocciniNewSession(String),
    /// The browser driver rejected a command.
    FantocciniCmdError(String),
    /// The print configuration was refused.
    FantocciniPrintError(String),
    /// Any other failure, described by a message.
    Other(String),
}

/// The mathematical value of an [`ErrorKind`].
pub enum ErrorKindView {
    Io(Seq<char>),
    FantocciniNewSession(Seq<char>),
    FantocciniCmdError(Seq<char>),
    FantocciniPrintError(Seq<char>),
    Other(Seq<char>),
}

impl ErrorKindView {
    /// The rendering of the cause.
    pub open spec fn cause(self) -> Seq<char> {
        match self {
            ErrorKindView::Io(text) => text,
            ErrorKindView::FantocciniNewSession(text) => text,
            ErrorKindView::FantocciniCmdError(text) => text,
            ErrorKindView::FantocciniPrintError(text) => text,
            ErrorKindView::Other(text) => text,
        }
    }
}

impl View for ErrorKind {
    type V = ErrorKindView;

    open spec fn view(&self) -> ErrorKindView {
        match self {
            ErrorKind::Io(text) => ErrorKindView::Io(text@),
            ErrorKind::FantocciniNewSession(text) => ErrorKindView::FantocciniNewSession(text@),
            ErrorKind::FantocciniCmdError(text) => ErrorKindView::FantocciniCmdError(text@),
            ErrorKind::FantocciniPrintError(text) => ErrorKindView::FantocciniPrintError(text@),
            ErrorKind::Other(text) => ErrorKindView::Other(text@),
        }
    }
}

impl ErrorKind {
    /// The rendering of the cause.
    pub fn cause_text(&self) -> (r: &str)
        ensures
            r@ == self@.cause(),
    {
        match self {
            ErrorKind::Io(text) => text.as_str(),
            ErrorKind::FantocciniNewSession(text) => text.as_str(),
            ErrorKind::FantocciniCmdError(text) => text.as_str(),
            ErrorKind::FantocciniPrintError(text) => text.as_str(),
            ErrorKind::Other(text) => text.as_str(),
        }
    }
}

/// The separator between two lines of context in a message.
pub open spec fn separator() -> Seq<char> {
    " -> "@
}

/// The lines of `context` from the last to the first, joined by the
/// separator.
pub open spec fn chain_text(context: Seq<Seq<char>>) -> Seq<char>
    decreases context.len(),
{
    if context.len() == 0 {
        Seq::empty()
    } else if context.len() == 1 {
        context[0]
    } else {
        context.last() + separator() + chain_text(context.drop_last())
    }
}

/// The texts of a list of strings.
pub open spec fn texts(lines: Seq<String>) -> Seq<Seq<char>> {
    lines.map_values(|line: String| line@)
}

/// The mathematical value of an [`Error`].
pub struct ErrorView {
    /// Where the failure came from.
    pub kind: ErrorKindView,
    /// The lines of context, innermost first.
    pub context: Seq<Seq<char>>,
}

impl ErrorView {
    /// A failure that has only its cause as context.
    pub open spec fn caused_by(kind: ErrorKindView) -> ErrorView {
        ErrorView { kind, context: seq![kind.cause()] }
    }

    /// A failure described by a message alone.
    pub open spec fn other(message: Seq<char>) -> ErrorView {
        ErrorView::caused_by(ErrorKindView::Other(message))
    }

    /// The failure with one more line of context.
    pub open spec fn with(self, line: Seq<char>) -> ErrorView {
        ErrorView { kind: self.kind, context: self.context.push(line) }
    }

    /// The message for the end user: the lines of context from the last
    /// added to the first, or `"no context"` where there is none.
    pub open spec fn message(self) -> Seq<char> {
        if self.context.len() == 0 {
            "no context"@
        } else {
            chain_text(self.context)
        }
    }
}

/// A failure together with the context it has collected.
#[derive(Debug)]
pub struct Error {
    kind: ErrorKind,
    context: Vec<String>,
}

impl View for Error {
    type V = ErrorView;

    closed spec fn view(&self) -> ErrorView {
        ErrorView { kind: self.kind@, context: texts(self.context@) }
    }
}

impl Error {
    /// A failure that has only its cause as context.
    pub fn new(kind: ErrorKind) -> (r: Error)
        ensures
            r@ == ErrorView::caused_by(kind@),
    {
        let mut context: Vec<String> = Vec::new();
        context.push(kind.cause_text().to_owned());
        proof {
            assert(texts(context@) =~= seq![kind@.cause()]);
        }
        Error { kind, context }
    }

    /// A failure described by a message alone.
    pub fn other(message: &str) -> (r: Error)
        ensures
            r@ == ErrorView::other(message@),
    {
        Error::new(ErrorKind::Other(message.to_owned()))
    }

    /// Adds one line of context, after those already collected. Each layer
    /// through which a failure passes adds one line; the message lists the
    /// lines from the last added to the first.
    pub fn add_context(self, context: &str) -> (r: Error)
        ensures
            r@ == self@.with(context@),
    {
        let mut lines = self.context;
        let line = context.to_owned();
        proof {
            assert(texts(lines@.push(line)) =~= texts(lines@).push(context@));
        }
        lines.push(line);
        Error { kind: self.kind, context: lines }
    }

    /// Where the failure came from.
    pub fn kind(&self) -> (r: &ErrorKind)
        ensures
            r@ == self@.kind,
    {
        &self.kind
    }

    /// The lines of context, innermost first.
    pub fn context(&self) -> (r: &Vec<String>)
        ensures
            texts(r@) == self@.context,
    {
        &self.context
    }

    /// The message for the end user: the lines of context from the last
    /// added to the first, joined by `" -> "`, or `"no context"` where there
    /// is none.
    pub fn message(&self) -> (r: String)
        ensures
            r@ == self@.message(),
    {
        let count = self.context.len();
        if count == 0 {
            return "no context".to_owned();
        }
        let ghost lines = texts(self.context@);
        let mut text = self.context[count - 1].clone();
        let mut i: usize = count - 1;
        proof {
            assert(lines.take(count as int) =~= lines);
            lemma_chain_step(lines, count as int);
        }
        while i > 0
            invariant
                i < count,
                count == self.context.len(),
                lines == texts(self.context@),
                chain_text(lines) == text@ + rest_text(lines, i as int),
            decreases i,
        {
            proof {
                lemma_chain_step(lines, i as int);
                assert(text@ + rest_text(lines, i as int) =~= text@ + separator() + lines[i - 1]
                    + rest_text(lines, i - 1));
            }
            text.append(" -> ");
            text.append(self.context[i - 1].as_str());
            i -= 1;
        }
        proof {
            assert(text@ + rest_text(lines, 0) =~= text@);
        }
        text
    }
}

/// What remains to be written once the lines from `i` on are written: the
/// separator and the chain of the first `i` lines, or nothing where `i` is
/// zero.
spec fn rest_text(lines: Seq<Seq<char>>, i: int) -> Seq<char> {
    if i <= 0 {
        Seq::empty()
    } else {
        separator() + chain_text(lines.take(i))
    }
}

/// The chain of the first `i` lines begins with line `i - 1`; the rest
/// follows.
proof fn lemma_chain_step(lines: Seq<Seq<char>>, i: int)
    requires
        0 < i <= lines.len(),
    ensures
        chain_text(lines.take(i)) == lines[i - 1] + rest_text(lines, i - 1),
{
    let head = lines.take(i);
    assert(head.last() == lines[i - 1]);
    if i == 1 {
        assert(head[0] + Seq::<char>::empty() =~= head[0]);
    } else {
        assert(head.drop_last() =~= lines.take(i - 1));
        assert(head.last() + separator() + chain_text(head.drop_last()) =~= head.last() + (
        separator() + chain_text(head.drop_last())));
    }
}

/// The message puts the line added last in front: with at least one line
/// already there, a new line is followed by the separator and the old
/// message.
pub proof fn law_latest_context_first(error: ErrorView, line: Seq<char>)
    requires
        error.context.len() > 0,
    ensures
        error.with(line).message() == line + separator() + error.message(),
{
    let longer = error.context.push(line);
    assert(longer.last() == line);
    assert(longer.drop_last() =~= error.context);
}

/// Adding context to the failure inside a result.
pub trait AddContext<T> {
    /// Leaves `Ok` as it is, and adds one line of context to the failure of
    /// an `Err`.
    fn add_context(self, ctx: &str) -> Result<T, Error>;
}

impl<T> AddContext<T> for Result<T, Error> {
    fn add_context(self, ctx: &str) -> (r: Result<T, Error>)
        ensures
            self is Ok ==> r == self,
            self matches Err(e) ==> r matches Err(f) && f@ == e@.with(ctx@),
    {
        match self {
            Ok(value) => Ok(value),
            Err(e) => Err(e.add_context(ctx)),
        }
    }
}

} // verus!
