//! What the tool tells the user and how it ends, as a value.

use vstd::prelude::*;

verus! {

/// The stream that a message goes to.
#[derive(Clone, Copy, Debug, PartialEq, Eq, Structural)]
pub enum Stream {
    /// Standard output.
    Output,
    /// Standard error.
    Error,
}

/// The result of one step of a command: a message, if one is due, and the
/// exit code, if the tool ends here.
#[derive(Debug)]
pub struct Report {
    /// The message to write, without the line feed that ends it.
    pub message: Option<String>,
    /// Where `message` goes.
    pub stream: Stream,
    /// `Some(code)` where the tool ends with `code`, `None` where the
    /// command goes on.
    pub exit: Option<i32>,
}

/// A `Report` as contracts see it.
pub struct ReportView {
    pub message: Option<Seq<char>>,
    pub stream: Stream,
    pub exit: Option<i32>,
}

impl View for Report {
    type V = ReportView;

    open spec fn view(&self) -> ReportView {
        ReportView {
            message: match self.message {
                Some(text) => Some(text@),
                None => None,
            },
            stream: self.stream,
            exit: self.exit,
        }
    }
}

/// A report that says nothing and lets the command go on.
pub open spec fn silent() -> ReportView {
    ReportView { message: None, stream: Stream::Error, exit: None }
}

/// A report that writes `text` to standard error.
pub open spec fn complaint(text: Seq<char>, exit: Option<i32>) -> ReportView {
    ReportView { message: Some(text), stream: Stream::Error, exit }
}

/// A report that writes `text` to standard output.
pub open spec fn notice(text: Seq<char>, exit: Option<i32>) -> ReportView {
    ReportView { message: Some(text), stream: Stream::Output, exit }
}

impl Report {
    /// Builds the report that says nothing and lets the command go on.
    pub fn silent() -> (report: Report)
        ensures
            report@ == silent(),
    {
        Report { message: None, stream: Stream::Error, exit: None }
    }

    /// Builds a report that writes `text` to standard error.
    pub fn complaint(text: String, exit: Option<i32>) -> (report: Report)
        ensures
            report@ == complaint(text@, exit),
    {
        Report { message: Some(text), stream: Stream::Error, exit }
    }

    /// Builds a report that writes `text` to standard output.
    pub fn notice(text: String, exit: Option<i32>) -> (report: Report)
        ensures
            report@ == notice(text@, exit),
    {
        Report { message: Some(text), stream: Stream::Output, exit }
    }
}

} // verus!
