//! The two ways in which a request fails, and the pages that say so.

use crate::escape::{encode_safe, escaped, is_inert, lemma_escaped_is_inert};
use crate::response::{content_type, with_header, Response, ResponseView};
use crate::response::{INTERNAL_SERVER_ERROR, NOT_FOUND};
use crate::text::{decimal, decimal_digits, replace_all, replaced, str_eq};
use vstd::prelude::*;
use vstd::utf8::encode_utf8;

verus! {

/// Why a request got no regular answer.
#[derive(Debug)]
pub enum HttpError {
    /// Nothing is served under the requested name. A regular outcome, not a fault.
    NotFound,
    /// Something went wrong on the way. `err` is what the error page shows of it: HTML
    /// already, empty in production.
    Internal { err: String },
}

/// What an [`HttpError`] holds.
pub enum HttpErrorView {
    NotFound,
    Internal { err: Seq<char> },
}

impl View for HttpError {
    type V = HttpErrorView;

    open spec fn view(&self) -> HttpErrorView {
        match self {
            HttpError::NotFound => HttpErrorView::NotFound,
            HttpError::Internal { err } => HttpErrorView::Internal { err: err@ },
        }
    }
}

/// A failure as it was raised: what went wrong, then what caused that, and so on down to the
/// root cause, with the stack trace taken where it was raised, if one was taken.
#[derive(Debug)]
pub struct Report {
    pub chain: Vec<String>,
    pub backtrace: Option<String>,
}

/// What a [`Report`] holds.
pub struct ReportView {
    pub chain: Seq<Seq<char>>,
    pub backtrace: Option<Seq<char>>,
}

impl View for Report {
    type V = ReportView;

    open spec fn view(&self) -> ReportView {
        ReportView {
            chain: Seq::new(self.chain@.len(), |i: int| self.chain@[i]@),
            backtrace: match self.backtrace {
                Some(trace) => Some(trace@),
                None => None,
            },
        }
    }
}

/// A failure with one cause and no stack trace.
pub open spec fn report_of(message: Seq<char>) -> ReportView {
    ReportView { chain: seq![message], backtrace: None }
}

impl Report {
    /// A failure with one cause and no stack trace.
    pub fn msg(message: String) -> (report: Report)
        ensures
            report@ == report_of(message@),
    {
        let mut chain: Vec<String> = Vec::new();
        chain.push(message);
        let report = Report { chain, backtrace: None };
        assert(report@.chain =~= seq![message@]);
        report
    }
}

/// Why a handler has no answer to a request. A handler does not know how much of a failure
/// may be shown: that is settled where the failure is turned into an [`HttpError`].
#[derive(Debug)]
pub enum Failure {
    /// Nothing is served under the requested name.
    NotFound,
    /// Something went wrong on the way.
    Internal(Report),
}

/// What a [`Failure`] holds.
pub enum FailureView {
    NotFound,
    Internal(ReportView),
}

impl View for Failure {
    type V = FailureView;

    open spec fn view(&self) -> FailureView {
        match self {
            Failure::NotFound => FailureView::NotFound,
            Failure::Internal(report) => FailureView::Internal(report@),
        }
    }
}

/// The causes one per line, each behind its number, counted from one, a full stop and a space.
pub open spec fn numbered(chain: Seq<Seq<char>>) -> Seq<char>
    decreases chain.len(),
{
    if chain.len() == 0 {
        Seq::empty()
    } else {
        numbered(chain.drop_last()) + decimal_digits(chain.len()) + seq!['.', ' ']
            + chain.last() + seq!['\n']
    }
}

/// What the error page shows of a failure: nothing in production; elsewhere the numbered
/// causes, escaped, a line break, and the stack trace, escaped, where there is one.
pub open spec fn trace_content(report: ReportView, production: bool) -> Seq<char> {
    if production {
        Seq::empty()
    } else {
        escaped(numbered(report.chain)) + seq!['\n'] + match report.backtrace {
            Some(trace) => escaped(trace),
            None => Seq::empty(),
        }
    }
}

/// What the error page shows of a failure holds no markup of its own, whatever the causes
/// and the stack trace say.
pub proof fn lemma_trace_content_is_inert(report: ReportView, production: bool)
    ensures
        is_inert(trace_content(report, production)),
{
    lemma_escaped_is_inert(numbered(report.chain));
    if let Some(trace) = report.backtrace {
        lemma_escaped_is_inert(trace);
    }
}

/// The error that a client is told of a failure.
pub open spec fn error_of(failure: FailureView, production: bool) -> HttpErrorView {
    match failure {
        FailureView::NotFound => HttpErrorView::NotFound,
        FailureView::Internal(report) => HttpErrorView::Internal {
            err: trace_content(report, production),
        },
    }
}

/// The name under which the site runs in production.
pub open spec fn production_name() -> Seq<char> {
    "ofcrse"@
}

/// Whether the process runs in production, given the name that the platform gave the
/// application, if it gave one.
pub fn is_production(app_name: Option<&str>) -> (production: bool)
    ensures
        production == (app_name matches Some(name) && name@ == production_name()),
{
    match app_name {
        Some(name) => str_eq(name, "ofcrse"),
        None => false,
    }
}

impl HttpError {
    /// The internal error that stands for a failure.
    pub fn from_report(report: &Report, production: bool) -> (error: HttpError)
        ensures
            error@ == (HttpErrorView::Internal { err: trace_content(report@, production) }),
    {
        if production {
            return HttpError::Internal { err: String::new() };
        }
        let mut lines = String::new();
        let mut i: usize = 0;
        while i < report.chain.len()
            invariant
                i <= report.chain.len(),
                lines@ == numbered(report@.chain.take(i as int)),
            decreases report.chain.len() - i,
        {
            let number = decimal(i + 1);
            assert(report@.chain.take(i + 1).drop_last() =~= report@.chain.take(i as int));
            lines.append(number.as_str());
            lines.append(". ");
            lines.append(report.chain[i].as_str());
            lines.append("\n");
            proof {
                reveal_strlit(". ");
                reveal_strlit("\n");
            }
            i += 1;
        }
        assert(report@.chain.take(report@.chain.len() as int) =~= report@.chain);
        let mut err = encode_safe(lines.as_str());
        err.append("\n");
        proof {
            reveal_strlit("\n");
            assert("\n"@ =~= seq!['\n']);
        }
        match &report.backtrace {
            Some(trace) => {
                let shown = encode_safe(trace.as_str());
                err.append(shown.as_str());
            },
            None => {},
        }
        HttpError::Internal { err }
    }

    /// The error that a client is told of a failure.
    pub fn from_failure(failure: &Failure, production: bool) -> (error: HttpError)
        ensures
            error@ == error_of(failure@, production),
    {
        match failure {
            Failure::NotFound => HttpError::NotFound,
            Failure::Internal(report) => HttpError::from_report(report, production),
        }
    }
}

/// The two error documents, read once when the process starts.
#[derive(Debug)]
pub struct ErrorPages {
    pub not_found: Vec<u8>,
    pub internal: String,
}

/// What the [`ErrorPages`] hold.
pub struct ErrorPagesView {
    pub not_found: Seq<u8>,
    pub internal: Seq<char>,
}

impl View for ErrorPages {
    type V = ErrorPagesView;

    open spec fn view(&self) -> ErrorPagesView {
        ErrorPagesView { not_found: self.not_found@, internal: self.internal@ }
    }
}

/// Keeps the contents of the two error documents for the life of the process: the page for
/// what is not found, as it is, and the template of the page for internal errors.
pub fn read_error_file_contents(not_found: Vec<u8>, internal: String) -> (pages: ErrorPages)
    ensures
        pages@ == (ErrorPagesView { not_found: not_found@, internal: internal@ }),
{
    ErrorPages { not_found, internal }
}

/// The place in the template where the details of an internal error go.
pub open spec fn error_marker() -> Seq<char> {
    "<!-- ERROR -->"@
}

/// The type of both error pages.
pub open spec fn html() -> Seq<char> {
    "text/html"@
}

/// What stands in the place of the marker: nothing where there is nothing to show, as in
/// production; else `err` as preformatted text.
pub open spec fn error_box(err: Seq<char>) -> Seq<char> {
    if err.len() == 0 {
        Seq::empty()
    } else {
        "<pre>"@ + err + "</pre>"@
    }
}

/// The page for an internal error: the template with what is shown of the error in the
/// place of each marker.
pub open spec fn internal_page(template: Seq<char>, err: Seq<char>) -> Seq<char> {
    replaced(template, error_marker(), error_box(err))
}

/// The response that tells a client of an error.
pub open spec fn error_response(error: HttpErrorView, pages: ErrorPagesView) -> ResponseView {
    match error {
        HttpErrorView::NotFound => with_header(NOT_FOUND, content_type(), html(), pages.not_found),
        HttpErrorView::Internal { err } => with_header(
            INTERNAL_SERVER_ERROR,
            content_type(),
            html(),
            encode_utf8(internal_page(pages.internal, err)),
        ),
    }
}

impl ErrorPages {
    /// The page for what is not found.
    pub fn error_404_contents(&self) -> (page: &Vec<u8>)
        ensures
            page@ == self@.not_found,
    {
        &self.not_found
    }

    /// The template of the page for internal errors.
    pub fn error_500_contents(&self) -> (template: &str)
        ensures
            template@ == self@.internal,
    {
        self.internal.as_str()
    }
}

impl HttpError {
    /// The response that tells the client of this error: 404 with the page for what is not
    /// found, or 500 with the page for internal errors.
    pub fn into_response(self, pages: &ErrorPages) -> (response: Response)
        ensures
            response@ == error_response(self@, pages@),
    {
        match self {
            HttpError::NotFound => {
                let body = pages.error_404_contents().clone();
                Response::with_header(NOT_FOUND, "content-type", "text/html".to_owned(), body)
            },
            HttpError::Internal { err } => {
                let mut detail = String::new();
                if !err.as_str().is_empty() {
                    detail.append("<pre>");
                    detail.append(err.as_str());
                    detail.append("</pre>");
                }
                let page = replace_all(
                    pages.error_500_contents(),
                    "<!-- ERROR -->",
                    detail.as_str(),
                );
                let body = page.as_str().as_bytes_vec();
                Response::with_header(
                    INTERNAL_SERVER_ERROR,
                    "content-type",
                    "text/html".to_owned(),
                    body,
                )
            },
        }
    }
}

} // verus!
