//! The error that ends a run: which part of the tool failed, and why.

use vstd::prelude::*;

verus! {

/// An error of a run. It names the part that failed (`domain`) and carries
/// either the message of the driver error that caused it (`source`), a
/// message of its own, or nothing when it has already been reported to the
/// user (`printed`).
#[derive(Debug)]
pub struct AppError {
    domain: &'static str,
    source: Option<String>,
    message: Option<String>,
    printed: bool,
}

/// The content of an [`AppError`].
pub struct AppErrorView {
    pub domain: Seq<char>,
    pub source: Option<Seq<char>>,
    pub message: Option<Seq<char>>,
    pub printed: bool,
}

/// The text of an optional string.
pub open spec fn opt_view(s: Option<String>) -> Option<Seq<char>> {
    match s {
        Some(s) => Some(s@),
        None => None,
    }
}

impl View for AppError {
    type V = AppErrorView;

    closed spec fn view(&self) -> AppErrorView {
        AppErrorView {
            domain: self.domain@,
            source: opt_view(self.source),
            message: opt_view(self.message),
            printed: self.printed,
        }
    }
}

/// The text shown for an error: "error[DOMAIN]: REASON", with the driver's
/// message as the reason when there is one, else the error's own message,
/// else just "error[DOMAIN]".
pub open spec fn describe_spec(e: AppErrorView) -> Seq<char> {
    match (e.source, e.message) {
        (Some(src), _) => "error["@ + e.domain + "]: "@ + src,
        (None, Some(m)) => "error["@ + e.domain + "]: "@ + m,
        (None, None) => "error["@ + e.domain + "]"@,
    }
}

impl AppError {
    /// An error of `domain` caused by a driver error with message `source`.
    pub fn new(domain: &'static str, source: String) -> (e: Self)
        ensures
            e@.domain == domain@,
            e@.source == Some(source@),
            e@.message is None,
            !e@.printed,
    {
        AppError { domain, source: Some(source), message: None, printed: false }
    }

    /// An error of `domain` with a message of its own.
    pub fn msg(domain: &'static str, message: String) -> (e: Self)
        ensures
            e@.domain == domain@,
            e@.source is None,
            e@.message == Some(message@),
            !e@.printed,
    {
        AppError { domain, source: None, message: Some(message), printed: false }
    }

    /// An error of `domain` whose details have already been shown.
    pub fn printed(domain: &'static str) -> (e: Self)
        ensures
            e@.domain == domain@,
            e@.source is None,
            e@.message is None,
            e@.printed,
    {
        AppError { domain, source: None, message: None, printed: true }
    }

    /// Whether the details of the error have already been shown.
    pub fn is_printed(&self) -> (b: bool)
        ensures
            b == self@.printed,
    {
        self.printed
    }

    /// The text shown for the error.
    pub fn describe(&self) -> (s: String)
        ensures
            s@ == describe_spec(self@),
    {
        let mut out = String::new();
        out.append("error[");
        out.append(self.domain);
        match (&self.source, &self.message) {
            (Some(src), _) => {
                out.append("]: ");
                out.append(src.as_str());
            },
            (None, Some(m)) => {
                out.append("]: ");
                out.append(m.as_str());
            },
            (None, None) => {
                out.append("]");
            },
        }
        out
    }
}

} // verus!
