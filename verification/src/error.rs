//! The errors that the HTTP endpoints answer with.

use vstd::prelude::*;

verus! {

/// An endpoint's failure, with the message sent back to the caller.
#[derive(Debug)]
pub enum AppError {
    /// The request is malformed (HTTP 400).
    BadRequest(String),
    /// The requested resource does not exist (HTTP 404).
    NotFound(String),
    /// The service failed while handling the request (HTTP 500).
    Internal(String),
}

/// An endpoint's failure, as a value.
pub enum AppErrorView {
    BadRequest(Seq<char>),
    NotFound(Seq<char>),
    Internal(Seq<char>),
}

impl View for AppError {
    type V = AppErrorView;

    open spec fn view(&self) -> AppErrorView {
        match self {
            AppError::BadRequest(m) => AppErrorView::BadRequest(m@),
            AppError::NotFound(m) => AppErrorView::NotFound(m@),
            AppError::Internal(m) => AppErrorView::Internal(m@),
        }
    }
}

/// The HTTP status code of a failure.
pub open spec fn status_code_spec(e: AppErrorView) -> u16 {
    match e {
        AppErrorView::BadRequest(_) => 400,
        AppErrorView::NotFound(_) => 404,
        AppErrorView::Internal(_) => 500,
    }
}

impl AppError {
    /// The HTTP status code that answers this failure.
    pub fn status_code(&self) -> (c: u16)
        ensures
            c == status_code_spec(self@),
    {
        match self {
            AppError::BadRequest(_) => 400,
            AppError::NotFound(_) => 404,
            AppError::Internal(_) => 500,
        }
    }

    /// The message of this failure.
    pub fn message(&self) -> (m: &str)
        ensures
            m@ == match self@ {
                AppErrorView::BadRequest(m) => m,
                AppErrorView::NotFound(m) => m,
                AppErrorView::Internal(m) => m,
            },
    {
        match self {
            AppError::BadRequest(m) => m.as_str(),
            AppError::NotFound(m) => m.as_str(),
            AppError::Internal(m) => m.as_str(),
        }
    }
}

} // verus!
