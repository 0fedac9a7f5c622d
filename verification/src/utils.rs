//! The error a client sees.

use crate::data::model::{Blog, BlogView};
use crate::data::repository::BlogRepoError;
use vstd::prelude::*;

verus! {

/// Top level application error type.
#[derive(Debug, Clone, Copy, PartialEq, Eq, Structural)]
pub enum AppError {
    /// Blog repository error variant.
    BlogRepo(BlogRepoError),
}

impl From<BlogRepoError> for AppError {
    fn from(error: BlogRepoError) -> (wrapped: Self) {
        AppError::BlogRepo(error)
    }
}

impl vstd::std_specs::convert::FromSpecImpl<BlogRepoError> for AppError {
    open spec fn obeys_from_spec() -> bool {
        true
    }

    open spec fn from_spec(error: BlogRepoError) -> Self {
        AppError::BlogRepo(error)
    }
}

/// The body sent with an error: an object with the one field `error`.
#[derive(Debug, PartialEq, Eq)]
pub struct ErrorBody {
    /// What went wrong, in words.
    pub error: String,
}

/// An error as it goes out to the client.
#[derive(Debug, PartialEq, Eq)]
pub struct ErrorResponse {
    /// The status code of the answer.
    pub status: u16,
    /// The body of the answer.
    pub body: ErrorBody,
}

impl AppError {
    /// The status code that stands for the error: 409 for a blog that already
    /// exists, 404 for one that is missing.
    pub open spec fn status(self) -> u16 {
        match self {
            AppError::BlogRepo(BlogRepoError::ExistsById) => 409,
            AppError::BlogRepo(BlogRepoError::NoBlogById) => 404,
        }
    }

    /// The words of the error: those of the repository error inside.
    pub open spec fn text(self) -> Seq<char> {
        match self {
            AppError::BlogRepo(error) => error.text(),
        }
    }

    /// The status code that stands for the error.
    pub fn status_code(&self) -> (code: u16)
        ensures
            code == self.status(),
    {
        match self {
            AppError::BlogRepo(error) => match error {
                BlogRepoError::ExistsById => 409,
                BlogRepoError::NoBlogById => 404,
            },
        }
    }

    /// What the error says to a reader.
    pub fn message(&self) -> (text: String)
        ensures
            text@ == self.text(),
    {
        match self {
            AppError::BlogRepo(error) => error.message(),
        }
    }

    /// The answer that reports the error: its status code, and a body whose
    /// `error` field holds its words.
    pub fn into_response(self) -> (response: ErrorResponse)
        ensures
            response.status == self.status(),
            response.body.error@ == self.text(),
    {
        let status = self.status_code();
        let body = ErrorBody { error: self.message() };
        ErrorResponse { status, body }
    }
}

/// The repository's result that an endpoint's answer passes on: the blog of
/// a success, the repository error inside a failure.
pub open spec fn passed_on(response: Result<Blog, AppError>) -> Result<BlogView, BlogRepoError> {
    match response {
        Ok(blog) => Ok(blog@),
        Err(AppError::BlogRepo(error)) => Err(error),
    }
}

} // verus!
