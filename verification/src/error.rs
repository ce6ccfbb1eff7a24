use vstd::prelude::*;

verus! {

/// What can go wrong when a mapping is created or resolved.
#[derive(Debug, Clone, Copy, PartialEq, Eq, Structural)]
pub enum AppError {
    /// No mapping is stored under the requested code.
    NotFound,
    /// The submitted text is not an absolute URL.
    URLParseError,
    /// The backing store could not carry out the operation.
    StorageFailure,
}

impl AppError {
    /// The text that describes this error.
    pub open spec fn text(self) -> Seq<char> {
        match self {
            AppError::NotFound => "Not found"@,
            AppError::URLParseError => "URL parse error"@,
            AppError::StorageFailure => "Storage failure"@,
        }
    }

    /// The description of this error, as an owned string.
    pub fn message(&self) -> (message: String)
        ensures
            message@ == self.text(),
    {
        match self {
            AppError::NotFound => "Not found".to_owned(),
            AppError::URLParseError => "URL parse error".to_owned(),
            AppError::StorageFailure => "Storage failure".to_owned(),
        }
    }
}

} // verus!
