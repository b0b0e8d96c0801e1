use vstd::prelude::*;

verus! {

/// What went wrong while talking to the bus.
#[derive(Debug, Clone)]
pub enum Error {
    /// A failure on this side, with a description.
    Internal(String),
    /// An error code sent by the bus.
    FromJuno(u32),
}

/// The mathematical value of an [`Error`].
pub enum ErrorView {
    Internal(Seq<char>),
    FromJuno(u32),
}

impl View for Error {
    type V = ErrorView;

    open spec fn view(&self) -> ErrorView {
        match self {
            Error::Internal(msg) => ErrorView::Internal(msg@),
            Error::FromJuno(code) => ErrorView::FromJuno(*code),
        }
    }
}

/// The code sent back to the bus for an error: an error code from the bus
/// is passed on, any failure on this side is sent as code 0.
pub open spec fn spec_error_code(e: ErrorView) -> u32 {
    match e {
        ErrorView::Internal(_) => 0,
        ErrorView::FromJuno(code) => code,
    }
}

/// The code sent back to the bus for `error`.
pub fn error_code(error: &Error) -> (code: u32)
    ensures
        code == spec_error_code(error@),
{
    match error {
        Error::Internal(_) => 0,
        Error::FromJuno(code) => *code,
    }
}

} // verus!
