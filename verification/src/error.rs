//! The failure taxonomy shared by every readout.

use vstd::prelude::*;

verus! {

/// Why a readout could not produce a value.
#[derive(Debug, Clone, PartialEq, Eq)]
pub enum ReadoutError {
    /// The platform does not answer this question; callers leave the field out.
    NotImplemented,
    /// An expected, recoverable condition, to be shown as an advisory.
    Warning(String),
    /// An operating-system call failed or returned nothing usable.
    Other(String),
}

/// The mathematical value of a [`ReadoutError`]: its kind and its message.
pub enum ReadoutErrorView {
    NotImplemented,
    Warning(Seq<char>),
    Other(Seq<char>),
}

impl View for ReadoutError {
    type V = ReadoutErrorView;

    open spec fn view(&self) -> ReadoutErrorView {
        match self {
            ReadoutError::NotImplemented => ReadoutErrorView::NotImplemented,
            ReadoutError::Warning(message) => ReadoutErrorView::Warning(message@),
            ReadoutError::Other(message) => ReadoutErrorView::Other(message@),
        }
    }
}

/// The mathematical value of a readout of text.
pub open spec fn text_view(result: Result<String, ReadoutError>) -> Result<
    Seq<char>,
    ReadoutErrorView,
> {
    match result {
        Ok(text) => Ok(text@),
        Err(error) => Err(error@),
    }
}

/// The mathematical value of a readout of a plain value.
pub open spec fn value_view<T>(result: Result<T, ReadoutError>) -> Result<T, ReadoutErrorView> {
    match result {
        Ok(value) => Ok(value),
        Err(error) => Err(error@),
    }
}

/// What a read that the operating system may refuse gave: the text, or the
/// system's own message for the refusal.
pub type SystemText = Result<String, String>;

/// The system's own message for a refused read becomes a fatal failure with
/// that message.
impl From<String> for ReadoutError {
    fn from(message: String) -> (error: ReadoutError) {
        ReadoutError::Other(message)
    }
}

impl vstd::std_specs::convert::FromSpecImpl<String> for ReadoutError {
    open spec fn obeys_from_spec() -> bool {
        true
    }

    open spec fn from_spec(message: String) -> ReadoutError {
        ReadoutError::Other(message)
    }
}

/// Passes a system read on: the text as it is, a refusal as a fatal failure
/// with the system's message.
pub fn system_text(read: SystemText) -> (result: Result<String, ReadoutError>)
    ensures
        text_view(result) == spec_system_text(read),
{
    match read {
        Ok(text) => Ok(text),
        Err(message) => Err(ReadoutError::from(message)),
    }
}

/// What [`system_text`] makes of a system read.
pub open spec fn spec_system_text(read: SystemText) -> Result<Seq<char>, ReadoutErrorView> {
    match read {
        Ok(text) => Ok(text@),
        Err(message) => Err(ReadoutErrorView::Other(message@)),
    }
}

} // verus!
