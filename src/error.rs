use vstd::prelude::*;

verus! {

/// Relies on nothing but the type's existence: `std::io::ErrorKind` is carried
/// through unchanged, as the kind of an OS failure reported by an allocation.
#[verifier::external_type_specification]
#[verifier::external_body]
pub struct ExIoErrorKind(std::io::ErrorKind);

/// Relies on `ErrorKind`'s `Clone`, which is derived on a `Copy` enum and so
/// yields the same kind.
pub assume_specification[ <std::io::ErrorKind as std::clone::Clone>::clone ](
    kind: &std::io::ErrorKind,
) -> (r: std::io::ErrorKind)
    ensures
        r == *kind,
;

/// The text `std::io::Error` gives for an error of kind `kind`.
pub uninterp spec fn io_kind_text(kind: std::io::ErrorKind) -> Seq<char>;

/// Relies on `std::io::Error::from(ErrorKind)` and its `Display`: the text
/// depends on the kind alone.
#[verifier::external_body]
fn io_kind_message(kind: std::io::ErrorKind) -> (r: String)
    ensures
        r@ == io_kind_text(kind),
{
    format!("{}", std::io::Error::from(kind))
}

/// The status the engine reports for a call that succeeded.
pub const NN_SUCCESS: u32 = 0;

/// Errors surfaced by the crate.
#[derive(Debug, Clone)]
pub enum Error {
    /// The engine rejected a call; the text is the engine's own description
    /// of the status it returned.
    NNError(String),
    /// The wrapper rejected a call before, or instead of, reaching the engine.
    WrapperError(String),
    /// The engine returned an error whose description is unavailable.
    Null,
    /// An allocation failed at the operating-system level.
    IoError(std::io::ErrorKind),
}

/// The error for a failed engine status whose description is `description`.
pub open spec fn error_of(description: Option<String>) -> Error {
    match description {
        Some(d) => Error::NNError(d),
        None => Error::Null,
    }
}

/// The outcome of an engine call that reported `status`.
pub open spec fn status_result(status: u32, description: Option<String>) -> Result<(), Error> {
    if status == NN_SUCCESS {
        Ok(())
    } else {
        Err(error_of(description))
    }
}

impl Error {
    /// The error for a failed engine status, given the engine's description
    /// of that status (`None` when the description is null or not UTF-8).
    pub fn from_description(description: Option<String>) -> (r: Error)
        ensures
            r == error_of(description),
    {
        match description {
            Some(d) => Error::NNError(d),
            None => Error::Null,
        }
    }

    /// The text of the error, as it is shown to a user.
    pub fn message(&self) -> (r: String)
        ensures
            self matches Error::NNError(m) ==> r@ == m@,
            self matches Error::WrapperError(m) ==> r@ == m@,
            self is Null ==> r@ == "null/unknown error message unavailable"@,
            self matches Error::IoError(k) ==> r@ == io_kind_text(*k),
    {
        match self {
            Error::NNError(m) => m.clone(),
            Error::WrapperError(m) => m.clone(),
            Error::Null => "null/unknown error message unavailable".to_string(),
            Error::IoError(k) => io_kind_message(*k),
        }
    }

    /// A wrapper error carrying `msg`.
    pub fn wrapper(msg: &str) -> (r: Error)
        ensures
            r matches Error::WrapperError(m) && m@ == msg@,
    {
        Error::WrapperError(msg.to_string())
    }
}

/// `Ok` exactly when the engine reported success; otherwise the error built
/// from the engine's description of `status`.
pub fn check_status(status: u32, description: Option<String>) -> (r: Result<(), Error>)
    ensures
        status == NN_SUCCESS <==> r is Ok,
        r == status_result(status, description),
{
    if status == NN_SUCCESS {
        Ok(())
    } else {
        Err(Error::from_description(description))
    }
}

} // verus!
