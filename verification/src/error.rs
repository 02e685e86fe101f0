//! The error that ends a run: a message, and the exit code of the process.

use serde_json::Error as JsonError;
use vstd::prelude::*;
use vstd::std_specs::convert::FromSpecImpl;
use vstd::string::to_string_from_display_ensures;

verus! {

/// A message and the exit code that goes with it.
#[derive(Debug, PartialEq, Eq)]
pub struct Error {
    pub message: String,
    pub code: i32,
}

/// What an [`Error`] holds.
#[verifier::ext_equal]
pub struct ErrorView {
    pub message: Seq<char>,
    pub code: i32,
}

impl View for Error {
    type V = ErrorView;

    open spec fn view(&self) -> ErrorView {
        ErrorView { message: self.message@, code: self.code }
    }
}

/// The exit code of an ordinary failure is 1.
pub open spec fn fatal(message: Seq<char>) -> ErrorView {
    ErrorView { message, code: 1 }
}

impl Clone for Error {
    fn clone(&self) -> (r: Self)
        ensures
            r@ == self@,
    {
        Error { message: self.message.clone(), code: self.code }
    }
}

impl Error {
    /// An error with an exit code of its own.
    pub fn with_code(message: &str, code: i32) -> (r: Self)
        ensures
            r@ == (ErrorView { message: message@, code }),
    {
        Error { message: message.to_string(), code }
    }

    /// An ordinary failure.
    pub fn die(message: &str) -> (r: Self)
        ensures
            r@ == fatal(message@),
    {
        Self::with_code(message, 1)
    }

    /// The error as it is shown: its message.
    pub fn text(&self) -> (r: String)
        ensures
            r@ == self@.message,
    {
        self.message.clone()
    }
}

/// Declares `std::io::Error`. Nothing is said of what is inside.
#[verifier::external_type_specification]
#[verifier::external_body]
pub struct ExIoError(std::io::Error);

/// Declares `serde_json::Error`. Nothing is said of what is inside.
#[verifier::external_type_specification]
#[verifier::external_body]
pub struct ExJsonError(JsonError);

/// A failure of the file system or the terminal is fatal, and is shown as it describes itself.
impl From<std::io::Error> for Error {
    fn from(e: std::io::Error) -> (r: Self)
        ensures
            r.code == 1,
            to_string_from_display_ensures(&e, r.message),
    {
        Error { message: e.to_string(), code: 1 }
    }
}

impl FromSpecImpl<std::io::Error> for Error {
    open spec fn obeys_from_spec() -> bool {
        false
    }

    open spec fn from_spec(e: std::io::Error) -> Self {
        arbitrary()
    }
}

/// A saved plan that cannot be read or written as JSON is a fatal error too.
impl From<JsonError> for Error {
    fn from(e: JsonError) -> (r: Self)
        ensures
            r.code == 1,
            exists|t: String|
                #[trigger] to_string_from_display_ensures(&e, t) && r.message@ == "json: "@ + t@,
    {
        let t = e.to_string();
        let message = "json: ".to_string().concat(t.as_str());
        assert(to_string_from_display_ensures(&e, t));
        Error { message, code: 1 }
    }
}

impl FromSpecImpl<JsonError> for Error {
    open spec fn obeys_from_spec() -> bool {
        false
    }

    open spec fn from_spec(e: JsonError) -> Self {
        arbitrary()
    }
}

} // verus!
