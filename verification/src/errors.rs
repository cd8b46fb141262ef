//! The error family of the optimizer: a general error, an LLM-call error
//! carrying exception details, and a validation error for bad user input.
//! Each renders itself to text through a method of its own.

use vstd::prelude::*;
use crate::text::{str_to_chars, chars_to_string, push_all};

verus! {

/// A general failure, described by its message.
#[derive(Debug)]
pub struct GlueError {
    pub message: String,
}

impl GlueError {
    pub fn new(msg: &str) -> (r: GlueError)
        ensures
            r.message@ == msg@,
    {
        GlueError { message: chars_to_string(&str_to_chars(msg)) }
    }

    /// The rendered form: the message itself.
    pub fn display_string(&self) -> (r: String)
        ensures
            r@ == self.message@,
    {
        chars_to_string(&str_to_chars(self.message.as_str()))
    }
}

/// The rendered form of an LLM error.
pub open spec fn llm_error_text(message: Seq<char>, exception_details: Seq<char>) -> Seq<char> {
    "LLM exception\nException: "@ + message + "\nException logs: "@ + exception_details
}

/// A failure during an LLM exchange, with the underlying exception text.
#[derive(Debug)]
pub struct GlueLLMError {
    pub message: String,
    pub exception_details: String,
}

impl GlueLLMError {
    pub fn new(msg: &str, exception: &str) -> (r: GlueLLMError)
        ensures
            r.message@ == msg@,
            r.exception_details@ == exception@,
    {
        GlueLLMError {
            message: chars_to_string(&str_to_chars(msg)),
            exception_details: chars_to_string(&str_to_chars(exception)),
        }
    }

    /// The rendered form: the exception banner, message and details.
    pub fn display_string(&self) -> (r: String)
        ensures
            r@ == llm_error_text(self.message@, self.exception_details@),
    {
        let mut out = str_to_chars("LLM exception\nException: ");
        push_all(&mut out, &str_to_chars(self.message.as_str()));
        push_all(&mut out, &str_to_chars("\nException logs: "));
        push_all(&mut out, &str_to_chars(self.exception_details.as_str()));
        proof {
            assert(out@ =~= llm_error_text(self.message@, self.exception_details@));
        }
        chars_to_string(&out)
    }
}

/// The rendered form of a validation error.
pub open spec fn validation_error_text(message: Seq<char>, exception_details: Seq<char>) -> Seq<
    char,
> {
    "[Invalid user input detected]\nException: "@ + message + "\nException logs: "@
        + exception_details
}

/// Invalid user input, with the underlying exception text.
#[derive(Debug)]
pub struct GlueValidationError {
    pub message: String,
    pub exception_details: String,
}

impl GlueValidationError {
    pub fn new(msg: &str, exception: &str) -> (r: GlueValidationError)
        ensures
            r.message@ == msg@,
            r.exception_details@ == exception@,
    {
        GlueValidationError {
            message: chars_to_string(&str_to_chars(msg)),
            exception_details: chars_to_string(&str_to_chars(exception)),
        }
    }

    /// The rendered form: the validation banner, message and details.
    pub fn display_string(&self) -> (r: String)
        ensures
            r@ == validation_error_text(self.message@, self.exception_details@),
    {
        let mut out = str_to_chars("[Invalid user input detected]\nException: ");
        push_all(&mut out, &str_to_chars(self.message.as_str()));
        push_all(&mut out, &str_to_chars("\nException logs: "));
        push_all(&mut out, &str_to_chars(self.exception_details.as_str()));
        proof {
            assert(out@ =~= validation_error_text(self.message@, self.exception_details@));
        }
        chars_to_string(&out)
    }
}

impl From<GlueLLMError> for GlueError {
    fn from(err: GlueLLMError) -> (r: GlueError) {
        GlueError { message: err.display_string() }
    }
}

impl vstd::std_specs::convert::FromSpecImpl<GlueLLMError> for GlueError {
    open spec fn obeys_from_spec() -> bool {
        false
    }

    open spec fn from_spec(t: GlueLLMError) -> GlueError {
        arbitrary()
    }
}

impl From<GlueValidationError> for GlueError {
    fn from(err: GlueValidationError) -> (r: GlueError) {
        GlueError { message: err.display_string() }
    }
}

impl vstd::std_specs::convert::FromSpecImpl<GlueValidationError> for GlueError {
    open spec fn obeys_from_spec() -> bool {
        false
    }

    open spec fn from_spec(t: GlueValidationError) -> GlueError {
        arbitrary()
    }
}

} // verus!
