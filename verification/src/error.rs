//! The error taxonomy of the client, with exact human-readable messages.

use vstd::prelude::*;

verus! {

use vstd::string::StringExecFns;
use crate::encode::append_decimal;
use crate::encode::decimal_string;

/// Why an invocation failed.  Every failure is reported as one of these and
/// carries the diagnostic text that the caller is shown.
#[derive(Debug, Clone)]
pub enum ChatError {
    /// The structured system prompt was not valid JSON.
    PromptParse(String),
    /// The request never completed: DNS, connection, TLS or I/O failure.
    Transport(String),
    /// The service answered with a non-success status; carries the status
    /// code and the response body text.
    HttpStatus { status: u16, body: String },
    /// The success response body did not have the expected JSON shape.
    ResponseParse(String),
    /// The response parsed but contained no choices.
    EmptyChoices,
}

/// The message shown to the caller for each error.
pub open spec fn error_message(e: ChatError) -> Seq<char> {
    match e {
        ChatError::PromptParse(d) => "Failed to parse the system prompt: "@ + d@,
        ChatError::Transport(d) => "Request error: "@ + d@,
        ChatError::HttpStatus { status, body } => "API request failed with status "@
            + decimal_string(status as nat) + ": "@ + body@,
        ChatError::ResponseParse(d) => "Failed to parse the API response: "@ + d@,
        ChatError::EmptyChoices => "API did not return any choices."@,
    }
}

impl ChatError {
    /// Renders the error as the single human-readable string handed to the
    /// caller.
    pub fn message(&self) -> (r: String)
        ensures
            r@ == error_message(*self),
    {
        match self {
            ChatError::PromptParse(d) => {
                let mut out = String::new();
                out.append("Failed to parse the system prompt: ");
                out.append(d.as_str());
                out
            },
            ChatError::Transport(d) => {
                let mut out = String::new();
                out.append("Request error: ");
                out.append(d.as_str());
                out
            },
            ChatError::HttpStatus { status, body } => {
                let mut out = String::new();
                out.append("API request failed with status ");
                append_decimal(&mut out, *status as u64);
                out.append(": ");
                out.append(body.as_str());
                out
            },
            ChatError::ResponseParse(d) => {
                let mut out = String::new();
                out.append("Failed to parse the API response: ");
                out.append(d.as_str());
                out
            },
            ChatError::EmptyChoices => {
                let mut out = String::new();
                out.append("API did not return any choices.");
                out
            },
        }
    }
}

} // verus!
