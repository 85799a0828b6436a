//! Verified core of a client for an OpenAI-compatible chat-completion API.
//!
//! The library builds the complete HTTP request (URL, authorization header
//! value, JSON body) from plain string inputs, and interprets the raw HTTP
//! response (status and body text) as either the model's reply or a
//! descriptive error.  The network call itself is left to the surrounding
//! application; everything on either side of it is specified and verified.

pub mod encode;
pub mod error;
pub mod jsonval;
pub mod prompt;
pub mod request;
pub mod response;
pub mod url;
