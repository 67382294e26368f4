//! The requests that the client asks its caller to send.

use super::models::{optional_text, SubmitJobOptions, SubmitJobOptionsView};
use vstd::prelude::*;

verus! {

/// The HTTP method of a request.
#[derive(Clone, Copy, Debug, PartialEq, Eq, Structural)]
pub enum Method {
    Get,
    Post,
    Delete,
}

/// One HTTP request, ready to be sent.
#[derive(Debug, PartialEq, Eq)]
pub struct Request {
    pub method: Method,
    /// The address that the request goes to.
    pub url: String,
    /// The value of the `Authorization` header.
    pub authorization: String,
    /// The value of the `Accept` header, if the request carries one.
    pub accept: Option<String>,
    /// The value that is sent as the JSON body, if the request has a body.
    pub json: Option<SubmitJobOptions>,
}

/// [`Request`] as a mathematical value.
pub struct RequestView {
    pub method: Method,
    pub url: Seq<char>,
    pub authorization: Seq<char>,
    pub accept: Option<Seq<char>>,
    pub json: Option<SubmitJobOptionsView>,
}

impl View for Request {
    type V = RequestView;

    open spec fn view(&self) -> RequestView {
        RequestView {
            method: self.method,
            url: self.url@,
            authorization: self.authorization@,
            accept: optional_text(self.accept),
            json: match self.json {
                Some(options) => Some(options@),
                None => None,
            },
        }
    }
}

} // verus!
