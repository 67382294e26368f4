//! Version 1 of the service's interface.
//!
//! A [`Client`] holds the credentials and builds the request of each
//! operation. The caller sends the request, asks [`reply::Operation::handling`]
//! what to do with the body of the reply, and hands the status code and the
//! decoded body to the function of [`results`] that gives the typed outcome.

pub mod address;
pub mod decimal;
pub mod endpoints;
pub mod header;
pub mod models;
pub mod reply;
pub mod request;
pub mod results;

use address::{parsed_view, url_parse, ParseError, Url, MAX_TEXT};
use endpoints::{
    get_transcript_url, job_address, job_url, list_jobs_address, list_jobs_url,
    optional_str_view, transcript_address, transcript_url_text, ACCOUNT, JOBS,
};
use header::{header_value_accepts, is_header_value};
use models::SubmitJobOptionsView;
use request::RequestView;
use vstd::prelude::*;

pub use models::{Account, Job, Problem, SubmitJobOptions, TranscriptFormat, TranscriptVersion};
pub use request::{Method, Request};
pub use results::{
    DeleteJobErrorKind, DeleteJobResult, GetAccountDetailsErrorKind, GetAccountDetailsResult,
    GetJobErrorKind, GetJobResult, ListJobsResult,
};

verus! {

/// The credentials of one user of the service.
#[derive(Debug)]
pub struct Client {
    authorization: String,
}

/// The request that was built, or the description of why its address could
/// not be.
pub open spec fn built_view(built: Result<Request, ParseError>) -> Result<RequestView, Seq<char>> {
    match built {
        Ok(request) => Ok(request@),
        Err(error) => Err(error@),
    }
}

impl Client {
    /// The value of the `Authorization` header that presents `api_key`.
    pub open spec fn bearer(api_key: Seq<char>) -> Seq<char> {
        "Bearer "@ + api_key
    }

    /// The value of the `Authorization` header of every request of this
    /// client.
    pub closed spec fn authorization_text(&self) -> Seq<char> {
        self.authorization@
    }

    /// A request of this client that carries no body.
    pub open spec fn bare_request(
        &self,
        method: Method,
        url: Seq<char>,
        accept: Option<Seq<char>>,
    ) -> RequestView {
        RequestView {
            method,
            url,
            authorization: self.authorization_text(),
            accept,
            json: None,
        }
    }

    /// A request of this client to a parsed address, or the failure of the
    /// parser.
    pub open spec fn request_to(
        &self,
        method: Method,
        address: Result<Seq<char>, Seq<char>>,
        accept: Option<Seq<char>>,
    ) -> Result<RequestView, Seq<char>> {
        match address {
            Ok(url) => Ok(self.bare_request(method, url, accept)),
            Err(error) => Err(error),
        }
    }

    /// A client that presents `api_key` with every request. The key has to
    /// be one that can be sent: see [`Client::try_new`].
    pub fn new(api_key: &str) -> (client: Client)
        requires
            is_header_value(Self::bearer(api_key@)),
        ensures
            client.authorization_text() == Self::bearer(api_key@),
    {
        Client { authorization: String::from_str("Bearer ").concat(api_key) }
    }

    /// A client that presents `api_key` with every request, if the key,
    /// behind `Bearer `, can be sent as the value of a header.
    pub fn try_new(api_key: &str) -> (client: Option<Client>)
        ensures
            client is Some <==> is_header_value(Self::bearer(api_key@)),
            client matches Some(client) ==> client.authorization_text() == Self::bearer(
                api_key@,
            ),
    {
        let authorization = String::from_str("Bearer ").concat(api_key);
        if header_value_accepts(authorization.as_str()) {
            Some(Client::new(api_key))
        } else {
            None
        }
    }

    /// The value of the `Authorization` header of every request.
    pub fn authorization(&self) -> (value: &str)
        ensures
            value@ == self.authorization_text(),
    {
        self.authorization.as_str()
    }

    /// A request with this client's credentials and no body.
    pub fn request(&self, method: Method, url: String, accept: Option<String>) -> (request: Request)
        ensures
            request@ == self.bare_request(method, url@, models::optional_text(accept)),
    {
        Request { method, url, authorization: self.authorization.clone(), accept, json: None }
    }

    /// A request with this client's credentials to `address`, if it was
    /// parsed; else the failure of the parser.
    pub fn request_at(
        &self,
        method: Method,
        address: Result<Url, ParseError>,
        accept: Option<String>,
    ) -> (built: Result<Request, ParseError>)
        ensures
            built_view(built) == self.request_to(
                method,
                parsed_view(address),
                models::optional_text(accept),
            ),
    {
        match address {
            Ok(url) => Ok(self.request(method, url.into_string(), accept)),
            Err(error) => Err(error),
        }
    }

    /// The request that submits the media at `media_url` for transcription:
    /// a `POST` to the collection of jobs, with the three values as its
    /// body.
    pub fn submit_job(&self, media_url: &str, callback_url: &str, metadata: &str) -> (request:
        Request)
        ensures
            request@ == (RequestView {
                json: Some(
                    SubmitJobOptionsView {
                        media_url: media_url@,
                        callback_url: Some(callback_url@),
                        metadata: Some(metadata@),
                    },
                ),
                ..self.bare_request(Method::Post, JOBS@, None)
            }),
    {
        let options = SubmitJobOptions {
            media_url: media_url.to_owned(),
            callback_url: Some(callback_url.to_owned()),
            metadata: Some(metadata.to_owned()),
        };
        Request {
            method: Method::Post,
            url: String::from_str(JOBS),
            authorization: self.authorization.clone(),
            accept: None,
            json: Some(options),
        }
    }

    /// The request that deletes the job `job_id`: a `DELETE` to the job's
    /// address.
    pub fn delete_job(&self, job_id: &str) -> (built: Result<Request, ParseError>)
        ensures
            built_view(built) == self.request_to(Method::Delete, job_address(job_id@), None),
    {
        self.request_at(Method::Delete, job_url(job_id), None)
    }

    /// The request that reads the account: a `GET` to the account's address.
    pub fn get_account_details(&self) -> (request: Request)
        ensures
            request@ == self.bare_request(Method::Get, ACCOUNT@, None),
    {
        self.request(Method::Get, String::from_str(ACCOUNT), None)
    }

    /// The request that reads the job `job_id`: a `GET` to the job's
    /// address.
    pub fn get_job_status(&self, job_id: &str) -> (built: Result<Request, ParseError>)
        ensures
            built_view(built) == self.request_to(Method::Get, job_address(job_id@), None),
    {
        self.request_at(Method::Get, job_url(job_id), None)
    }

    /// The request that lists jobs: a `GET` to the address of the listing.
    pub fn list_jobs(&self, limit: Option<u32>, starting_after: Option<&str>) -> (built: Result<
        Request,
        ParseError,
    >)
        requires
            starting_after matches Some(cursor) ==> cursor@.len() <= MAX_TEXT,
        ensures
            built_view(built) == self.request_to(
                Method::Get,
                list_jobs_address(limit, optional_str_view(starting_after)),
                None,
            ),
            built is Ok <==> url_parse(JOBS@) is Ok,
    {
        self.request_at(Method::Get, list_jobs_url(limit, starting_after), None)
    }

    /// The request that reads the transcript of the job `job_id`: a `GET` to
    /// the transcript's address that accepts the MIME type of `format`.
    pub fn get_transcript(
        &self,
        job_id: &str,
        format: TranscriptFormat,
        version: Option<TranscriptVersion>,
    ) -> (built: Result<Request, ParseError>)
        requires
            version is Some ==> job_id@.len() <= MAX_TEXT,
        ensures
            built_view(built) == self.request_to(
                Method::Get,
                transcript_address(job_id@, version),
                Some(format.mime_text()),
            ),
            built is Ok <==> url_parse(transcript_url_text(job_id@)) is Ok,
    {
        let accept = String::from_str(format.mime_type());
        self.request_at(Method::Get, get_transcript_url(job_id, version), Some(accept))
    }
}

} // verus!
