//! A client for the Temi transcription service that performs no I/O of its own.
//!
//! The library builds the requests of the service's operations and reads the
//! replies: the caller sends each [`v1::Request`] over a transport of its own
//! choosing and hands back the status code and the decoded body.

pub mod v1;
