//! What the client does with a reply, by operation and status code.

use vstd::prelude::*;

verus! {

/// 200 OK.
pub const OK: u16 = 200;

/// 204 No Content.
pub const NO_CONTENT: u16 = 204;

/// 400 Bad Request.
pub const BAD_REQUEST: u16 = 400;

/// 401 Unauthorized.
pub const UNAUTHORIZED: u16 = 401;

/// 404 Not Found.
pub const NOT_FOUND: u16 = 404;

/// 409 Conflict.
pub const CONFLICT: u16 = 409;

/// The operations of the service.
#[derive(Clone, Copy, Debug, PartialEq, Eq, Structural)]
pub enum Operation {
    SubmitJob,
    DeleteJob,
    GetAccountDetails,
    GetJobStatus,
    ListJobs,
    GetTranscript,
}

/// What is to be done with the body of a reply.
#[derive(Clone, Copy, Debug, PartialEq, Eq, Structural)]
pub enum Handling {
    /// The body is not read.
    Discard,
    /// The body is decoded as an account.
    Account,
    /// The body is decoded as a job.
    Job,
    /// The body is decoded as a list of jobs.
    Jobs,
    /// The body is decoded as a problem.
    Problem,
    /// The body is a transcript: it is copied to the output as it stands.
    Transcript,
    /// The operation has no answer to this status code, and no error value
    /// for it either: the caller cannot go on.
    Abort,
}

impl Operation {
    /// The dispatch table of each operation: how the body of a reply with
    /// `status` is handled.
    pub open spec fn handling_of(self, status: u16) -> Handling {
        match self {
            Operation::SubmitJob => Handling::Discard,
            Operation::DeleteJob => if status == NO_CONTENT {
                Handling::Discard
            } else {
                Handling::Problem
            },
            Operation::GetAccountDetails => if status == OK {
                Handling::Account
            } else {
                Handling::Problem
            },
            Operation::GetJobStatus => if status == OK {
                Handling::Job
            } else {
                Handling::Problem
            },
            Operation::ListJobs => if status == OK {
                Handling::Jobs
            } else {
                Handling::Abort
            },
            Operation::GetTranscript => if status == OK {
                Handling::Transcript
            } else {
                Handling::Abort
            },
        }
    }

    /// How the body of a reply with `status` to this operation is handled.
    pub fn handling(self, status: u16) -> (handling: Handling)
        ensures
            handling == self.handling_of(status),
    {
        match self {
            Operation::SubmitJob => Handling::Discard,
            Operation::DeleteJob => match status {
                204 => Handling::Discard,
                _ => Handling::Problem,
            },
            Operation::GetAccountDetails => match status {
                200 => Handling::Account,
                _ => Handling::Problem,
            },
            Operation::GetJobStatus => match status {
                200 => Handling::Job,
                _ => Handling::Problem,
            },
            Operation::ListJobs => match status {
                200 => Handling::Jobs,
                _ => Handling::Abort,
            },
            Operation::GetTranscript => match status {
                200 => Handling::Transcript,
                _ => Handling::Abort,
            },
        }
    }
}

/// The tables give every status code one handling. An operation with a typed
/// outcome reads its value on the one status of success and a problem on
/// every other; a listing and a transcript have an answer to 200 alone; the
/// reply to a submission is never read.
pub proof fn lemma_handling_table(status: u16)
    ensures
        Operation::SubmitJob.handling_of(status) == Handling::Discard,
        Operation::DeleteJob.handling_of(status) == Handling::Discard <==> status == NO_CONTENT,
        Operation::DeleteJob.handling_of(status) == Handling::Problem <==> status != NO_CONTENT,
        Operation::GetAccountDetails.handling_of(status) == Handling::Account <==> status == OK,
        Operation::GetAccountDetails.handling_of(status) == Handling::Problem <==> status != OK,
        Operation::GetJobStatus.handling_of(status) == Handling::Job <==> status == OK,
        Operation::GetJobStatus.handling_of(status) == Handling::Problem <==> status != OK,
        Operation::ListJobs.handling_of(status) == Handling::Jobs <==> status == OK,
        Operation::ListJobs.handling_of(status) == Handling::Abort <==> status != OK,
        Operation::GetTranscript.handling_of(status) == Handling::Transcript <==> status == OK,
        Operation::GetTranscript.handling_of(status) == Handling::Abort <==> status != OK,
{
}

} // verus!
