//! The typed outcome of each operation, read off the status code of the
//! reply and its decoded body.

use super::models::{Account, Job, Problem};
use super::reply::{BAD_REQUEST, CONFLICT, NOT_FOUND, NO_CONTENT, OK, UNAUTHORIZED};
use vstd::prelude::*;

verus! {

/// Why a job could not be read.
#[derive(Debug, PartialEq)]
pub enum GetJobErrorKind {
    InvalidParameters(Problem),
    JobNotFound(Problem),
    /// Any other status code, with the code.
    Other(u16, Problem),
}

/// Why a job could not be deleted.
#[derive(Debug, PartialEq)]
pub enum DeleteJobErrorKind {
    InvalidParameters(Problem),
    JobNotFound(Problem),
    /// The job exists and is not yet in a state in which it can be deleted.
    JobNotTranscribed(Problem),
    /// Any other status code, with the code.
    Other(u16, Problem),
}

/// Why the account could not be read.
#[derive(Debug, PartialEq)]
pub enum GetAccountDetailsErrorKind {
    Unauthorized(Problem),
    /// Any other status code, with the code.
    Other(u16, Problem),
}

pub type GetJobResult = Result<Job, GetJobErrorKind>;

pub type ListJobsResult = Result<Vec<Job>, GetJobErrorKind>;

pub type DeleteJobResult = Result<(), DeleteJobErrorKind>;

pub type GetAccountDetailsResult = Result<Account, GetAccountDetailsErrorKind>;

impl GetJobErrorKind {
    /// The error that a failed reply with `status` stands for.
    pub open spec fn for_status(status: u16, problem: Problem) -> GetJobErrorKind {
        if status == BAD_REQUEST {
            GetJobErrorKind::InvalidParameters(problem)
        } else if status == NOT_FOUND {
            GetJobErrorKind::JobNotFound(problem)
        } else {
            GetJobErrorKind::Other(status, problem)
        }
    }

    /// The problem that the service reported.
    pub open spec fn reported(self) -> Problem {
        match self {
            GetJobErrorKind::InvalidParameters(problem) => problem,
            GetJobErrorKind::JobNotFound(problem) => problem,
            GetJobErrorKind::Other(_, problem) => problem,
        }
    }

    /// The problem that the service reported.
    pub fn problem(&self) -> (problem: &Problem)
        ensures
            *problem == self.reported(),
    {
        match self {
            GetJobErrorKind::InvalidParameters(problem) => problem,
            GetJobErrorKind::JobNotFound(problem) => problem,
            GetJobErrorKind::Other(_, problem) => problem,
        }
    }
}

impl DeleteJobErrorKind {
    /// The error that a failed reply with `status` stands for.
    pub open spec fn for_status(status: u16, problem: Problem) -> DeleteJobErrorKind {
        if status == BAD_REQUEST {
            DeleteJobErrorKind::InvalidParameters(problem)
        } else if status == NOT_FOUND {
            DeleteJobErrorKind::JobNotFound(problem)
        } else if status == CONFLICT {
            DeleteJobErrorKind::JobNotTranscribed(problem)
        } else {
            DeleteJobErrorKind::Other(status, problem)
        }
    }

    /// The problem that the service reported.
    pub open spec fn reported(self) -> Problem {
        match self {
            DeleteJobErrorKind::InvalidParameters(problem) => problem,
            DeleteJobErrorKind::JobNotFound(problem) => problem,
            DeleteJobErrorKind::JobNotTranscribed(problem) => problem,
            DeleteJobErrorKind::Other(_, problem) => problem,
        }
    }

    /// The problem that the service reported.
    pub fn problem(&self) -> (problem: &Problem)
        ensures
            *problem == self.reported(),
    {
        match self {
            DeleteJobErrorKind::InvalidParameters(problem) => problem,
            DeleteJobErrorKind::JobNotFound(problem) => problem,
            DeleteJobErrorKind::JobNotTranscribed(problem) => problem,
            DeleteJobErrorKind::Other(_, problem) => problem,
        }
    }
}

impl GetAccountDetailsErrorKind {
    /// The error that a failed reply with `status` stands for.
    pub open spec fn for_status(status: u16, problem: Problem) -> GetAccountDetailsErrorKind {
        if status == UNAUTHORIZED {
            GetAccountDetailsErrorKind::Unauthorized(problem)
        } else {
            GetAccountDetailsErrorKind::Other(status, problem)
        }
    }

    /// The problem that the service reported.
    pub open spec fn reported(self) -> Problem {
        match self {
            GetAccountDetailsErrorKind::Unauthorized(problem) => problem,
            GetAccountDetailsErrorKind::Other(_, problem) => problem,
        }
    }

    /// The problem that the service reported.
    pub fn problem(&self) -> (problem: &Problem)
        ensures
            *problem == self.reported(),
    {
        match self {
            GetAccountDetailsErrorKind::Unauthorized(problem) => problem,
            GetAccountDetailsErrorKind::Other(_, problem) => problem,
        }
    }
}

/// The outcome of a deletion: success on 204, else the error of the status.
pub open spec fn delete_job_outcome(status: u16, body: Result<(), Problem>) -> DeleteJobResult {
    if status == NO_CONTENT {
        Ok(())
    } else {
        Err(DeleteJobErrorKind::for_status(status, body->Err_0))
    }
}

/// The outcome of reading the account: the account on 200, else the error of
/// the status.
pub open spec fn get_account_details_outcome(
    status: u16,
    body: Result<Account, Problem>,
) -> GetAccountDetailsResult {
    if status == OK {
        Ok(body->Ok_0)
    } else {
        Err(GetAccountDetailsErrorKind::for_status(status, body->Err_0))
    }
}

/// The outcome of reading a job: the job on 200, else the error of the
/// status.
pub open spec fn get_job_status_outcome(status: u16, body: Result<Job, Problem>) -> GetJobResult {
    if status == OK {
        Ok(body->Ok_0)
    } else {
        Err(GetJobErrorKind::for_status(status, body->Err_0))
    }
}

/// Reads the reply to a deletion. `body` is the decoded body of the reply:
/// nothing where the status is 204, the reported problem otherwise.
pub fn delete_job_result(status: u16, body: Result<(), Problem>) -> (result: DeleteJobResult)
    requires
        body is Ok <==> status == NO_CONTENT,
    ensures
        result == delete_job_outcome(status, body),
{
    match body {
        Ok(()) => Ok(()),
        Err(problem) => match status {
            400 => Err(DeleteJobErrorKind::InvalidParameters(problem)),
            404 => Err(DeleteJobErrorKind::JobNotFound(problem)),
            409 => Err(DeleteJobErrorKind::JobNotTranscribed(problem)),
            other => Err(DeleteJobErrorKind::Other(other, problem)),
        },
    }
}

/// Reads the reply to a request for the account. `body` is the decoded body
/// of the reply: the account where the status is 200, the reported problem
/// otherwise.
pub fn get_account_details_result(status: u16, body: Result<Account, Problem>) -> (result:
    GetAccountDetailsResult)
    requires
        body is Ok <==> status == OK,
    ensures
        result == get_account_details_outcome(status, body),
{
    match body {
        Ok(account) => Ok(account),
        Err(problem) => match status {
            401 => Err(GetAccountDetailsErrorKind::Unauthorized(problem)),
            other => Err(GetAccountDetailsErrorKind::Other(other, problem)),
        },
    }
}

/// Reads the reply to a request for a job. `body` is the decoded body of the
/// reply: the job where the status is 200, the reported problem otherwise.
pub fn get_job_status_result(status: u16, body: Result<Job, Problem>) -> (result: GetJobResult)
    requires
        body is Ok <==> status == OK,
    ensures
        result == get_job_status_outcome(status, body),
{
    match body {
        Ok(job) => Ok(job),
        Err(problem) => match status {
            400 => Err(GetJobErrorKind::InvalidParameters(problem)),
            404 => Err(GetJobErrorKind::JobNotFound(problem)),
            other => Err(GetJobErrorKind::Other(other, problem)),
        },
    }
}

/// Reads the reply to a listing. Only a reply with status 200 has an
/// outcome: `jobs` is its decoded body.
pub fn list_jobs_result(status: u16, jobs: Vec<Job>) -> (result: ListJobsResult)
    requires
        status == OK,
    ensures
        result == Ok::<Vec<Job>, GetJobErrorKind>(jobs),
{
    Ok(jobs)
}

/// The table of a deletion gives every status code one outcome: success to
/// 204 alone, and to each other code the one error that names it or, for a
/// code with no name of its own, the catch-all with that code.
pub proof fn lemma_delete_job_dispatch(status: u16, body: Result<(), Problem>)
    ensures
        delete_job_outcome(status, body) is Ok <==> status == NO_CONTENT,
        delete_job_outcome(status, body) matches Err(error) ==> {
            &&& error.reported() == body->Err_0
            &&& (error is InvalidParameters <==> status == BAD_REQUEST)
            &&& (error is JobNotFound <==> status == NOT_FOUND)
            &&& (error is JobNotTranscribed <==> status == CONFLICT)
            &&& (error is Other <==> status != BAD_REQUEST && status != NOT_FOUND && status
                != CONFLICT)
            &&& (error is Other ==> error->Other_0 == status)
        },
{
}

/// The table of reading the account gives every status code one outcome:
/// the account to 200 alone, `Unauthorized` to 401 alone, and the catch-all
/// with its code to every other.
pub proof fn lemma_get_account_details_dispatch(status: u16, body: Result<Account, Problem>)
    ensures
        get_account_details_outcome(status, body) is Ok <==> status == OK,
        get_account_details_outcome(status, body) matches Ok(account) ==> account == body->Ok_0,
        get_account_details_outcome(status, body) matches Err(error) ==> {
            &&& error.reported() == body->Err_0
            &&& (error is Unauthorized <==> status == UNAUTHORIZED)
            &&& (error is Other <==> status != UNAUTHORIZED)
            &&& (error is Other ==> error->Other_0 == status)
        },
{
}

/// The table of reading a job gives every status code one outcome: the job
/// to 200 alone, and to each other code the one error that names it or the
/// catch-all with that code.
pub proof fn lemma_get_job_status_dispatch(status: u16, body: Result<Job, Problem>)
    ensures
        get_job_status_outcome(status, body) is Ok <==> status == OK,
        get_job_status_outcome(status, body) matches Ok(job) ==> job == body->Ok_0,
        get_job_status_outcome(status, body) matches Err(error) ==> {
            &&& error.reported() == body->Err_0
            &&& (error is InvalidParameters <==> status == BAD_REQUEST)
            &&& (error is JobNotFound <==> status == NOT_FOUND)
            &&& (error is Other <==> status != BAD_REQUEST && status != NOT_FOUND)
            &&& (error is Other ==> error->Other_0 == status)
        },
{
}

} // verus!
