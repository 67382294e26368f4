//! The values that the service and the client exchange.

use vstd::prelude::*;

verus! {

/// `rust_decimal::Decimal`, the type of an account's balance. The library
/// carries a balance from the decoded reply to the caller and never looks
/// inside it.
#[verifier::external_type_specification]
#[verifier::external_body]
pub struct ExDecimal(rust_decimal::Decimal);

/// The body of a reply that reports a failure.
#[derive(Debug, PartialEq, Eq)]
pub struct Problem {
    /// The category of the failure, the `type` member of the body.
    pub problem_type: Option<String>,
    /// A summary for a human reader.
    pub title: String,
    pub detail: Option<String>,
}

/// The body of the request that submits a job.
#[derive(Debug, PartialEq, Eq)]
pub struct SubmitJobOptions {
    pub media_url: String,
    pub callback_url: Option<String>,
    pub metadata: Option<String>,
}

/// [`SubmitJobOptions`] as a mathematical value.
pub struct SubmitJobOptionsView {
    pub media_url: Seq<char>,
    pub callback_url: Option<Seq<char>>,
    pub metadata: Option<Seq<char>>,
}

/// The text that an optional string holds, if any.
pub open spec fn optional_text(text: Option<String>) -> Option<Seq<char>> {
    match text {
        Some(text) => Some(text@),
        None => None,
    }
}

impl View for SubmitJobOptions {
    type V = SubmitJobOptionsView;

    open spec fn view(&self) -> SubmitJobOptionsView {
        SubmitJobOptionsView {
            media_url: self.media_url@,
            callback_url: optional_text(self.callback_url),
            metadata: optional_text(self.metadata),
        }
    }
}

/// The shape of the service's answer to a submission. The client does not
/// read that answer.
#[derive(Debug, PartialEq, Eq)]
pub struct SubmitJobResponse {
    id: String,
    status: String,
    created_on: String,
}

/// The account that an API key belongs to.
#[derive(Debug, PartialEq)]
pub struct Account {
    pub balance: rust_decimal::Decimal,
    pub email: String,
}

/// A transcription job as the service reports it.
#[derive(Debug, PartialEq, Eq)]
pub struct Job {
    pub id: String,
    pub status: String,
    pub callback_url: Option<String>,
    pub web_url: Option<String>,
    pub duration_seconds: Option<u64>,
    pub name: String,
    pub metadata: Option<String>,
    pub failure: Option<String>,
    pub failure_detail: Option<String>,
}

/// Which revision of a transcript is asked for.
#[derive(Clone, Copy, Debug, PartialEq, Eq, Structural)]
pub enum TranscriptVersion {
    Latest,
    Machine,
}

impl TranscriptVersion {
    /// The value of the `version` query parameter that selects this revision.
    pub open spec fn query_text(self) -> Seq<char> {
        match self {
            TranscriptVersion::Latest => "latest"@,
            TranscriptVersion::Machine => "machine"@,
        }
    }

    pub fn to_query_str(&self) -> (text: &'static str)
        ensures
            text@ == self.query_text(),
    {
        match self {
            TranscriptVersion::Latest => "latest",
            TranscriptVersion::Machine => "machine",
        }
    }
}

/// The document format in which a transcript is asked for.
#[derive(Clone, Copy, Debug, PartialEq, Eq, Structural)]
pub enum TranscriptFormat {
    PlainText,
    Json,
    MsWord,
    Pdf,
}

impl TranscriptFormat {
    /// The MIME type that stands for this format in an `Accept` header.
    pub open spec fn mime_text(self) -> Seq<char> {
        match self {
            TranscriptFormat::PlainText => "text/plain"@,
            TranscriptFormat::Json => "application/json"@,
            TranscriptFormat::MsWord => "application/msword"@,
            TranscriptFormat::Pdf => "application/pdf"@,
        }
    }

    pub fn mime_type(&self) -> (text: &'static str)
        ensures
            text@ == self.mime_text(),
    {
        match self {
            TranscriptFormat::PlainText => "text/plain",
            TranscriptFormat::Json => "application/json",
            TranscriptFormat::MsWord => "application/msword",
            TranscriptFormat::Pdf => "application/pdf",
        }
    }
}

/// The MIME type of each format, character by character. No two formats
/// share one.
pub proof fn lemma_mime_texts()
    ensures
        TranscriptFormat::PlainText.mime_text() == seq![
            't', 'e', 'x', 't', '/', 'p', 'l', 'a', 'i', 'n',
        ],
        TranscriptFormat::Json.mime_text() == seq![
            'a', 'p', 'p', 'l', 'i', 'c', 'a', 't', 'i', 'o', 'n', '/', 'j', 's', 'o', 'n',
        ],
        TranscriptFormat::MsWord.mime_text() == seq![
            'a', 'p', 'p', 'l', 'i', 'c', 'a', 't', 'i', 'o', 'n', '/', 'm', 's', 'w', 'o', 'r',
            'd',
        ],
        TranscriptFormat::Pdf.mime_text() == seq![
            'a', 'p', 'p', 'l', 'i', 'c', 'a', 't', 'i', 'o', 'n', '/', 'p', 'd', 'f',
        ],
        forall|a: TranscriptFormat, b: TranscriptFormat|
            a.mime_text() == b.mime_text() ==> a == b,
{
    reveal_strlit("text/plain");
    reveal_strlit("application/json");
    reveal_strlit("application/msword");
    reveal_strlit("application/pdf");
    let plain = TranscriptFormat::PlainText.mime_text();
    let json = TranscriptFormat::Json.mime_text();
    let word = TranscriptFormat::MsWord.mime_text();
    let pdf = TranscriptFormat::Pdf.mime_text();
    assert(plain =~= seq!['t', 'e', 'x', 't', '/', 'p', 'l', 'a', 'i', 'n']);
    assert(json =~= seq![
        'a', 'p', 'p', 'l', 'i', 'c', 'a', 't', 'i', 'o', 'n', '/', 'j', 's', 'o', 'n',
    ]);
    assert(word =~= seq![
        'a', 'p', 'p', 'l', 'i', 'c', 'a', 't', 'i', 'o', 'n', '/', 'm', 's', 'w', 'o', 'r', 'd',
    ]);
    assert(pdf =~= seq![
        'a', 'p', 'p', 'l', 'i', 'c', 'a', 't', 'i', 'o', 'n', '/', 'p', 'd', 'f',
    ]);
    assert(plain.len() == 10 && json.len() == 16 && word.len() == 18 && pdf.len() == 15);
}

/// The query value of each revision, character by character. The two differ.
pub proof fn lemma_query_texts()
    ensures
        TranscriptVersion::Latest.query_text() == seq!['l', 'a', 't', 'e', 's', 't'],
        TranscriptVersion::Machine.query_text() == seq!['m', 'a', 'c', 'h', 'i', 'n', 'e'],
        TranscriptVersion::Latest.query_text() != TranscriptVersion::Machine.query_text(),
{
    reveal_strlit("latest");
    reveal_strlit("machine");
    assert("latest"@ =~= seq!['l', 'a', 't', 'e', 's', 't']);
    assert("machine"@ =~= seq!['m', 'a', 'c', 'h', 'i', 'n', 'e']);
    assert("latest"@.len() != "machine"@.len());
}

} // verus!
