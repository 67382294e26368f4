use temi::v1::models::{Account, Job, Problem, SubmitJobOptions};
use temi::v1::{TranscriptFormat, TranscriptVersion};

#[test]
fn each_version_has_its_query_value() {
    assert_eq!(TranscriptVersion::Latest.to_query_str(), "latest");
    assert_eq!(TranscriptVersion::Machine.to_query_str(), "machine");
}

#[test]
fn each_format_has_its_mime_type() {
    assert_eq!(TranscriptFormat::PlainText.mime_type(), "text/plain");
    assert_eq!(TranscriptFormat::Json.mime_type(), "application/json");
    assert_eq!(TranscriptFormat::MsWord.mime_type(), "application/msword");
    assert_eq!(TranscriptFormat::Pdf.mime_type(), "application/pdf");
}

#[test]
fn the_mime_types_differ() {
    let all = [
        TranscriptFormat::PlainText,
        TranscriptFormat::Json,
        TranscriptFormat::MsWord,
        TranscriptFormat::Pdf,
    ];
    for (i, a) in all.iter().enumerate() {
        for (j, b) in all.iter().enumerate() {
            assert_eq!(i == j, a.mime_type() == b.mime_type());
        }
    }
}

#[test]
fn optional_fields_are_absent_not_empty() {
    let problem = Problem { problem_type: None, title: "Unauthorized".to_string(), detail: None };
    assert_eq!(problem.problem_type, None);
    assert_eq!(problem.detail, None);
    let options = SubmitJobOptions {
        media_url: "https://example.com/a.mp3".to_string(),
        callback_url: None,
        metadata: None,
    };
    assert_eq!(options.callback_url, None);
    assert_eq!(options.metadata, None);
}

#[test]
fn a_job_holds_what_the_service_reported() {
    let job = Job {
        id: "job_1".to_string(),
        status: "completed".to_string(),
        callback_url: None,
        web_url: Some("https://www.temi.com/editor/t/x".to_string()),
        duration_seconds: Some(61),
        name: "a.mp3".to_string(),
        metadata: None,
        failure: None,
        failure_detail: None,
    };
    assert_eq!(job.id, "job_1");
    assert_eq!(job.duration_seconds, Some(61));
    assert_eq!(job.failure, None);
}

#[test]
fn an_account_carries_its_balance() {
    let account = Account {
        balance: rust_decimal::Decimal::new(1250, 2),
        email: "a@example.com".to_string(),
    };
    assert_eq!(account.balance.to_string(), "12.50");
    assert_eq!(account.email, "a@example.com");
}
