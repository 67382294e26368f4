use temi::v1::address::{is_short, MAX_TEXT};
use temi::v1::endpoints::{
    get_transcript_url, job_url, list_jobs_query, list_jobs_url, transcript_query, ACCOUNT, JOBS,
};
use temi::v1::TranscriptVersion;

#[test]
fn the_addresses_of_the_service() {
    assert_eq!(JOBS, "https://api.temi.com/v1/jobs");
    assert_eq!(ACCOUNT, "https://api.temi.com/v1/account");
}

#[test]
fn job_url_is_the_collection_a_slash_and_the_id() {
    let url = job_url("abc").unwrap();
    assert_eq!(url.as_str(), "https://api.temi.com/v1/jobs/abc");
    assert!(!url.as_str().contains('?'));
}

#[test]
fn job_url_of_several_plain_ids() {
    for id in ["job_123", "a", "0", "A-b_9", "ZXhhbXBsZQ"] {
        let url = job_url(id).unwrap();
        assert_eq!(url.as_str(), format!("{}/{}", JOBS, id));
        assert!(!url.as_str().contains('?'));
    }
}

#[test]
fn job_url_into_string_is_the_same_text() {
    let url = job_url("abc").unwrap();
    assert_eq!(url.into_string(), "https://api.temi.com/v1/jobs/abc");
}

#[test]
fn job_url_encodes_what_a_path_cannot_hold() {
    let url = job_url("a b").unwrap();
    assert_eq!(url.as_str(), "https://api.temi.com/v1/jobs/a%20b");
}

#[test]
fn job_url_of_an_id_with_a_question_mark_has_a_query() {
    let url = job_url("a?b=c").unwrap();
    assert_eq!(url.as_str(), "https://api.temi.com/v1/jobs/a?b=c");
}

#[test]
fn job_url_of_the_empty_id_keeps_the_slash() {
    let url = job_url("").unwrap();
    assert_eq!(url.as_str(), "https://api.temi.com/v1/jobs/");
}

#[test]
fn list_jobs_url_with_neither_has_no_query_string() {
    let url = list_jobs_url(None, None).unwrap();
    assert_eq!(url.as_str(), "https://api.temi.com/v1/jobs");
    assert!(!url.as_str().contains('?'));
}

#[test]
fn list_jobs_url_with_limit_and_cursor() {
    let url = list_jobs_url(Some(5), Some("job_123")).unwrap();
    assert_eq!(url.as_str(), "https://api.temi.com/v1/jobs?limit=5&starting_after=job_123");
}

#[test]
fn list_jobs_url_with_limit_alone() {
    let url = list_jobs_url(Some(25), None).unwrap();
    assert_eq!(url.as_str(), "https://api.temi.com/v1/jobs?limit=25");
}

#[test]
fn list_jobs_url_with_cursor_alone() {
    let url = list_jobs_url(None, Some("job_9")).unwrap();
    assert_eq!(url.as_str(), "https://api.temi.com/v1/jobs?starting_after=job_9");
}

#[test]
fn list_jobs_url_with_the_extreme_limits() {
    let url = list_jobs_url(Some(0), None).unwrap();
    assert_eq!(url.as_str(), "https://api.temi.com/v1/jobs?limit=0");
    let url = list_jobs_url(Some(u32::MAX), None).unwrap();
    assert_eq!(url.as_str(), "https://api.temi.com/v1/jobs?limit=4294967295");
}

#[test]
fn list_jobs_url_encodes_the_cursor() {
    let url = list_jobs_url(None, Some("a b&c=d")).unwrap();
    assert_eq!(url.as_str(), "https://api.temi.com/v1/jobs?starting_after=a+b%26c%3Dd");
}

#[test]
fn list_jobs_url_with_an_empty_cursor_still_names_the_key() {
    let url = list_jobs_url(None, Some("")).unwrap();
    assert_eq!(url.as_str(), "https://api.temi.com/v1/jobs?starting_after=");
}

#[test]
fn list_jobs_query_holds_the_given_keys_in_order() {
    assert_eq!(list_jobs_query(None, None), vec![]);
    assert_eq!(
        list_jobs_query(Some(5), None),
        vec![("limit".to_string(), "5".to_string())]
    );
    assert_eq!(
        list_jobs_query(None, Some("job_123")),
        vec![("starting_after".to_string(), "job_123".to_string())]
    );
    assert_eq!(
        list_jobs_query(Some(5), Some("job_123")),
        vec![
            ("limit".to_string(), "5".to_string()),
            ("starting_after".to_string(), "job_123".to_string()),
        ]
    );
}

#[test]
fn list_jobs_query_keeps_the_cursor_unencoded() {
    assert_eq!(
        list_jobs_query(None, Some("a b&c")),
        vec![("starting_after".to_string(), "a b&c".to_string())]
    );
}

#[test]
fn transcript_url_without_a_version_has_no_query_string() {
    let url = get_transcript_url("abc", None).unwrap();
    assert_eq!(url.as_str(), "https://api.temi.com/v1/jobs/abc/transcript");
    assert!(!url.as_str().contains('?'));
}

#[test]
fn transcript_url_with_the_latest_version() {
    let url = get_transcript_url("abc", Some(TranscriptVersion::Latest)).unwrap();
    assert_eq!(url.as_str(), "https://api.temi.com/v1/jobs/abc/transcript?version=latest");
}

#[test]
fn transcript_url_with_the_machine_version() {
    let url = get_transcript_url("abc", Some(TranscriptVersion::Machine)).unwrap();
    assert_eq!(url.as_str(), "https://api.temi.com/v1/jobs/abc/transcript?version=machine");
}

#[test]
fn transcript_query_names_the_version() {
    assert_eq!(
        transcript_query(TranscriptVersion::Latest),
        vec![("version".to_string(), "latest".to_string())]
    );
    assert_eq!(
        transcript_query(TranscriptVersion::Machine),
        vec![("version".to_string(), "machine".to_string())]
    );
}

#[test]
fn is_short_counts_characters() {
    assert!(is_short(""));
    assert!(is_short("job_123"));
    assert!(is_short(&"é".repeat(MAX_TEXT)));
    assert!(!is_short(&"a".repeat(MAX_TEXT + 1)));
}

#[test]
fn the_longest_cursor_is_taken() {
    let cursor = "a".repeat(MAX_TEXT);
    let url = list_jobs_url(Some(1), Some(&cursor)).unwrap();
    assert_eq!(url.as_str().len(), JOBS.len() + "?limit=1&starting_after=".len() + MAX_TEXT);
}
