use temi::v1::models::SubmitJobOptions;
use temi::v1::{Client, Method, Request, TranscriptFormat, TranscriptVersion};

fn client() -> Client {
    Client::try_new("secret").unwrap()
}

#[test]
fn a_client_presents_the_key_as_a_bearer_token() {
    assert_eq!(client().authorization(), "Bearer secret");
}

#[test]
fn a_key_with_a_line_break_is_refused() {
    assert!(Client::try_new("sec\nret").is_none());
    assert!(Client::try_new("secret\r").is_none());
    assert!(Client::try_new("\u{7f}").is_none());
    assert!(Client::try_new("\u{0}").is_none());
}

#[test]
fn a_key_with_a_tab_or_text_beyond_ascii_is_taken() {
    assert_eq!(Client::try_new("a\tb").unwrap().authorization(), "Bearer a\tb");
    assert_eq!(Client::try_new("clé").unwrap().authorization(), "Bearer clé");
    assert_eq!(Client::try_new("").unwrap().authorization(), "Bearer ");
}

#[test]
fn new_agrees_with_try_new_on_a_key_that_is_taken() {
    assert_eq!(Client::new("secret").authorization(), "Bearer secret");
}

#[test]
fn submit_job_posts_the_options_to_the_collection() {
    let request = client().submit_job("https://example.com/a.mp3", "https://example.com/done", "m");
    assert_eq!(
        request,
        Request {
            method: Method::Post,
            url: "https://api.temi.com/v1/jobs".to_string(),
            authorization: "Bearer secret".to_string(),
            accept: None,
            json: Some(SubmitJobOptions {
                media_url: "https://example.com/a.mp3".to_string(),
                callback_url: Some("https://example.com/done".to_string()),
                metadata: Some("m".to_string()),
            }),
        }
    );
}

#[test]
fn delete_job_deletes_at_the_job_address() {
    let request = client().delete_job("abc").unwrap();
    assert_eq!(
        request,
        Request {
            method: Method::Delete,
            url: "https://api.temi.com/v1/jobs/abc".to_string(),
            authorization: "Bearer secret".to_string(),
            accept: None,
            json: None,
        }
    );
}

#[test]
fn get_account_details_gets_the_account_address() {
    let request = client().get_account_details();
    assert_eq!(
        request,
        Request {
            method: Method::Get,
            url: "https://api.temi.com/v1/account".to_string(),
            authorization: "Bearer secret".to_string(),
            accept: None,
            json: None,
        }
    );
}

#[test]
fn get_job_status_gets_the_job_address() {
    let request = client().get_job_status("abc").unwrap();
    assert_eq!(request.method, Method::Get);
    assert_eq!(request.url, "https://api.temi.com/v1/jobs/abc");
    assert_eq!(request.authorization, "Bearer secret");
    assert_eq!(request.accept, None);
    assert_eq!(request.json, None);
}

#[test]
fn list_jobs_gets_the_listing() {
    let request = client().list_jobs(Some(5), Some("job_123")).unwrap();
    assert_eq!(request.method, Method::Get);
    assert_eq!(request.url, "https://api.temi.com/v1/jobs?limit=5&starting_after=job_123");
    assert_eq!(request.authorization, "Bearer secret");
    assert_eq!(request.accept, None);
    assert_eq!(request.json, None);
    let request = client().list_jobs(None, None).unwrap();
    assert_eq!(request.url, "https://api.temi.com/v1/jobs");
}

#[test]
fn get_transcript_accepts_the_mime_type_of_the_format() {
    let formats = [
        (TranscriptFormat::PlainText, "text/plain"),
        (TranscriptFormat::Json, "application/json"),
        (TranscriptFormat::MsWord, "application/msword"),
        (TranscriptFormat::Pdf, "application/pdf"),
    ];
    for (format, mime) in formats {
        let request = client().get_transcript("abc", format, None).unwrap();
        assert_eq!(request.method, Method::Get);
        assert_eq!(request.url, "https://api.temi.com/v1/jobs/abc/transcript");
        assert_eq!(request.authorization, "Bearer secret");
        assert_eq!(request.accept, Some(mime.to_string()));
        assert_eq!(request.json, None);
    }
}

#[test]
fn get_transcript_names_the_version() {
    let request = client()
        .get_transcript("abc", TranscriptFormat::MsWord, Some(TranscriptVersion::Machine))
        .unwrap();
    assert_eq!(request.url, "https://api.temi.com/v1/jobs/abc/transcript?version=machine");
    assert_eq!(request.accept, Some("application/msword".to_string()));
}

#[test]
fn every_request_carries_the_credentials() {
    let client = Client::try_new("k-1").unwrap();
    let requests = vec![
        client.submit_job("u", "c", "m"),
        client.delete_job("a").unwrap(),
        client.get_account_details(),
        client.get_job_status("a").unwrap(),
        client.list_jobs(None, None).unwrap(),
        client.get_transcript("a", TranscriptFormat::Json, None).unwrap(),
    ];
    for request in requests {
        assert_eq!(request.authorization, "Bearer k-1");
    }
}

#[test]
fn request_takes_the_address_as_it_is_given() {
    let request = client().request(Method::Get, "https://example.com/x".to_string(), None);
    assert_eq!(request.url, "https://example.com/x");
    assert_eq!(request.method, Method::Get);
    assert_eq!(request.json, None);
}

#[test]
fn request_at_takes_the_parsed_address() {
    let address = temi::v1::endpoints::job_url("a b");
    let request = client().request_at(Method::Delete, address, None).unwrap();
    assert_eq!(request.url, "https://api.temi.com/v1/jobs/a%20b");
    assert_eq!(request.method, Method::Delete);
}
