//! The addresses of the service's resources.

use super::address::{
    params_fit, params_view, parse, parse_with_params, parsed_view, url_parse,
    url_parse_with_params, Param, ParseError, Url, MAX_TEXT,
};
use super::decimal::{decimal_text, lemma_decimal_text_len_u32, to_decimal};
use super::models::{lemma_query_texts, TranscriptVersion};
use vstd::prelude::*;

verus! {

/// The collection of jobs.
pub const JOBS: &'static str = "https://api.temi.com/v1/jobs";

/// The account of the key's owner.
pub const ACCOUNT: &'static str = "https://api.temi.com/v1/account";

/// The text from which the address of one job is parsed: the collection, a
/// slash and the job's id.
pub open spec fn job_url_text(job_id: Seq<char>) -> Seq<char> {
    JOBS@ + seq!['/'] + job_id
}

/// The text from which the address of a job's transcript is parsed.
pub open spec fn transcript_url_text(job_id: Seq<char>) -> Seq<char> {
    job_url_text(job_id) + "/transcript"@
}

/// The query parameters of a listing: `limit` if a limit is given, then
/// `starting_after` if a cursor is given.
pub open spec fn list_jobs_params(limit: Option<u32>, starting_after: Option<Seq<char>>) -> Seq<
    (Seq<char>, Seq<char>),
> {
    let limit_params = match limit {
        Some(limit) => seq![("limit"@, decimal_text(limit as nat))],
        None => seq![],
    };
    let cursor_params = match starting_after {
        Some(cursor) => seq![("starting_after"@, cursor)],
        None => seq![],
    };
    limit_params + cursor_params
}

/// The query parameters that select a revision of a transcript.
pub open spec fn transcript_params(version: TranscriptVersion) -> Seq<(Seq<char>, Seq<char>)> {
    seq![("version"@, version.query_text())]
}

/// The text that an optional string slice holds, if any.
pub open spec fn optional_str_view(text: Option<&str>) -> Option<Seq<char>> {
    match text {
        Some(text) => Some(text@),
        None => None,
    }
}

/// The address of one job: what the URL parser makes of the collection's
/// address, a slash and the id.
pub open spec fn job_address(job_id: Seq<char>) -> Result<Seq<char>, Seq<char>> {
    url_parse(job_url_text(job_id))
}

/// The address of a listing. With neither a limit nor a cursor it is the
/// collection's address, parsed with no query parameter; with either, the
/// collection's address with the parameters of [`list_jobs_params`] added.
pub open spec fn list_jobs_address(
    limit: Option<u32>,
    starting_after: Option<Seq<char>>,
) -> Result<Seq<char>, Seq<char>> {
    if limit is None && starting_after is None {
        url_parse(JOBS@)
    } else {
        url_parse_with_params(JOBS@, list_jobs_params(limit, starting_after))
    }
}

/// The address of a job's transcript. With no revision named it is parsed
/// with no query parameter; with one, the `version` parameter is added.
pub open spec fn transcript_address(
    job_id: Seq<char>,
    version: Option<TranscriptVersion>,
) -> Result<Seq<char>, Seq<char>> {
    match version {
        None => url_parse(transcript_url_text(job_id)),
        Some(version) => url_parse_with_params(
            transcript_url_text(job_id),
            transcript_params(version),
        ),
    }
}

/// The address of the job `job_id`: what the parser makes of the collection's
/// address, a slash and the id. No query parameter is added.
pub fn job_url(job_id: &str) -> (url: Result<Url, ParseError>)
    ensures
        parsed_view(url) == job_address(job_id@),
{
    let text = String::from_str(JOBS).concat("/").concat(job_id);
    proof {
        reveal_strlit("/");
        assert(text@ =~= job_url_text(job_id@));
    }
    parse(text.as_str())
}

/// The query parameters of a listing, in the order in which they are added
/// to the address.
pub fn list_jobs_query(limit: Option<u32>, starting_after: Option<&str>) -> (params: Vec<Param>)
    ensures
        params_view(params@) == list_jobs_params(limit, optional_str_view(starting_after)),
{
    let mut params: Vec<Param> = Vec::new();
    if let Some(limit_value) = limit {
        params.push((String::from_str("limit"), to_decimal(limit_value)));
    }
    if let Some(cursor) = starting_after {
        params.push((String::from_str("starting_after"), cursor.to_owned()));
    }
    assert(params_view(params@) =~= list_jobs_params(limit, optional_str_view(starting_after)));
    params
}

/// The address that lists jobs: at most `limit` of them, beginning after the
/// job `starting_after`. Whether there is such an address does not depend on
/// the limit or the cursor: it fails only where the collection's own address
/// fails to parse.
pub fn list_jobs_url(limit: Option<u32>, starting_after: Option<&str>) -> (url: Result<
    Url,
    ParseError,
>)
    requires
        starting_after matches Some(cursor) ==> cursor@.len() <= MAX_TEXT,
    ensures
        parsed_view(url) == list_jobs_address(limit, optional_str_view(starting_after)),
        url is Ok <==> url_parse(JOBS@) is Ok,
        url is Err ==> parsed_view(url) == url_parse(JOBS@),
{
    if limit.is_none() && starting_after.is_none() {
        return parse(JOBS);
    }
    let params = list_jobs_query(limit, starting_after);
    proof {
        lemma_list_jobs_params_fit(limit, optional_str_view(starting_after));
        lemma_collection_texts();
    }
    parse_with_params(JOBS, &params)
}

/// The query parameters that select the revision `version` of a transcript.
pub fn transcript_query(version: TranscriptVersion) -> (params: Vec<Param>)
    ensures
        params_view(params@) == transcript_params(version),
{
    let mut params: Vec<Param> = Vec::new();
    params.push((String::from_str("version"), String::from_str(version.to_query_str())));
    assert(params_view(params@) =~= transcript_params(version));
    params
}

/// The address of the transcript of the job `job_id`, in the revision
/// `version` if one is named. Whether there is such an address does not
/// depend on the revision: it fails only where the transcript's address
/// without a revision fails to parse.
pub fn get_transcript_url(job_id: &str, version: Option<TranscriptVersion>) -> (url: Result<
    Url,
    ParseError,
>)
    requires
        version is Some ==> job_id@.len() <= MAX_TEXT,
    ensures
        parsed_view(url) == transcript_address(job_id@, version),
        url is Ok <==> url_parse(transcript_url_text(job_id@)) is Ok,
        url is Err ==> parsed_view(url) == url_parse(transcript_url_text(job_id@)),
{
    let base_url = String::from_str(JOBS).concat("/").concat(job_id).concat("/transcript");
    proof {
        reveal_strlit("/");
        assert(base_url@ =~= transcript_url_text(job_id@));
    }
    match version {
        None => parse(base_url.as_str()),
        Some(version) => {
            let params = transcript_query(version);
            proof {
                lemma_transcript_params(version);
                lemma_collection_texts();
                reveal_strlit("/transcript");
            }
            parse_with_params(base_url.as_str(), &params)
        },
    }
}

/// The two addresses of the service, character by character. Neither holds
/// a `?` or a `#`: neither has a query string or a fragment of its own.
pub proof fn lemma_collection_texts()
    ensures
        JOBS@ == seq![
            'h', 't', 't', 'p', 's', ':', '/', '/', 'a', 'p', 'i', '.', 't', 'e', 'm', 'i', '.',
            'c', 'o', 'm', '/', 'v', '1', '/', 'j', 'o', 'b', 's',
        ],
        ACCOUNT@ == seq![
            'h', 't', 't', 'p', 's', ':', '/', '/', 'a', 'p', 'i', '.', 't', 'e', 'm', 'i', '.',
            'c', 'o', 'm', '/', 'v', '1', '/', 'a', 'c', 'c', 'o', 'u', 'n', 't',
        ],
        !JOBS@.contains('?'),
        !JOBS@.contains('#'),
        !ACCOUNT@.contains('?'),
        !ACCOUNT@.contains('#'),
{
    reveal_strlit("https://api.temi.com/v1/jobs");
    reveal_strlit("https://api.temi.com/v1/account");
    assert(JOBS@ =~= seq![
        'h', 't', 't', 'p', 's', ':', '/', '/', 'a', 'p', 'i', '.', 't', 'e', 'm', 'i', '.', 'c',
        'o', 'm', '/', 'v', '1', '/', 'j', 'o', 'b', 's',
    ]);
    assert(ACCOUNT@ =~= seq![
        'h', 't', 't', 'p', 's', ':', '/', '/', 'a', 'p', 'i', '.', 't', 'e', 'm', 'i', '.', 'c',
        'o', 'm', '/', 'v', '1', '/', 'a', 'c', 'c', 'o', 'u', 'n', 't',
    ]);
}

/// The text from which a job's address is parsed is the collection's
/// address, one slash and the id, and nothing else. It holds a `?`, the mark
/// that begins a query string, only where the id itself holds one.
pub proof fn lemma_job_url_text(job_id: Seq<char>)
    ensures
        job_url_text(job_id).len() == JOBS@.len() + 1 + job_id.len(),
        job_url_text(job_id).subrange(0, JOBS@.len() as int) == JOBS@,
        job_url_text(job_id)[JOBS@.len() as int] == '/',
        job_url_text(job_id).subrange(JOBS@.len() as int + 1, job_url_text(job_id).len() as int)
            == job_id,
        job_url_text(job_id).contains('?') <==> job_id.contains('?'),
{
    let text = job_url_text(job_id);
    let base = JOBS@.len() as int;
    lemma_collection_texts();
    assert(text.subrange(0, base) =~= JOBS@);
    assert(text.subrange(base + 1, text.len() as int) =~= job_id);
    if job_id.contains('?') {
        let i = choose|i: int| 0 <= i < job_id.len() && job_id[i] == '?';
        assert(text[base + 1 + i] == '?');
    }
    if text.contains('?') {
        let i = choose|i: int| 0 <= i < text.len() && text[i] == '?';
        if i < base {
            assert(JOBS@[i] == '?');
            assert(JOBS@.contains('?'));
        }
        assert(job_id[i - base - 1] == '?');
    }
}

/// Whether the URL parser takes the job id as it stands: it accepts the
/// collection's address, a slash and the id, and writes that same text for
/// the URL.
pub open spec fn is_verbatim_job_id(job_id: Seq<char>) -> bool {
    url_parse(job_url_text(job_id)) == Ok::<Seq<char>, Seq<char>>(job_url_text(job_id))
}

/// The address of a job whose id the parser takes as it stands is the
/// collection's address, a slash and the id; where the id holds no `?`, the
/// address has no query string.
pub proof fn lemma_job_address_of_verbatim_id(job_id: Seq<char>)
    ensures
        is_verbatim_job_id(job_id) ==> job_address(job_id) == Ok::<Seq<char>, Seq<char>>(
            JOBS@ + seq!['/'] + job_id,
        ),
        is_verbatim_job_id(job_id) && !job_id.contains('?') ==> !job_address(
            job_id,
        )->Ok_0.contains('?'),
{
    lemma_job_url_text(job_id);
}

/// The query parameters of a listing are exactly the ones that were given,
/// with their values, the limit before the cursor: none where neither is
/// given, and then the address is parsed from the collection's address alone.
pub proof fn lemma_list_jobs_params(limit: Option<u32>, starting_after: Option<Seq<char>>)
    ensures
        "limit"@ == seq!['l', 'i', 'm', 'i', 't'],
        "starting_after"@ == seq![
            's', 't', 'a', 'r', 't', 'i', 'n', 'g', '_', 'a', 'f', 't', 'e', 'r',
        ],
        limit is None && starting_after is None ==> {
            &&& list_jobs_params(limit, starting_after) == Seq::<(Seq<char>, Seq<char>)>::empty()
            &&& list_jobs_address(limit, starting_after) == url_parse(JOBS@)
        },
        limit is Some && starting_after is None ==> list_jobs_params(limit, starting_after)
            == seq![("limit"@, decimal_text(limit->Some_0 as nat))],
        limit is None && starting_after is Some ==> list_jobs_params(limit, starting_after)
            == seq![("starting_after"@, starting_after->Some_0)],
        limit is Some && starting_after is Some ==> list_jobs_params(limit, starting_after)
            == seq![
            ("limit"@, decimal_text(limit->Some_0 as nat)),
            ("starting_after"@, starting_after->Some_0),
        ],
        !(limit is None && starting_after is None) ==> list_jobs_address(limit, starting_after)
            == url_parse_with_params(JOBS@, list_jobs_params(limit, starting_after)),
{
    reveal_strlit("limit");
    reveal_strlit("starting_after");
    assert("limit"@ =~= seq!['l', 'i', 'm', 'i', 't']);
    assert("starting_after"@ =~= seq![
        's', 't', 'a', 'r', 't', 'i', 'n', 'g', '_', 'a', 'f', 't', 'e', 'r',
    ]);
    let params = list_jobs_params(limit, starting_after);
    match (limit, starting_after) {
        (None, None) => {
            assert(params =~= Seq::<(Seq<char>, Seq<char>)>::empty());
        },
        (Some(n), None) => {
            assert(params =~= seq![("limit"@, decimal_text(n as nat))]);
        },
        (None, Some(cursor)) => {
            assert(params =~= seq![("starting_after"@, cursor)]);
        },
        (Some(n), Some(cursor)) => {
            assert(params =~= seq![("limit"@, decimal_text(n as nat)), ("starting_after"@, cursor)]);
        },
    }
}

/// The parameters of a listing are small enough for the parser where the
/// cursor is.
proof fn lemma_list_jobs_params_fit(limit: Option<u32>, starting_after: Option<Seq<char>>)
    requires
        starting_after matches Some(cursor) ==> cursor.len() <= MAX_TEXT,
    ensures
        params_fit(list_jobs_params(limit, starting_after)),
{
    lemma_list_jobs_params(limit, starting_after);
    if let Some(n) = limit {
        lemma_decimal_text_len_u32(n);
    }
}

/// The address of a transcript names the revision that was asked for, as
/// the one parameter `version` with the query value of the revision:
/// `latest` or `machine`.
pub proof fn lemma_transcript_params(version: TranscriptVersion)
    ensures
        "version"@ == seq!['v', 'e', 'r', 's', 'i', 'o', 'n'],
        transcript_params(version).len() == 1,
        transcript_params(version)[0] == ("version"@, version.query_text()),
        version == TranscriptVersion::Latest ==> transcript_params(version)[0].1 == seq![
            'l', 'a', 't', 'e', 's', 't',
        ],
        version == TranscriptVersion::Machine ==> transcript_params(version)[0].1 == seq![
            'm', 'a', 'c', 'h', 'i', 'n', 'e',
        ],
        params_fit(transcript_params(version)),
{
    reveal_strlit("version");
    assert("version"@ =~= seq!['v', 'e', 'r', 's', 'i', 'o', 'n']);
    lemma_query_texts();
}

/// With no revision named, the address of a transcript is parsed from the
/// job's address and `/transcript` with no query parameter; with one named,
/// the parameters are those of [`lemma_transcript_params`].
pub proof fn lemma_transcript_address(job_id: Seq<char>, version: Option<TranscriptVersion>)
    ensures
        version is None ==> transcript_address(job_id, version) == url_parse(
            job_url_text(job_id) + "/transcript"@,
        ),
        version is Some ==> transcript_address(job_id, version) == url_parse_with_params(
            job_url_text(job_id) + "/transcript"@,
            seq![("version"@, version->Some_0.query_text())],
        ),
{
}

} // verus!
