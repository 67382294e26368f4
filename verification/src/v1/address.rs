//! Absolute URLs, as the `url` crate parses and writes them.

use vstd::prelude::*;

verus! {

/// A parsed absolute URL, held as the text that the parser wrote for it.
#[derive(Debug, PartialEq, Eq)]
pub struct Url {
    serialization: String,
}

impl View for Url {
    type V = Seq<char>;

    closed spec fn view(&self) -> Seq<char> {
        self.serialization@
    }
}

impl Url {
    /// The text of the URL.
    pub fn as_str(&self) -> (text: &str)
        ensures
            text@ == self@,
    {
        self.serialization.as_str()
    }

    /// The text of the URL, taken out of it.
    pub fn into_string(self) -> (text: String)
        ensures
            text@ == self@,
    {
        self.serialization
    }
}

/// Why a text is no absolute URL, in the parser's words.
#[derive(Debug, PartialEq, Eq)]
pub struct ParseError {
    description: String,
}

impl View for ParseError {
    type V = Seq<char>;

    closed spec fn view(&self) -> Seq<char> {
        self.description@
    }
}

impl ParseError {
    /// The parser's description of the failure.
    pub fn description(&self) -> (text: &str)
        ensures
            text@ == self@,
    {
        self.description.as_str()
    }
}

/// A query parameter: its key and its value, neither of them encoded.
pub type Param = (String, String);

/// The longest text, in characters, that is handed to the parser as a key or
/// a value of a query parameter, and half the longest that is handed to it
/// as the address. The parser counts bytes of the URL in 32 bits; texts of
/// this size stay far below that.
pub const MAX_TEXT: usize = 0x10_0000;

/// The largest number of query parameters that is handed to the parser.
pub const MAX_PARAMS: usize = 16;

/// The keys and values of a list of query parameters.
pub open spec fn params_view(params: Seq<Param>) -> Seq<(Seq<char>, Seq<char>)> {
    Seq::new(params.len(), |i: int| (params[i].0@, params[i].1@))
}

/// Whether a list of query parameters is small enough for the parser: at
/// most [`MAX_PARAMS`] of them, no key and no value longer than [`MAX_TEXT`].
pub open spec fn params_fit(params: Seq<(Seq<char>, Seq<char>)>) -> bool {
    &&& params.len() <= MAX_PARAMS
    &&& forall|i: int|
        0 <= i < params.len() ==> (#[trigger] params[i]).0.len() <= MAX_TEXT && params[i].1.len()
            <= MAX_TEXT
}

/// Whether `text` has at most [`MAX_TEXT`] characters.
pub fn is_short(text: &str) -> (short: bool)
    ensures
        short == (text@.len() <= MAX_TEXT),
{
    text.unicode_len() <= MAX_TEXT
}

/// What parsing gave: the text of the URL, or the description of the failure.
pub open spec fn parsed_view(parsed: Result<Url, ParseError>) -> Result<Seq<char>, Seq<char>> {
    match parsed {
        Ok(url) => Ok(url@),
        Err(error) => Err(error@),
    }
}

/// What `url::Url::parse` makes of `input`: the serialization of the URL that
/// it returns, or the message of its error.
pub uninterp spec fn url_parse(input: Seq<char>) -> Result<Seq<char>, Seq<char>>;

/// What `url::Url::parse_with_params` makes of `input` and `params`: the
/// serialization of the URL that it returns, or the message of its error.
pub uninterp spec fn url_parse_with_params(
    input: Seq<char>,
    params: Seq<(Seq<char>, Seq<char>)>,
) -> Result<Seq<char>, Seq<char>>;

/// Calls `url::Url::parse`. The contract claims only that the outcome is a
/// function of the input, which [`url_parse`] names: on success the URL's
/// serialization, on failure the error's message.
#[verifier::external_body]
pub(crate) fn parse(input: &str) -> (parsed: Result<Url, ParseError>)
    ensures
        parsed_view(parsed) == url_parse(input@),
{
    match url::Url::parse(input) {
        Ok(url) => Ok(Url { serialization: url.into() }),
        Err(error) => Err(ParseError { description: error.to_string() }),
    }
}

/// Calls `url::Url::parse_with_params`, which parses `input` as
/// `url::Url::parse` does and, if that gave a URL, adds the parameters in
/// their order to its query string. The contract claims that the outcome is
/// a function of the input and of the parameters' keys and values, which
/// [`url_parse_with_params`] names, and that it fails exactly where parsing
/// `input` alone fails, with the same error. The call unwraps a 32-bit
/// count of the URL's bytes; the bounds on the sizes keep far below it.
#[verifier::external_body]
pub(crate) fn parse_with_params(input: &str, params: &Vec<Param>) -> (parsed: Result<
    Url,
    ParseError,
>)
    requires
        input@.len() <= 2 * MAX_TEXT,
        params_fit(params_view(params@)),
    ensures
        parsed_view(parsed) == url_parse_with_params(input@, params_view(params@)),
        parsed is Ok ==> url_parse(input@) is Ok,
        parsed is Err ==> url_parse(input@) == parsed_view(parsed),
{
    match url::Url::parse_with_params(input, params) {
        Ok(url) => Ok(Url { serialization: url.into() }),
        Err(error) => Err(ParseError { description: error.to_string() }),
    }
}

} // verus!
