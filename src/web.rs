use vstd::prelude::*;
use url::{ParseError, Url};

verus! {

/// `url::Url`, carried through as an opaque value.
#[verifier::external_type_specification]
#[verifier::external_body]
pub struct ExUrl(Url);

/// `url::ParseError`, the error of `Url::parse` and `Url::join`.
#[verifier::external_type_specification]
#[verifier::external_body]
pub struct ExParseError(ParseError);

/// Whether `url::Url::parse` accepts the text: this depends on the text alone.
pub uninterp spec fn url_parses(s: Seq<char>) -> bool;

/// Relies on `url::Url::parse`: it succeeds exactly on the texts it accepts.
pub assume_specification[ Url::parse ](input: &str) -> (r: Result<Url, ParseError>)
    ensures
        r is Ok <==> url_parses(input@),
;

/// Relies on `url::Url::join`: it parses `input` relative to the base; nothing
/// more is assumed of it.
pub assume_specification[ Url::join ](base: &Url, input: &str) -> Result<Url, ParseError>;

/// Where the web tools' requests go.
pub const BASE_URL: &'static str = "https://api.tavily.com";

pub const SEARCH_PATH: &'static str = "/search";

pub const EXTRACT_PATH: &'static str = "/extract";

pub const CRAWL_PATH: &'static str = "/crawl";

pub const MAP_PATH: &'static str = "/map";

/// Why a web tool could not make or complete its request.
#[derive(Debug, Clone, Copy, PartialEq, Eq, Structural)]
pub enum WebToolError {
    /// The endpoint's address could not be built.
    InvalidUrl,
    /// The service answered with a status other than success.
    Status(u16),
}

/// The address of the service's endpoint at `path`.
pub fn endpoint(path: &str) -> (r: Result<Url, WebToolError>)
    ensures
        !url_parses(BASE_URL@) ==> r == Err::<Url, WebToolError>(WebToolError::InvalidUrl),
        r is Err ==> r == Err::<Url, WebToolError>(WebToolError::InvalidUrl),
{
    let base = match Url::parse(BASE_URL) {
        Ok(u) => u,
        Err(_) => return Err(WebToolError::InvalidUrl),
    };
    match base.join(path) {
        Ok(u) => Ok(u),
        Err(_) => Err(WebToolError::InvalidUrl),
    }
}

/// Whether a response with this HTTP status carries the result: only `200`
/// does; any other status is the tool's failure.
pub fn check_status(status: u16) -> (r: Result<(), WebToolError>)
    ensures
        status == 200 ==> r is Ok,
        status != 200 ==> r == Err::<(), WebToolError>(WebToolError::Status(status)),
{
    if status == 200 {
        Ok(())
    } else {
        Err(WebToolError::Status(status))
    }
}

} // verus!
