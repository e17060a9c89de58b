//! What the client of the metadata provider decides: how long to wait
//! between requests, whether a failed lookup is tried again, and what an
//! answer of the provider means.

use super::types::{AnimeInfo, ApiConfig, ApiError};
use super::xml::parse_anime_xml;
use crate::parser::opt_text;
use crate::text::{
    chars_of, contains_chars, contains_text, decimal_digits, extend_chars, extend_str, find_chars,
    first_occurrence, format_u32, lowercased, parse_number, plain_number, slice_chars, string_of,
    to_lower,
};
use vstd::prelude::*;

verus! {

/// The address of the provider.
pub const API_BASE_URL: &'static str = "http://api.anidb.net:9001/httpapi";

/// The version of the protocol that the client speaks.
pub const PROTOCOL_VERSION: u32 = 1;

/// The HTTP status with which the provider asks to slow down.
pub const STATUS_TOO_MANY_REQUESTS: u16 = 429;

/// The configuration that the settings of the environment give: the client
/// name as it is set, no name where none is set; the client version where
/// it is set to a plain number, 1 else.
pub open spec fn environment_config(
    client_name: Option<Seq<char>>,
    client_version: Option<Seq<char>>,
    config: ApiConfig,
) -> bool {
    &&& config.client_name@ == match client_name {
        Some(name) => name,
        None => Seq::empty(),
    }
    &&& config.client_version == match client_version {
        Some(version) => match plain_number(version) {
            Some(v) => v,
            None => 1u32,
        },
        None => 1u32,
    }
    &&& config.timeout_secs == 30
    &&& config.max_retries == 3
    &&& config.min_request_interval_secs == 2
}

/// The configuration of the provider from the two settings of the
/// environment, where they are set.
pub fn config_from_env(client_name: Option<String>, client_version: Option<String>) -> (config:
    ApiConfig)
    ensures
        environment_config(opt_text(client_name), opt_text(client_version), config),
{
    let version: u32 = match &client_version {
        Some(text) => {
            let chars = chars_of(text.as_str());
            assert(chars@.take(chars.len() as int) =~= chars@);
            match parse_number(&chars, chars.len()) {
                Some(v) => v,
                None => 1,
            }
        },
        None => 1,
    };
    match &client_name {
        Some(name) => ApiConfig::new(name.as_str(), version),
        None => ApiConfig::new(String::new().as_str(), version),
    }
}

/// Keeps requests apart by a least interval. Times are milliseconds on a
/// clock that does not go back.
#[derive(Debug, Clone, Copy)]
pub struct RateLimiter {
    last_request: Option<u64>,
    min_interval: u64,
}

/// How long to wait at `now` before the next request: what is left of the
/// interval since the last request, nothing before the first. A clock that
/// went back counts as no time passed.
pub open spec fn wait_needed(last_request: Option<u64>, min_interval: u64, now: u64) -> u64 {
    match last_request {
        Some(last) => {
            let elapsed = if now >= last {
                (now - last) as u64
            } else {
                0
            };
            if elapsed < min_interval {
                (min_interval - elapsed) as u64
            } else {
                0
            }
        },
        None => 0,
    }
}

impl RateLimiter {
    /// When the last request was made, if one was.
    pub closed spec fn last_request(&self) -> Option<u64> {
        self.last_request
    }

    /// The least interval between two requests.
    pub closed spec fn min_interval(&self) -> u64 {
        self.min_interval
    }

    /// A limiter that has seen no request.
    pub fn new(min_interval: u64) -> (limiter: RateLimiter)
        ensures
            limiter.last_request() is None,
            limiter.min_interval() == min_interval,
    {
        RateLimiter { last_request: None, min_interval }
    }

    /// How long to wait at `now` before the next request. The request
    /// counts as made when that time has passed.
    pub fn wait_if_needed(&mut self, now: u64) -> (wait: u64)
        ensures
            wait == wait_needed(old(self).last_request(), old(self).min_interval(), now),
            final(self).min_interval() == old(self).min_interval(),
            final(self).last_request() == Some(
                if now + wait > u64::MAX {
                    u64::MAX
                } else {
                    (now + wait) as u64
                },
            ),
    {
        let wait = match self.last_request {
            Some(last) => {
                let elapsed = if now >= last {
                    now - last
                } else {
                    0
                };
                if elapsed < self.min_interval {
                    self.min_interval - elapsed
                } else {
                    0
                }
            },
            None => 0,
        };
        self.last_request = Some(if wait > u64::MAX - now {
            u64::MAX
        } else {
            now + wait
        });
        wait
    }
}

/// A failure that may pass: the provider asked to slow down, the request
/// took too long, or it did not get through. Every other failure is final.
pub open spec fn is_transient(error: ApiError) -> bool {
    error is RateLimited || error is Timeout || error is NetworkError
}

/// The seconds to wait after attempt `attempt` failed: one second after the
/// first attempt, and twice as long after each further one, up to what a
/// `u64` holds.
pub open spec fn backoff_seconds(attempt: nat) -> nat
    decreases attempt,
{
    if attempt <= 1 {
        1
    } else if 2 * backoff_seconds((attempt - 1) as nat) > u64::MAX {
        u64::MAX as nat
    } else {
        2 * backoff_seconds((attempt - 1) as nat)
    }
}

/// What to do after a failed lookup.
#[derive(Debug)]
pub enum RetryDecision {
    /// Wait `wait_seconds`, then try again.
    Retry { wait_seconds: u64 },
    /// Give up with this error.
    GiveUp(ApiError),
}

/// What to do after attempt `attempt` of at most `max_retries` failed with
/// `error`: try again after the backoff where the failure may pass and an
/// attempt is left, give up with the error else.
pub open spec fn decision_after(
    attempt: u32,
    max_retries: u32,
    error: ApiError,
    decision: RetryDecision,
) -> bool {
    if is_transient(error) && attempt < max_retries {
        decision matches RetryDecision::Retry { wait_seconds } && wait_seconds == backoff_seconds(
            attempt as nat,
        )
    } else {
        decision == RetryDecision::GiveUp(error)
    }
}

/// The seconds to wait after attempt `attempt` failed.
pub fn backoff(attempt: u32) -> (seconds: u64)
    ensures
        seconds == backoff_seconds(attempt as nat),
{
    let mut seconds: u64 = 1;
    let mut done: u32 = 1;
    while done < attempt
        invariant
            1 <= done,
            done <= attempt || (attempt == 0 && done == 1),
            seconds == backoff_seconds(done as nat),
        decreases attempt - done,
    {
        seconds = if seconds > u64::MAX / 2 {
            u64::MAX
        } else {
            seconds * 2
        };
        done += 1;
    }
    seconds
}

/// Decides what to do after attempt `attempt` of at most `max_retries`
/// failed with `error`.
pub fn after_failure(attempt: u32, max_retries: u32, error: ApiError) -> (decision: RetryDecision)
    ensures
        decision_after(attempt, max_retries, error, decision),
{
    let transient = match &error {
        ApiError::RateLimited => true,
        ApiError::Timeout => true,
        ApiError::NetworkError(_) => true,
        _ => false,
    };
    if transient && attempt < max_retries {
        RetryDecision::Retry { wait_seconds: backoff(attempt) }
    } else {
        RetryDecision::GiveUp(error)
    }
}

/// The failure of a lookup for which no attempt was allowed.
pub fn no_attempts(max_retries: u32) -> (error: ApiError)
    ensures
        error == (ApiError::MaxRetriesExceeded { attempts: max_retries }),
{
    ApiError::MaxRetriesExceeded { attempts: max_retries }
}

/// The address to ask for the metadata of `anidb_id`.
pub open spec fn request_url_text(config: ApiConfig, anidb_id: u32) -> Seq<char> {
    API_BASE_URL@ + "?request=anime&client="@ + config.client_name@ + "&clientver="@
        + decimal_digits(config.client_version as nat) + "&protover="@ + decimal_digits(
        PROTOCOL_VERSION as nat,
    ) + "&aid="@ + decimal_digits(anidb_id as nat)
}

/// The address to ask for the metadata of `anidb_id`.
pub fn request_url(config: &ApiConfig, anidb_id: u32) -> (url: String)
    ensures
        url@ == request_url_text(*config, anidb_id),
{
    let mut buf = chars_of(API_BASE_URL);
    extend_str(&mut buf, "?request=anime&client=");
    extend_str(&mut buf, config.client_name.as_str());
    extend_str(&mut buf, "&clientver=");
    extend_chars(&mut buf, &format_u32(config.client_version));
    extend_str(&mut buf, "&protover=");
    extend_chars(&mut buf, &format_u32(PROTOCOL_VERSION));
    extend_str(&mut buf, "&aid=");
    extend_chars(&mut buf, &format_u32(anidb_id));
    string_of(&buf)
}

/// The name by which the client makes itself known.
pub fn user_agent(config: &ApiConfig) -> (agent: String)
    ensures
        agent@ == config.client_name@ + "/"@ + decimal_digits(config.client_version as nat),
{
    let mut buf = chars_of(config.client_name.as_str());
    extend_str(&mut buf, "/");
    extend_chars(&mut buf, &format_u32(config.client_version));
    string_of(&buf)
}

/// The message of an error answer: what stands between the first `<error>`
/// and the first `</error>`, where the one stands before the other.
pub open spec fn error_message(body: Seq<char>) -> Option<Seq<char>> {
    match (first_occurrence(body, "<error>"@), first_occurrence(body, "</error>"@)) {
        (Some(start), Some(end)) => if start + 7 <= end {
            Some(body.subrange(start + 7, end))
        } else {
            None
        },
        _ => None,
    }
}

/// What an error answer of the provider means. A message that speaks of an
/// anime that is not found means `NotFound`; one that speaks of a ban or of
/// the client means `Banned`; every other message, and an answer without a
/// message, is a `ServerError`.
pub open spec fn error_meaning(body: Seq<char>, anidb_id: u32, error: ApiError) -> bool {
    match error_message(body) {
        Some(message) => {
            let lower = lowercased(message);
            if contains_text(lower, "anime not found"@) || contains_text(lower, "no such anime"@) {
                error == ApiError::NotFound(anidb_id)
            } else if contains_text(lower, "banned"@) || contains_text(lower, "client"@) {
                error matches ApiError::Banned(m) && m@ == message
            } else {
                error matches ApiError::ServerError(m) && m@ == message
            }
        },
        None => error matches ApiError::ServerError(m) && m@ == body,
    }
}

/// Whether `word` stands in `text`.
fn mentions(text: &Vec<char>, word: &str) -> (r: bool)
    ensures
        r == contains_text(text@, word@),
{
    contains_chars(text, &chars_of(word))
}

/// Reads an error answer of the provider: see [`error_meaning`].
pub fn parse_error_response(body: &str, anidb_id: u32) -> (result: Result<AnimeInfo, ApiError>)
    ensures
        result matches Err(error) && error_meaning(body@, anidb_id, error),
{
    let chars = chars_of(body);
    let start = find_chars(&chars, &chars_of("<error>"));
    let end = find_chars(&chars, &chars_of("</error>"));
    proof {
        reveal_strlit("<error>");
        reveal_strlit("</error>");
    }
    if let (Some(start), Some(end)) = (start, end) {
        if start + 7 <= end {
            let message = string_of(&slice_chars(&chars, start + 7, end));
            let lower = chars_of(to_lower(message.as_str()).as_str());
            if mentions(&lower, "anime not found") || mentions(&lower, "no such anime") {
                return Err(ApiError::NotFound(anidb_id));
            }
            if mentions(&lower, "banned") || mentions(&lower, "client") {
                return Err(ApiError::Banned(message));
            }
            return Err(ApiError::ServerError(message));
        }
    }
    Err(ApiError::ServerError(body.to_owned()))
}

/// Reads an answer of the provider. A status that asks to slow down is
/// `RateLimited`, whatever the body holds; a body with an `<error>` is read
/// as an error answer; every other body is read as the document of an
/// anime.
pub fn read_response(anidb_id: u32, status: u16, body: &str) -> (result: Result<
    AnimeInfo,
    ApiError,
>)
    ensures
        status == STATUS_TOO_MANY_REQUESTS ==> result == Err::<AnimeInfo, ApiError>(
            ApiError::RateLimited,
        ),
        status != STATUS_TOO_MANY_REQUESTS && contains_text(body@, "<error>"@) ==> (
        result matches Err(error) && error_meaning(body@, anidb_id, error)),
        status != STATUS_TOO_MANY_REQUESTS && !contains_text(body@, "<error>"@) ==> match result {
            Ok(info) => info.anidb_id == anidb_id,
            Err(ApiError::ParseError(_)) => true,
            Err(ApiError::IncompleteData { anidb_id: id, field }) => id == anidb_id && field@
                == "main title"@,
            Err(_) => false,
        },
{
    if status == STATUS_TOO_MANY_REQUESTS {
        return Err(ApiError::RateLimited);
    }
    if mentions(&chars_of(body), "<error>") {
        return parse_error_response(body, anidb_id);
    }
    parse_anime_xml(anidb_id, body)
}

} // verus!
