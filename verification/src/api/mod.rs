//! The metadata provider, as far as the library decides about it: its
//! configuration, its errors, when a failed lookup is tried again, and what
//! its answers hold.

mod client;
mod types;
mod xml;

pub use client::{
    after_failure, backoff, backoff_seconds, config_from_env, decision_after, environment_config,
    error_meaning, error_message, is_transient, no_attempts, parse_error_response, read_response,
    request_url, request_url_text, user_agent, wait_needed, RateLimiter, RetryDecision,
    API_BASE_URL, PROTOCOL_VERSION, STATUS_TOO_MANY_REQUESTS,
};
pub use types::{AnimeData, AnimeInfo, ApiConfig, ApiError};
pub use xml::{
    anime_from_tokens, anime_in, attributes_data, concluded, decimal_u16, is_final, parse_anime_xml,
    read_tokens, scan_from, scan_start, scan_step, start_year, title_attributes, tokens_data,
    EventKind, ScanOutcome, ScanState, TokenData, XmlToken,
};
