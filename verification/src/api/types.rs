//! What the metadata provider gives and how it can fail.

use crate::parser::opt_text;
use crate::text::{decimal_digits, extend_chars, extend_str, format_u32, string_of};
use vstd::prelude::*;

verus! {

/// Metadata of one title, as the provider gives it.
#[derive(Debug, Clone)]
pub struct AnimeInfo {
    pub anidb_id: u32,
    pub title_main: String,
    pub title_en: Option<String>,
    pub release_year: Option<u16>,
}

/// Mathematical content of an [`AnimeInfo`].
pub struct AnimeData {
    pub id: u32,
    pub title: Seq<char>,
    pub alt_title: Option<Seq<char>>,
    pub year: Option<u16>,
}

impl View for AnimeInfo {
    type V = AnimeData;

    open spec fn view(&self) -> AnimeData {
        AnimeData {
            id: self.anidb_id,
            title: self.title_main@,
            alt_title: opt_text(self.title_en),
            year: self.release_year,
        }
    }
}

impl AnimeInfo {
    /// A copy with the same content.
    pub fn duplicate(&self) -> (out: AnimeInfo)
        ensures
            out@ == self@,
    {
        AnimeInfo {
            anidb_id: self.anidb_id,
            title_main: self.title_main.clone(),
            title_en: crate::parser::clone_opt_string(&self.title_en),
            release_year: self.release_year,
        }
    }
}

/// How the provider is reached.
#[derive(Debug, Clone)]
pub struct ApiConfig {
    pub client_name: String,
    pub client_version: u32,
    pub timeout_secs: u64,
    pub max_retries: u32,
    pub min_request_interval_secs: u64,
}

impl Default for ApiConfig {
    /// No client name, version 1, 30 s timeout, 3 attempts, 2 s between
    /// requests.
    fn default() -> (config: ApiConfig)
        ensures
            config.client_name@ == Seq::<char>::empty(),
            config.client_version == 1,
            config.timeout_secs == 30,
            config.max_retries == 3,
            config.min_request_interval_secs == 2,
    {
        ApiConfig {
            client_name: String::new(),
            client_version: 1,
            timeout_secs: 30,
            max_retries: 3,
            min_request_interval_secs: 2,
        }
    }
}

impl ApiConfig {
    /// A configuration for the given client, with the default limits.
    pub fn new(client_name: &str, client_version: u32) -> (config: ApiConfig)
        ensures
            config.client_name@ == client_name@,
            config.client_version == client_version,
            config.timeout_secs == 30,
            config.max_retries == 3,
            config.min_request_interval_secs == 2,
    {
        ApiConfig {
            client_name: client_name.to_owned(),
            client_version,
            timeout_secs: 30,
            max_retries: 3,
            min_request_interval_secs: 2,
        }
    }

    /// Whether a client name is set.
    pub fn is_configured(&self) -> (r: bool)
        ensures
            r == (self.client_name@.len() > 0),
    {
        !self.client_name.as_str().is_empty()
    }

    /// A copy with the same content.
    pub fn duplicate(&self) -> (out: ApiConfig)
        ensures
            out.client_name@ == self.client_name@,
            out.client_version == self.client_version,
            out.timeout_secs == self.timeout_secs,
            out.max_retries == self.max_retries,
            out.min_request_interval_secs == self.min_request_interval_secs,
    {
        ApiConfig {
            client_name: self.client_name.clone(),
            client_version: self.client_version,
            timeout_secs: self.timeout_secs,
            max_retries: self.max_retries,
            min_request_interval_secs: self.min_request_interval_secs,
        }
    }
}

/// How a lookup at the provider can fail.
#[derive(Debug)]
pub enum ApiError {
    /// The provider knows no title with this id.
    NotFound(u32),
    /// The provider asked to slow down.
    RateLimited,
    /// The request did not get through.
    NetworkError(String),
    /// The request took too long.
    Timeout,
    /// The answer was not well-formed.
    ParseError(String),
    /// The provider answered with an error of its own.
    ServerError(String),
    /// Every attempt failed.
    MaxRetriesExceeded { attempts: u32 },
    /// No client name is set.
    NotConfigured,
    /// The provider refuses this client.
    Banned(String),
    /// The answer lacks a field that is needed.
    IncompleteData { anidb_id: u32, field: String },
}

impl ApiError {
    /// The message for a user, as a sequence of characters.
    pub open spec fn text(&self) -> Seq<char> {
        match self {
            ApiError::NotFound(id) => "Anime not found: "@ + decimal_digits(*id as nat),
            ApiError::RateLimited => "Rate limited by AniDB"@,
            ApiError::NetworkError(m) => "Network error: "@ + m@,
            ApiError::Timeout => "Request timeout"@,
            ApiError::ParseError(m) => "Failed to parse response: "@ + m@,
            ApiError::ServerError(m) => "API returned error: "@ + m@,
            ApiError::MaxRetriesExceeded { attempts } => "Max retries exceeded after "@
                + decimal_digits(*attempts as nat) + " attempts"@,
            ApiError::NotConfigured =>
                "Client not configured: ANIDB_CLIENT and ANIDB_CLIENT_VERSION must be set"@,
            ApiError::Banned(m) => "Banned by AniDB: "@ + m@,
            ApiError::IncompleteData { anidb_id, field } => "Incomplete data for anime "@
                + decimal_digits(*anidb_id as nat) + ": missing "@ + field@,
        }
    }

    /// The message for a user.
    pub fn message(&self) -> (out: String)
        ensures
            out@ == self.text(),
    {
        let mut buf: Vec<char> = Vec::new();
        match self {
            ApiError::NotFound(id) => {
                extend_str(&mut buf, "Anime not found: ");
                extend_chars(&mut buf, &format_u32(*id));
            },
            ApiError::RateLimited => {
                extend_str(&mut buf, "Rate limited by AniDB");
            },
            ApiError::NetworkError(m) => {
                extend_str(&mut buf, "Network error: ");
                extend_str(&mut buf, m.as_str());
            },
            ApiError::Timeout => {
                extend_str(&mut buf, "Request timeout");
            },
            ApiError::ParseError(m) => {
                extend_str(&mut buf, "Failed to parse response: ");
                extend_str(&mut buf, m.as_str());
            },
            ApiError::ServerError(m) => {
                extend_str(&mut buf, "API returned error: ");
                extend_str(&mut buf, m.as_str());
            },
            ApiError::MaxRetriesExceeded { attempts } => {
                extend_str(&mut buf, "Max retries exceeded after ");
                extend_chars(&mut buf, &format_u32(*attempts));
                extend_str(&mut buf, " attempts");
            },
            ApiError::NotConfigured => {
                extend_str(
                    &mut buf,
                    "Client not configured: ANIDB_CLIENT and ANIDB_CLIENT_VERSION must be set",
                );
            },
            ApiError::Banned(m) => {
                extend_str(&mut buf, "Banned by AniDB: ");
                extend_str(&mut buf, m.as_str());
            },
            ApiError::IncompleteData { anidb_id, field } => {
                extend_str(&mut buf, "Incomplete data for anime ");
                extend_chars(&mut buf, &format_u32(*anidb_id));
                extend_str(&mut buf, ": missing ");
                extend_str(&mut buf, field.as_str());
            },
        }
        string_of(&buf)
    }
}

} // verus!
