//! The transaction that renames a batch from the compact scheme to the
//! readable scheme.
//!
//! A transaction is prepared entry by entry: the metadata comes from the
//! cache or, on a miss, from the provider; the new name is built; and the
//! destination is checked. Only then are the renames run, in the order in
//! which they were prepared. The first failure stops the transaction. A dry
//! run asks for nothing outside: a miss gets a placeholder title, and no
//! rename is run.
//!
//! The library decides; the caller acts. Each call of
//! [`RenameTransaction::step`] takes what happened outside and gives what is
//! to be done next. [`rename_step`] states what a step does.

use super::name_builder::{build_human_readable_name, readable_name, NameBuilderConfig};
use super::types::{
    operation_in, operations_data, OperationData, RenameDirection, RenameOperation, RenameResult,
};
use crate::api::{AnimeData, AnimeInfo, ApiConfig, ApiError};
use crate::cache::CacheStore;
use crate::parser::{AniDbFormat, AniDbName, ParsedDirectory, ParsedName};
use crate::text::{chars_of, decimal_digits, extend_chars, extend_str, format_u32, string_of};
use crate::timestamp::Timestamp;
use crate::validator::ValidationResult;
use vstd::prelude::*;

verus! {

/// Why a batch could not be renamed.
#[derive(Debug)]
pub enum RenameError {
    /// The provider gave no metadata for the id.
    ApiError { id: u32, message: String },
    /// A directory could not be renamed.
    FilesystemError { from: String, to: String, source: String },
    /// A new name is taken. Holds the name.
    DestinationExists(String),
    /// Metadata is missing and no provider is configured.
    ApiNotConfigured,
    /// The cache failed.
    CacheError(String),
}

impl RenameError {
    /// The message for a user, as a sequence of characters.
    pub open spec fn text(&self) -> Seq<char> {
        match self {
            RenameError::ApiError { id, message } => "Failed to fetch anime data for ID "@
                + decimal_digits(*id as nat) + ": "@ + message@,
            RenameError::FilesystemError { from, to, source } => "Failed to rename '"@ + from@
                + "' to '"@ + to@ + "': "@ + source@,
            RenameError::DestinationExists(name) => "Destination already exists: "@ + name@,
            RenameError::ApiNotConfigured => "API client not configured"@,
            RenameError::CacheError(m) => "Cache error: "@ + m@,
        }
    }

    /// The message for a user.
    pub fn message(&self) -> (out: String)
        ensures
            out@ == self.text(),
    {
        let mut buf: Vec<char> = Vec::new();
        match self {
            RenameError::ApiError { id, message } => {
                extend_str(&mut buf, "Failed to fetch anime data for ID ");
                extend_chars(&mut buf, &format_u32(*id));
                extend_str(&mut buf, ": ");
                extend_str(&mut buf, message.as_str());
            },
            RenameError::FilesystemError { from, to, source } => {
                extend_str(&mut buf, "Failed to rename '");
                extend_str(&mut buf, from.as_str());
                extend_str(&mut buf, "' to '");
                extend_str(&mut buf, to.as_str());
                extend_str(&mut buf, "': ");
                extend_str(&mut buf, source.as_str());
            },
            RenameError::DestinationExists(name) => {
                extend_str(&mut buf, "Destination already exists: ");
                extend_str(&mut buf, name.as_str());
            },
            RenameError::ApiNotConfigured => {
                extend_str(&mut buf, "API client not configured");
            },
            RenameError::CacheError(m) => {
                extend_str(&mut buf, "Cache error: ");
                extend_str(&mut buf, m.as_str());
            },
        }
        string_of(&buf)
    }

    /// The failure of a lookup that is tied to no id.
    pub fn from_api(err: &ApiError) -> (out: RenameError)
        ensures
            out matches RenameError::ApiError { id, message } && id == 0 && message@ == err.text(),
    {
        RenameError::ApiError { id: 0, message: err.message() }
    }
}

/// How a batch is renamed.
#[derive(Debug, Clone)]
pub struct RenameOptions {
    /// The most bytes that a new name may take.
    pub max_length: usize,
    /// Only plan the batch.
    pub dry_run: bool,
    /// The days after which cached metadata is too old.
    pub cache_expiry_days: u32,
}

impl Default for RenameOptions {
    /// Names of at most 255 bytes, a batch that is run, and metadata that is
    /// good for 30 days.
    fn default() -> (options: RenameOptions)
        ensures
            options.max_length == 255,
            !options.dry_run,
            options.cache_expiry_days == 30,
    {
        RenameOptions { max_length: 255, dry_run: false, cache_expiry_days: 30 }
    }
}

/// How far a transaction has come.
#[derive(Debug, Clone, Copy, PartialEq, Eq, Structural)]
pub enum RenamePhase {
    /// Nothing has happened yet.
    Idle,
    /// The operations are being prepared.
    Preparing,
    /// Every operation is prepared; none has run.
    Prepared,
    /// The operations are being run.
    Executing,
    /// Every operation has run, or the dry run is complete.
    Committed,
    /// Stopped at a failure. What was renamed stays renamed.
    Aborted,
}

/// What happened outside since the last step.
#[derive(Debug)]
pub enum RenameEvent {
    /// The transaction shall begin. Where a provider is configured and its
    /// client could not be made, `client_error` says why.
    Start { client_error: Option<String> },
    /// The lookup that was asked for gave this.
    Metadata(Result<AnimeInfo, ApiError>),
    /// The destination that was asked about is there, or not.
    DestinationChecked { exists: bool },
    /// The prepared operations shall be run.
    Execute,
    /// The rename that was asked for was tried.
    Renamed(Result<(), String>),
}

/// What is to be done outside next.
#[derive(Debug)]
pub enum RenameAction {
    /// Look up the metadata for `anidb_id` at the provider.
    FetchMetadata { anidb_id: u32 },
    /// Find out whether anything is at `path`.
    CheckDestination { path: String },
    /// Every operation is prepared. Send `Execute` to go on.
    Planned,
    /// Rename the directory at `from` to `to`.
    Rename { from: String, to: String },
    /// Nothing is left to do.
    Finish,
    /// Stop: the batch failed.
    Abort(RenameError),
    /// The event does not answer what the transaction waits for. Nothing
    /// changed.
    Rejected,
}

/// Mathematical content of a [`RenameError`].
pub enum FailureData {
    ApiError { id: u32, message: Seq<char> },
    FilesystemError { from: Seq<char>, to: Seq<char>, source: Seq<char> },
    DestinationExists(Seq<char>),
    ApiNotConfigured,
    CacheError(Seq<char>),
}

impl View for RenameError {
    type V = FailureData;

    open spec fn view(&self) -> FailureData {
        match self {
            RenameError::ApiError { id, message } => FailureData::ApiError {
                id: *id,
                message: message@,
            },
            RenameError::FilesystemError { from, to, source } => FailureData::FilesystemError {
                from: from@,
                to: to@,
                source: source@,
            },
            RenameError::DestinationExists(name) => FailureData::DestinationExists(name@),
            RenameError::ApiNotConfigured => FailureData::ApiNotConfigured,
            RenameError::CacheError(m) => FailureData::CacheError(m@),
        }
    }
}

/// Mathematical content of a [`RenameAction`].
pub enum ActionData {
    FetchMetadata { id: u32 },
    CheckDestination { path: Seq<char> },
    Planned,
    Rename { from: Seq<char>, to: Seq<char> },
    Finish,
    Abort(FailureData),
    Rejected,
}

impl View for RenameAction {
    type V = ActionData;

    open spec fn view(&self) -> ActionData {
        match self {
            RenameAction::FetchMetadata { anidb_id } => ActionData::FetchMetadata { id: *anidb_id },
            RenameAction::CheckDestination { path } => ActionData::CheckDestination { path: path@ },
            RenameAction::Planned => ActionData::Planned,
            RenameAction::Rename { from, to } => ActionData::Rename { from: from@, to: to@ },
            RenameAction::Finish => ActionData::Finish,
            RenameAction::Abort(e) => ActionData::Abort(e@),
            RenameAction::Rejected => ActionData::Rejected,
        }
    }
}

/// The state of a transaction, as far as its steps depend on it.
pub struct RenameState {
    pub phase: RenamePhase,
    pub target_dir: Seq<char>,
    /// The names of the batch, in order.
    pub entries: Seq<AniDbName>,
    pub max_length: nat,
    pub dry_run: bool,
    pub api_configured: bool,
    /// The operations that are prepared, in order.
    pub operations: Seq<OperationData>,
    /// While preparing: the entry that is being prepared. While executing:
    /// the operation that is being run.
    pub cursor: nat,
    /// The operation whose destination is being checked.
    pub pending: Option<OperationData>,
}

/// The metadata that stands in for what a dry run does not fetch.
pub open spec fn placeholder(id: u32) -> AnimeData {
    AnimeData {
        id,
        title: "[Title for anidb-"@ + decimal_digits(id as nat) + "]"@,
        alt_title: None,
        year: None,
    }
}

/// Makes the metadata that stands in for what a dry run does not fetch.
pub fn placeholder_info(anidb_id: u32) -> (info: AnimeInfo)
    ensures
        info@ == placeholder(anidb_id),
{
    let mut title = chars_of("[Title for anidb-");
    extend_chars(&mut title, &format_u32(anidb_id));
    extend_str(&mut title, "]");
    AnimeInfo { anidb_id, title_main: string_of(&title), title_en: None, release_year: None }
}

/// The operation that renames the directory of `entry` in `target_dir` to
/// the readable name for `info`, under the tag of the entry.
pub open spec fn planned_operation(
    target_dir: Seq<char>,
    entry: AniDbName,
    info: AnimeData,
    max_length: nat,
) -> OperationData {
    let (name, truncated) = readable_name(entry.tag, info, max_length);
    operation_in(target_dir, entry.name, name, entry.id, truncated)
}

/// The state with `op` added to the prepared operations and the next entry
/// up.
pub open spec fn with_operation(s: RenameState, op: OperationData) -> RenameState {
    RenameState {
        operations: s.operations.push(op),
        cursor: s.cursor + 1,
        pending: None,
        ..s
    }
}

/// Prepares entries from the cursor on, as far as that goes without asking
/// for anything outside: the state after it and the action that it asks
/// for.
///
/// An entry whose metadata the cache holds gets its operation from that. In
/// a dry run the operation is added at once, and an entry that the cache
/// misses gets its operation from a placeholder. Else the destination of
/// the operation is to be checked, and a miss is to be fetched; where no
/// provider is configured, a miss stops the transaction. After the last
/// entry the batch is prepared.
pub open spec fn advanced(s: RenameState, cache: CacheStore, now: Timestamp) -> (
    RenameState,
    ActionData,
)
    decreases s.entries.len() - s.cursor,
{
    if s.cursor >= s.entries.len() {
        (RenameState { phase: RenamePhase::Prepared, ..s }, ActionData::Planned)
    } else {
        let entry = s.entries[s.cursor as int];
        match cache.lookup(entry.id, now) {
            Some(cached) => {
                let op = planned_operation(s.target_dir, entry, cached@.info, s.max_length);
                if s.dry_run {
                    advanced(with_operation(s, op), cache, now)
                } else {
                    (
                        RenameState { pending: Some(op), ..s },
                        ActionData::CheckDestination { path: op.destination_path },
                    )
                }
            },
            None => if s.dry_run {
                let op = planned_operation(
                    s.target_dir,
                    entry,
                    placeholder(entry.id),
                    s.max_length,
                );
                advanced(with_operation(s, op), cache, now)
            } else if !s.api_configured {
                (
                    RenameState { phase: RenamePhase::Aborted, ..s },
                    ActionData::Abort(FailureData::ApiNotConfigured),
                )
            } else {
                (s, ActionData::FetchMetadata { id: entry.id })
            },
        }
    }
}

/// The action that asks to run operation `i`.
pub open spec fn runs(s: RenameState, i: int) -> ActionData {
    ActionData::Rename { from: s.operations[i].source_path, to: s.operations[i].destination_path }
}

/// What one step of a transaction does to the transaction: the state after
/// it and the action that it asks for, given the state before it, the
/// cache as the step finds it, and the event.
///
/// An event that does not answer what the transaction waits for changes
/// nothing and is rejected.
pub open spec fn rename_step(
    s: RenameState,
    cache: CacheStore,
    event: RenameEvent,
    now: Timestamp,
) -> (RenameState, ActionData) {
    match (s.phase, event) {
        (RenamePhase::Idle, RenameEvent::Start { client_error }) => match client_error {
            Some(reason) => if s.api_configured {
                (
                    RenameState { phase: RenamePhase::Aborted, ..s },
                    ActionData::Abort(FailureData::ApiError { id: 0, message: reason@ }),
                )
            } else {
                advanced(RenameState { phase: RenamePhase::Preparing, ..s }, cache, now)
            },
            None => advanced(RenameState { phase: RenamePhase::Preparing, ..s }, cache, now),
        },
        (RenamePhase::Preparing, RenameEvent::Metadata(answer)) => if s.pending is None
            && s.cursor < s.entries.len() {
            let entry = s.entries[s.cursor as int];
            match answer {
                Ok(info) => {
                    let op = planned_operation(s.target_dir, entry, info@, s.max_length);
                    (
                        RenameState { pending: Some(op), ..s },
                        ActionData::CheckDestination { path: op.destination_path },
                    )
                },
                Err(e) => (
                    RenameState { phase: RenamePhase::Aborted, ..s },
                    ActionData::Abort(FailureData::ApiError { id: entry.id, message: e.text() }),
                ),
            }
        } else {
            (s, ActionData::Rejected)
        },
        (RenamePhase::Preparing, RenameEvent::DestinationChecked { exists }) => match s.pending {
            Some(op) => if exists {
                (
                    RenameState { phase: RenamePhase::Aborted, ..s },
                    ActionData::Abort(FailureData::DestinationExists(op.destination_name)),
                )
            } else {
                advanced(with_operation(s, op), cache, now)
            },
            None => (s, ActionData::Rejected),
        },
        (RenamePhase::Prepared, RenameEvent::Execute) => if s.dry_run || s.operations.len() == 0 {
            (RenameState { phase: RenamePhase::Committed, ..s }, ActionData::Finish)
        } else {
            let next = RenameState { phase: RenamePhase::Executing, cursor: 0, ..s };
            (next, runs(next, 0))
        },
        (RenamePhase::Executing, RenameEvent::Renamed(outcome)) => if s.cursor
            < s.operations.len() {
            match outcome {
                Ok(_) => if s.cursor + 1 >= s.operations.len() {
                    (RenameState { phase: RenamePhase::Committed, ..s }, ActionData::Finish)
                } else {
                    let next = RenameState { cursor: s.cursor + 1, ..s };
                    (next, runs(next, s.cursor as int + 1))
                },
                Err(reason) => (
                    RenameState { phase: RenamePhase::Aborted, ..s },
                    ActionData::Abort(
                        FailureData::FilesystemError {
                            from: s.operations[s.cursor as int].source_name,
                            to: s.operations[s.cursor as int].destination_name,
                            source: reason@,
                        },
                    ),
                ),
            }
        } else {
            (s, ActionData::Rejected)
        },
        _ => (s, ActionData::Rejected),
    }
}

/// Whether a step puts metadata into the cache: it does where a lookup that
/// the transaction waits for gave metadata.
pub open spec fn caches_metadata(s: RenameState, event: RenameEvent) -> bool {
    s.phase == RenamePhase::Preparing && s.pending is None && s.cursor < s.entries.len()
        && event matches RenameEvent::Metadata(Ok(_))
}

/// The names of a batch that are in the compact scheme, in order.
pub open spec fn compact_entries(names: Seq<ParsedName>) -> Seq<AniDbName>
    decreases names.len(),
{
    if names.len() == 0 {
        Seq::empty()
    } else {
        let before = compact_entries(names.drop_last());
        match names.last() {
            ParsedName::AniDb(n) => before.push(n),
            ParsedName::HumanReadable(_) => before,
        }
    }
}

/// The state in which the transaction of a batch begins.
pub open spec fn initial_state(
    target_dir: Seq<char>,
    batch: Seq<ParsedName>,
    max_length: nat,
    dry_run: bool,
    api_configured: bool,
) -> RenameState {
    RenameState {
        phase: RenamePhase::Idle,
        target_dir,
        entries: compact_entries(batch),
        max_length,
        dry_run,
        api_configured,
        operations: Seq::empty(),
        cursor: 0,
        pending: None,
    }
}

/// A transaction in progress.
pub struct RenameTransaction {
    phase: RenamePhase,
    target_dir: String,
    entries: Vec<AniDbFormat>,
    name_config: NameBuilderConfig,
    api_configured: bool,
    result: RenameResult,
    cursor: usize,
    pending: Option<RenameOperation>,
}

/// The content of the given names, in order.
pub open spec fn entries_data(entries: Seq<AniDbFormat>) -> Seq<AniDbName> {
    Seq::new(entries.len(), |i: int| entries[i]@)
}

impl RenameTransaction {
    /// The state of the transaction.
    pub closed spec fn state(&self) -> RenameState {
        RenameState {
            phase: self.phase,
            target_dir: self.target_dir@,
            entries: entries_data(self.entries@),
            max_length: self.name_config.max_length as nat,
            dry_run: self.result.dry_run,
            api_configured: self.api_configured,
            operations: operations_data(self.result.operations@),
            cursor: self.cursor as nat,
            pending: match self.pending {
                Some(op) => Some(op@),
                None => None,
            },
        }
    }

    /// The operations that are prepared, and the direction of the batch.
    pub closed spec fn result(&self) -> RenameResult {
        self.result
    }

    /// The direction is from the compact to the readable scheme; nothing
    /// has happened before the start; an operation is pending only for an
    /// entry that is being prepared; and while operations are run, one is
    /// left to run.
    #[verifier::type_invariant]
    spec fn inv(&self) -> bool {
        &&& self.result.direction == RenameDirection::AniDbToReadable
        &&& (self.phase == RenamePhase::Idle ==> self.cursor == 0 && self.pending is None
            && self.result.operations@.len() == 0)
        &&& (self.phase == RenamePhase::Preparing ==> self.cursor <= self.entries@.len())
        &&& (self.pending is Some ==> self.cursor < self.entries@.len() && (self.phase
            == RenamePhase::Preparing || self.phase == RenamePhase::Aborted))
        &&& (self.phase == RenamePhase::Executing ==> self.cursor < self.result.operations@.len())
    }

    /// How far the transaction has come.
    pub fn phase(&self) -> (phase: RenamePhase)
        ensures
            phase == self.state().phase,
    {
        self.phase
    }

    /// What the transaction did or would do so far.
    pub fn outcome(&self) -> (result: &RenameResult)
        ensures
            *result == self.result(),
            operations_data(result.operations@) == self.state().operations,
            result.dry_run == self.state().dry_run,
            result.direction == RenameDirection::AniDbToReadable,
    {
        proof {
            use_type_invariant(self);
        }
        &self.result
    }

    /// The operation for entry `index` and the given metadata.
    fn plan(&self, index: usize, info: &AnimeInfo) -> (op: RenameOperation)
        requires
            index < self.entries@.len(),
        ensures
            op@ == planned_operation(
                self.target_dir@,
                self.entries@[index as int]@,
                info@,
                self.name_config.max_length as nat,
            ),
    {
        let entry = &self.entries[index];
        let tag: Option<&str> = match &entry.series_tag {
            Some(t) => Some(t.as_str()),
            None => None,
        };
        let built = build_human_readable_name(tag, info, &self.name_config);
        RenameOperation::in_directory(
            self.target_dir.as_str(),
            entry.original_name.as_str(),
            built.name,
            entry.anidb_id,
            built.truncated,
        )
    }

    /// The action that asks to run operation `index`.
    fn run(&self, index: usize) -> (action: RenameAction)
        requires
            index < self.result.operations@.len(),
        ensures
            action@ == runs(self.state(), index as int),
    {
        let op = &self.result.operations[index];
        RenameAction::Rename { from: op.source_path.clone(), to: op.destination_path.clone() }
    }

    /// Adds `op` to the prepared operations and moves to the next entry.
    fn accept(&mut self, op: RenameOperation)
        requires
            old(self).cursor < old(self).entries@.len(),
            old(self).phase == RenamePhase::Preparing,
        ensures
            final(self).state() == with_operation(old(self).state(), op@),
            final(self).result.direction == old(self).result.direction,
            final(self).cursor == old(self).cursor + 1,
            final(self).entries == old(self).entries,
            final(self).phase == old(self).phase,
    {
        proof {
            use_type_invariant(&*self);
        }
        let ghost before = self.state();
        // The cursor is below the number of entries, which a `usize` holds.
        let _ = self.entries.len();
        self.pending = None;
        // The result is taken out while the operation is added to it.
        let mut result = RenameResult::new(RenameDirection::AniDbToReadable, self.result.dry_run);
        std::mem::swap(&mut result, &mut self.result);
        result.add_operation(op);
        std::mem::swap(&mut result, &mut self.result);
        self.cursor = self.cursor + 1;
        assert(self.state().operations =~= before.operations.push(op@));
    }

    /// Prepares entries from the cursor on: see [`advanced`].
    fn advance(&mut self, cache: &CacheStore, now: &Timestamp) -> (action: RenameAction)
        requires
            old(self).phase == RenamePhase::Preparing,
            old(self).pending is None,
        ensures
            (final(self).state(), action@) == advanced(old(self).state(), *cache, *now),
    {
        proof {
            use_type_invariant(&*self);
        }
        let ghost start = self.state();
        loop
            invariant
                self.phase == RenamePhase::Preparing,
                self.pending is None,
                self.cursor <= self.entries@.len(),
                self.result.direction == RenameDirection::AniDbToReadable,
                start == old(self).state(),
                advanced(self.state(), *cache, *now) == advanced(start, *cache, *now),
            decreases self.entries@.len() - self.cursor,
        {
            if self.cursor >= self.entries.len() {
                self.phase = RenamePhase::Prepared;
                return RenameAction::Planned;
            }
            let id = self.entries[self.cursor].anidb_id;
            match cache.get(id, now) {
                Some(info) => {
                    let op = self.plan(self.cursor, &info);
                    if self.result.dry_run {
                        self.accept(op);
                    } else {
                        let path = op.destination_path.clone();
                        self.pending = Some(op);
                        return RenameAction::CheckDestination { path };
                    }
                },
                None => {
                    if self.result.dry_run {
                        let info = placeholder_info(id);
                        let op = self.plan(self.cursor, &info);
                        self.accept(op);
                    } else if !self.api_configured {
                        self.phase = RenamePhase::Aborted;
                        return RenameAction::Abort(RenameError::ApiNotConfigured);
                    } else {
                        return RenameAction::FetchMetadata { anidb_id: id };
                    }
                },
            }
        }
    }

    /// Advances the transaction by one event: see [`rename_step`]. Metadata
    /// that a lookup gave is put into the cache as fetched at `now`; no
    /// other step changes the cache.
    pub fn step(&mut self, cache: &mut CacheStore, event: RenameEvent, now: Timestamp) -> (action:
        RenameAction)
        ensures
            (final(self).state(), action@) == rename_step(
                old(self).state(),
                *final(cache),
                event,
                now,
            ),
            !caches_metadata(old(self).state(), event) ==> *final(cache) == *old(cache),
            caches_metadata(old(self).state(), event) ==> final(cache).holds_inserted(
                *old(cache),
                event->Metadata_0->Ok_0@,
                now,
            ),
    {
        proof {
            use_type_invariant(&*self);
        }
        match (self.phase, event) {
            (RenamePhase::Idle, RenameEvent::Start { client_error }) => {
                match client_error {
                    Some(reason) => {
                        if self.api_configured {
                            self.phase = RenamePhase::Aborted;
                            return RenameAction::Abort(
                                RenameError::ApiError { id: 0, message: reason },
                            );
                        }
                    },
                    None => {},
                }
                self.phase = RenamePhase::Preparing;
                self.advance(cache, &now)
            },
            (RenamePhase::Preparing, RenameEvent::Metadata(answer)) => {
                if self.pending.is_some() || self.cursor >= self.entries.len() {
                    return RenameAction::Rejected;
                }
                match answer {
                    Ok(info) => {
                        cache.insert(&info, now);
                        let op = self.plan(self.cursor, &info);
                        let path = op.destination_path.clone();
                        self.pending = Some(op);
                        RenameAction::CheckDestination { path }
                    },
                    Err(e) => {
                        self.phase = RenamePhase::Aborted;
                        RenameAction::Abort(
                            RenameError::ApiError {
                                id: self.entries[self.cursor].anidb_id,
                                message: e.message(),
                            },
                        )
                    },
                }
            },
            (RenamePhase::Preparing, RenameEvent::DestinationChecked { exists }) => {
                if exists {
                    match &self.pending {
                        Some(op) => {
                            let name = op.destination_name.clone();
                            self.phase = RenamePhase::Aborted;
                            RenameAction::Abort(RenameError::DestinationExists(name))
                        },
                        None => RenameAction::Rejected,
                    }
                } else {
                    let mut pending: Option<RenameOperation> = None;
                    std::mem::swap(&mut pending, &mut self.pending);
                    match pending {
                        Some(op) => {
                            self.accept(op);
                            self.advance(cache, &now)
                        },
                        None => RenameAction::Rejected,
                    }
                }
            },
            (RenamePhase::Prepared, RenameEvent::Execute) => {
                if self.result.dry_run || self.result.operations.len() == 0 {
                    self.phase = RenamePhase::Committed;
                    RenameAction::Finish
                } else {
                    self.cursor = 0;
                    self.phase = RenamePhase::Executing;
                    self.run(0)
                }
            },
            (RenamePhase::Executing, RenameEvent::Renamed(outcome)) => {
                let count = self.result.operations.len();
                match outcome {
                    Ok(_) => {
                        if self.cursor + 1 >= count {
                            self.phase = RenamePhase::Committed;
                            RenameAction::Finish
                        } else {
                            self.cursor = self.cursor + 1;
                            self.run(self.cursor)
                        }
                    },
                    Err(reason) => {
                        self.phase = RenamePhase::Aborted;
                        let op = &self.result.operations[self.cursor];
                        RenameAction::Abort(
                            RenameError::FilesystemError {
                                from: op.source_name.clone(),
                                to: op.destination_name.clone(),
                                source: reason,
                            },
                        )
                    },
                }
            },
            _ => RenameAction::Rejected,
        }
    }

    /// What the transaction did or would do.
    pub fn into_result(self) -> (result: RenameResult)
        ensures
            result == self.result(),
            operations_data(result.operations@) == self.state().operations,
            result.dry_run == self.state().dry_run,
            result.direction == RenameDirection::AniDbToReadable,
    {
        proof {
            use_type_invariant(&self);
        }
        self.result
    }
}

/// Begins the transaction that renames a validated batch in `target_dir`
/// from the compact scheme to the readable scheme. Names of the batch that
/// are not in the compact scheme are left out.
pub fn rename_to_readable(
    target_dir: &str,
    validation: &ValidationResult,
    api_config: &ApiConfig,
    options: &RenameOptions,
) -> (transaction: RenameTransaction)
    ensures
        transaction.state() == initial_state(
            target_dir@,
            validation.names(),
            options.max_length as nat,
            options.dry_run,
            api_config.client_name@.len() > 0,
        ),
{
    let ghost names = validation.names();
    let mut entries: Vec<AniDbFormat> = Vec::new();
    let mut i: usize = 0;
    while i < validation.directories.len()
        invariant
            i <= validation.directories.len(),
            names == validation.names(),
            entries_data(entries@) == compact_entries(names.take(i as int)),
        decreases validation.directories.len() - i,
    {
        proof {
            let t = names.take(i + 1);
            assert(t.drop_last() =~= names.take(i as int));
        }
        match &validation.directories[i] {
            ParsedDirectory::AniDb(f) => {
                entries.push(f.duplicate());
            },
            ParsedDirectory::HumanReadable(_) => {},
        }
        i += 1;
    }
    assert(names.take(validation.directories.len() as int) =~= names);
    let transaction = RenameTransaction {
        phase: RenamePhase::Idle,
        target_dir: target_dir.to_owned(),
        entries,
        name_config: NameBuilderConfig { max_length: options.max_length },
        api_configured: api_config.is_configured(),
        result: RenameResult::new(RenameDirection::AniDbToReadable, options.dry_run),
        cursor: 0,
        pending: None,
    };
    assert(transaction.state().operations =~= Seq::<OperationData>::empty());
    transaction
}

} // verus!
