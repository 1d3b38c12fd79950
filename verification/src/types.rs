//! Shared types used in the gamepack protocol.
//!
//! All types here are game-agnostic: each gamepack defines its own subpacks
//! and stat names.

use vstd::prelude::*;

use crate::json::{distinct_keys, Json, JsonNumber, JsonNumberView, JsonView, Members};
use crate::stats::StatMap;
use crate::text::{eq_ignore_ascii_case, lower, str_eq};
use crate::views::{list_view, option_list_view, option_view};

verus! {

/// Type of entry in the match timeline.
#[derive(Debug, Clone, Copy, PartialEq, Eq, Hash, Structural)]
pub enum EntryType {
    /// Discrete game events (kills, objectives, etc.)
    Event,
    /// Polled statistics (KDA, CS, gold, etc.)
    Statistic,
    /// Recordable moments that may trigger clips
    Moment,
}

/// Source of match summary data.
#[derive(Debug, Clone, Copy, PartialEq, Eq, Hash, Structural)]
pub enum SummarySource {
    /// Stats from official game API (most accurate)
    Api,
    /// Stats reconstructed from live data (fallback when API unavailable)
    LiveFallback,
}

/// A game event that can trigger clip capture.
#[derive(Debug, Clone, PartialEq, Eq)]
pub struct GameEvent {
    /// Event type identifier (e.g., "ChampionKill", "DragonKill")
    pub event_type: String,
    /// Timestamp in seconds from game start
    pub timestamp_secs: JsonNumber,
    /// Game-specific event data
    pub data: Json,
    /// Seconds to capture before the event (overrides default)
    pub pre_capture_secs: Option<JsonNumber>,
    /// Seconds to capture after the event (overrides default)
    pub post_capture_secs: Option<JsonNumber>,
}

/// What a [`GameEvent`] holds.
pub struct GameEventView {
    pub event_type: Seq<char>,
    pub timestamp_secs: JsonNumberView,
    pub data: JsonView,
    pub pre_capture_secs: Option<JsonNumberView>,
    pub post_capture_secs: Option<JsonNumberView>,
}

impl View for GameEvent {
    type V = GameEventView;

    open spec fn view(&self) -> GameEventView {
        GameEventView {
            event_type: self.event_type@,
            timestamp_secs: self.timestamp_secs@,
            data: self.data@,
            pre_capture_secs: option_view(self.pre_capture_secs),
            post_capture_secs: option_view(self.post_capture_secs),
        }
    }
}

/// Response from the `init` command.
#[derive(Debug, Clone, PartialEq, Eq)]
pub struct InitResponse {
    /// Unique identifier for this game
    pub game_id: i32,
    /// URL-friendly slug (e.g., "league", "valorant")
    pub slug: String,
    /// Protocol version this pack implements
    pub protocol_version: u32,
}

/// What an [`InitResponse`] holds.
pub struct InitResponseView {
    pub game_id: i32,
    pub slug: Seq<char>,
    pub protocol_version: u32,
}

impl View for InitResponse {
    type V = InitResponseView;

    open spec fn view(&self) -> InitResponseView {
        InitResponseView {
            game_id: self.game_id,
            slug: self.slug@,
            protocol_version: self.protocol_version,
        }
    }
}

/// Current game status returned by `get_status`.
#[derive(Debug, Clone, PartialEq, Eq)]
pub struct GameStatus {
    /// Whether connected to the game's API/client
    pub connected: bool,
    /// Human-readable connection status
    pub connection_status: String,
    /// Current game phase (e.g., "Lobby", "InProgress", "PostGame")
    pub game_phase: Option<String>,
    /// Whether the player is actively in a game
    pub is_in_game: bool,
}

/// What a [`GameStatus`] holds.
pub struct GameStatusView {
    pub connected: bool,
    pub connection_status: Seq<char>,
    pub game_phase: Option<Seq<char>>,
    pub is_in_game: bool,
}

impl View for GameStatus {
    type V = GameStatusView;

    open spec fn view(&self) -> GameStatusView {
        GameStatusView {
            connected: self.connected,
            connection_status: self.connection_status@,
            game_phase: option_view(self.game_phase),
            is_in_game: self.is_in_game,
        }
    }
}

/// Match data returned when a game session ends.
#[derive(Debug, Clone, PartialEq, Eq)]
pub struct MatchData {
    /// Game slug (e.g., "league")
    pub game_slug: String,
    /// Game ID
    pub game_id: i32,
    /// Match result ("win", "loss", "remake")
    pub result: String,
    /// Game-specific match details
    pub details: Json,
}

/// What a [`MatchData`] holds.
pub struct MatchDataView {
    pub game_slug: Seq<char>,
    pub game_id: i32,
    pub result: Seq<char>,
    pub details: JsonView,
}

impl View for MatchData {
    type V = MatchDataView;

    open spec fn view(&self) -> MatchDataView {
        MatchDataView {
            game_slug: self.game_slug@,
            game_id: self.game_id,
            result: self.result@,
            details: self.details@,
        }
    }
}

/// A recordable moment that might trigger a clip.
///
/// Moments are distinct from events: they are things worth recording, not
/// just things that happened. The daemon checks its trigger configuration to
/// decide whether to record.
#[derive(Debug, Clone, PartialEq, Eq)]
pub struct Moment {
    /// Moment ID (a registered one, or a new one that the daemon registers)
    pub moment_id: String,
    /// In-game timestamp in seconds
    pub game_time_secs: JsonNumber,
    /// Moment-specific data (context for the clip)
    pub data: Json,
}

/// What a [`Moment`] holds.
pub struct MomentView {
    pub moment_id: Seq<char>,
    pub game_time_secs: JsonNumberView,
    pub data: JsonView,
}

impl View for Moment {
    type V = MomentView;

    open spec fn view(&self) -> MomentView {
        MomentView {
            moment_id: self.moment_id@,
            game_time_secs: self.game_time_secs@,
            data: self.data@,
        }
    }
}

/// Gamepack to daemon: write match data.
///
/// These are the messages a gamepack sends to the daemon unasked during
/// gameplay, plus `SetComplete` to mark a match finished. `subpack` is the
/// index of an independent timeline and summary within the match (0 is the
/// default game mode); `external_match_id` is the game's own identifier.
#[derive(Debug, Clone, PartialEq, Eq)]
pub enum MatchDataMessage {
    /// Write statistics to the timeline (as a delta) and to the summary.
    WriteStatistics {
        subpack: u8,
        external_match_id: String,
        /// When the match started (ISO 8601), only needed on first write
        played_at: Option<String>,
        /// In-game timestamp in seconds
        game_time_secs: JsonNumber,
        /// Stats to write
        stats: StatMap,
    },
    /// Append game events to the timeline.
    WriteGameEvents { subpack: u8, external_match_id: String, events: Vec<GameEvent> },
    /// Append moments to the timeline and check their triggers.
    WriteMoments { subpack: u8, external_match_id: String, moments: Vec<Moment> },
    /// Mark the match as no longer in progress.
    SetComplete {
        subpack: u8,
        external_match_id: String,
        /// Where the final stats came from
        summary_source: SummarySource,
        /// Final stats to overwrite the summary with
        final_stats: Option<StatMap>,
    },
}

/// What a [`MatchDataMessage`] holds.
pub enum MatchDataMessageView {
    WriteStatistics {
        subpack: u8,
        external_match_id: Seq<char>,
        played_at: Option<Seq<char>>,
        game_time_secs: JsonNumberView,
        stats: Members,
    },
    WriteGameEvents { subpack: u8, external_match_id: Seq<char>, events: Seq<GameEventView> },
    WriteMoments { subpack: u8, external_match_id: Seq<char>, moments: Seq<MomentView> },
    SetComplete {
        subpack: u8,
        external_match_id: Seq<char>,
        summary_source: SummarySource,
        final_stats: Option<Members>,
    },
}

impl MatchDataMessageView {
    /// Whether no stat name occurs twice in the message.
    pub open spec fn well_formed(self) -> bool {
        match self {
            MatchDataMessageView::WriteStatistics { stats, .. } => distinct_keys(stats),
            MatchDataMessageView::SetComplete { final_stats: Some(stats), .. } => distinct_keys(
                stats,
            ),
            _ => true,
        }
    }
}

impl View for MatchDataMessage {
    type V = MatchDataMessageView;

    open spec fn view(&self) -> MatchDataMessageView {
        match self {
            MatchDataMessage::WriteStatistics {
                subpack,
                external_match_id,
                played_at,
                game_time_secs,
                stats,
            } => MatchDataMessageView::WriteStatistics {
                subpack: *subpack,
                external_match_id: external_match_id@,
                played_at: option_view(*played_at),
                game_time_secs: game_time_secs@,
                stats: stats@,
            },
            MatchDataMessage::WriteGameEvents { subpack, external_match_id, events } =>
                MatchDataMessageView::WriteGameEvents {
                subpack: *subpack,
                external_match_id: external_match_id@,
                events: list_view(events@),
            },
            MatchDataMessage::WriteMoments { subpack, external_match_id, moments } =>
                MatchDataMessageView::WriteMoments {
                subpack: *subpack,
                external_match_id: external_match_id@,
                moments: list_view(moments@),
            },
            MatchDataMessage::SetComplete {
                subpack,
                external_match_id,
                summary_source,
                final_stats,
            } => MatchDataMessageView::SetComplete {
                subpack: *subpack,
                external_match_id: external_match_id@,
                summary_source: *summary_source,
                final_stats: option_view(*final_stats),
            },
        }
    }
}

/// Daemon to gamepack: check if a match is still in progress.
#[derive(Debug, Clone, PartialEq, Eq)]
pub struct IsMatchInProgressRequest {
    /// Subpack index
    pub subpack: u8,
    /// Game's native match ID
    pub external_match_id: String,
}

/// What an [`IsMatchInProgressRequest`] holds.
pub struct IsMatchInProgressRequestView {
    pub subpack: u8,
    pub external_match_id: Seq<char>,
}

impl View for IsMatchInProgressRequest {
    type V = IsMatchInProgressRequestView;

    open spec fn view(&self) -> IsMatchInProgressRequestView {
        IsMatchInProgressRequestView {
            subpack: self.subpack,
            external_match_id: self.external_match_id@,
        }
    }
}

/// Gamepack to daemon: response to `IsMatchInProgress`.
#[derive(Debug, Clone, PartialEq, Eq)]
pub struct IsMatchInProgressResponse {
    /// Whether the game is actually still running
    pub still_playing: bool,
    /// If the game ended, optionally a `SetComplete` message with final stats
    pub set_complete: Option<MatchDataMessage>,
}

/// What an [`IsMatchInProgressResponse`] holds.
pub struct IsMatchInProgressResponseView {
    pub still_playing: bool,
    pub set_complete: Option<MatchDataMessageView>,
}

impl View for IsMatchInProgressResponse {
    type V = IsMatchInProgressResponseView;

    open spec fn view(&self) -> IsMatchInProgressResponseView {
        IsMatchInProgressResponseView {
            still_playing: self.still_playing,
            set_complete: option_view(self.set_complete),
        }
    }
}

/// A single entry in the match timeline.
///
/// The timeline holds all match data (events, statistics, moments) in the
/// order it was written.
#[derive(Debug, Clone, PartialEq, Eq)]
pub struct TimelineEntry {
    /// Entry type (event, statistic, or moment)
    pub entry_type: EntryType,
    /// Entry key: event type, "stats", or moment ID
    pub entry_key: String,
    /// In-game timestamp in seconds
    pub game_time_secs: JsonNumber,
    /// Wall clock time (ISO 8601)
    pub captured_at: String,
    /// Type-specific payload
    pub data: Json,
    /// Only for moments: whether recording was triggered
    pub trigger_fired: Option<bool>,
}

/// What a [`TimelineEntry`] holds.
pub struct TimelineEntryView {
    pub entry_type: EntryType,
    pub entry_key: Seq<char>,
    pub game_time_secs: JsonNumberView,
    pub captured_at: Seq<char>,
    pub data: JsonView,
    pub trigger_fired: Option<bool>,
}

impl View for TimelineEntry {
    type V = TimelineEntryView;

    open spec fn view(&self) -> TimelineEntryView {
        TimelineEntryView {
            entry_type: self.entry_type,
            entry_key: self.entry_key@,
            game_time_secs: self.game_time_secs@,
            captured_at: self.captured_at@,
            data: self.data@,
            trigger_fired: self.trigger_fired,
        }
    }
}

/// Daemon to gamepack: request match timeline data.
#[derive(Debug, Clone, PartialEq, Eq)]
pub struct GetMatchTimelineRequest {
    /// Subpack index
    pub subpack: u8,
    /// Game's native match ID
    pub external_match_id: String,
    /// Filter by entry types (None = all types)
    pub entry_types: Option<Vec<String>>,
    /// Max entries to return (latest N)
    pub limit: Option<u32>,
}

/// What a [`GetMatchTimelineRequest`] holds.
pub struct GetMatchTimelineRequestView {
    pub subpack: u8,
    pub external_match_id: Seq<char>,
    pub entry_types: Option<Seq<Seq<char>>>,
    pub limit: Option<u32>,
}

impl View for GetMatchTimelineRequest {
    type V = GetMatchTimelineRequestView;

    open spec fn view(&self) -> GetMatchTimelineRequestView {
        GetMatchTimelineRequestView {
            subpack: self.subpack,
            external_match_id: self.external_match_id@,
            entry_types: option_list_view(self.entry_types),
            limit: self.limit,
        }
    }
}

/// Daemon to gamepack: response with match timeline data.
#[derive(Debug, Clone, PartialEq, Eq)]
pub struct GetMatchTimelineResponse {
    /// Whether the match was found
    pub found: bool,
    /// Timeline entries (empty if not found)
    pub entries: Vec<TimelineEntry>,
}

/// What a [`GetMatchTimelineResponse`] holds.
pub struct GetMatchTimelineResponseView {
    pub found: bool,
    pub entries: Seq<TimelineEntryView>,
}

impl View for GetMatchTimelineResponse {
    type V = GetMatchTimelineResponseView;

    open spec fn view(&self) -> GetMatchTimelineResponseView {
        GetMatchTimelineResponseView { found: self.found, entries: list_view(self.entries@) }
    }
}

impl IsMatchInProgressResponse {
    /// Create a response indicating the game is still playing.
    pub fn still_playing() -> (r: Self)
        ensures
            r@ == (IsMatchInProgressResponseView { still_playing: true, set_complete: None }),
    {
        Self { still_playing: true, set_complete: None }
    }

    /// What `ended` gives: the match is over, and there are no final stats.
    pub open spec fn ended_view() -> IsMatchInProgressResponseView {
        IsMatchInProgressResponseView { still_playing: false, set_complete: None }
    }

    /// Create a response indicating the game ended.
    pub fn ended() -> (r: Self)
        ensures
            r@ == Self::ended_view(),
    {
        Self { still_playing: false, set_complete: None }
    }

    /// Create a response with final stats to apply.
    pub fn ended_with_stats(set_complete: MatchDataMessage) -> (r: Self)
        ensures
            r@ == (IsMatchInProgressResponseView {
                still_playing: false,
                set_complete: Some(set_complete@),
            }),
    {
        Self { still_playing: false, set_complete: Some(set_complete) }
    }
}

impl EntryType {
    /// The canonical text: lower case with underscores.
    pub open spec fn name(self) -> Seq<char> {
        match self {
            EntryType::Event => "event"@,
            EntryType::Statistic => "statistic"@,
            EntryType::Moment => "moment"@,
        }
    }

    /// The entry type whose canonical text is `text`.
    pub open spec fn named(text: Seq<char>) -> Option<EntryType> {
        if text == "event"@ {
            Some(EntryType::Event)
        } else if text == "statistic"@ {
            Some(EntryType::Statistic)
        } else if text == "moment"@ {
            Some(EntryType::Moment)
        } else {
            None
        }
    }

    /// The canonical text.
    pub fn as_str(&self) -> (r: &'static str)
        ensures
            r@ == self.name(),
    {
        match self {
            EntryType::Event => "event",
            EntryType::Statistic => "statistic",
            EntryType::Moment => "moment",
        }
    }

    /// The canonical text, as a `String`.
    pub fn to_string(&self) -> (r: String)
        ensures
            r@ == self.name(),
    {
        self.as_str().to_owned()
    }

    /// Reads the canonical text of an entry type; nothing else is accepted.
    pub fn from_name(text: &str) -> (r: Option<EntryType>)
        ensures
            r == EntryType::named(text@),
    {
        if str_eq(text, "event") {
            Some(EntryType::Event)
        } else if str_eq(text, "statistic") {
            Some(EntryType::Statistic)
        } else if str_eq(text, "moment") {
            Some(EntryType::Moment)
        } else {
            None
        }
    }

    /// Reads an entry type from its text, whatever the case of its ASCII
    /// letters.
    pub fn from_str(text: &str) -> (r: Option<EntryType>)
        ensures
            r == EntryType::named(lower(text@)),
    {
        proof {
            lemma_entry_type_names_lower();
        }
        if eq_ignore_ascii_case(text, "event") {
            Some(EntryType::Event)
        } else if eq_ignore_ascii_case(text, "statistic") {
            Some(EntryType::Statistic)
        } else if eq_ignore_ascii_case(text, "moment") {
            Some(EntryType::Moment)
        } else {
            None
        }
    }
}

/// The canonical texts of the entry types are in lower case and differ.
pub proof fn lemma_entry_type_names_lower()
    ensures
        lower("event"@) == "event"@,
        lower("statistic"@) == "statistic"@,
        lower("moment"@) == "moment"@,
        "event"@ != "statistic"@,
        "event"@ != "moment"@,
        "statistic"@ != "moment"@,
{
    reveal_strlit("event");
    reveal_strlit("statistic");
    reveal_strlit("moment");
    assert(lower("event"@) =~= "event"@);
    assert(lower("statistic"@) =~= "statistic"@);
    assert(lower("moment"@) =~= "moment"@);
    assert("event"@.len() == 5 && "statistic"@.len() == 9 && "moment"@.len() == 6);
}

/// An entry type is read back from its canonical text, in any case of its
/// ASCII letters.
pub proof fn lemma_entry_type_round_trip(entry_type: EntryType, text: Seq<char>)
    requires
        lower(text) == entry_type.name(),
    ensures
        EntryType::named(entry_type.name()) == Some(entry_type),
        EntryType::named(lower(text)) == Some(entry_type),
{
    lemma_entry_type_names_lower();
}

impl SummarySource {
    /// The canonical text: lower case with underscores.
    pub open spec fn name(self) -> Seq<char> {
        match self {
            SummarySource::Api => "api"@,
            SummarySource::LiveFallback => "live_fallback"@,
        }
    }

    /// The summary source whose canonical text is `text`.
    pub open spec fn named(text: Seq<char>) -> Option<SummarySource> {
        if text == "api"@ {
            Some(SummarySource::Api)
        } else if text == "live_fallback"@ {
            Some(SummarySource::LiveFallback)
        } else {
            None
        }
    }

    /// The canonical text.
    pub fn as_str(&self) -> (r: &'static str)
        ensures
            r@ == self.name(),
    {
        match self {
            SummarySource::Api => "api",
            SummarySource::LiveFallback => "live_fallback",
        }
    }

    /// The canonical text, as a `String`.
    pub fn to_string(&self) -> (r: String)
        ensures
            r@ == self.name(),
    {
        self.as_str().to_owned()
    }

    /// Reads the canonical text of a summary source; nothing else is
    /// accepted.
    pub fn from_name(text: &str) -> (r: Option<SummarySource>)
        ensures
            r == SummarySource::named(text@),
    {
        if str_eq(text, "api") {
            Some(SummarySource::Api)
        } else if str_eq(text, "live_fallback") {
            Some(SummarySource::LiveFallback)
        } else {
            None
        }
    }

    /// Reads a summary source from its text, whatever the case of its ASCII
    /// letters.
    pub fn from_str(text: &str) -> (r: Option<SummarySource>)
        ensures
            r == SummarySource::named(lower(text@)),
    {
        proof {
            lemma_summary_source_names_lower();
        }
        if eq_ignore_ascii_case(text, "api") {
            Some(SummarySource::Api)
        } else if eq_ignore_ascii_case(text, "live_fallback") {
            Some(SummarySource::LiveFallback)
        } else {
            None
        }
    }
}

/// The canonical texts of the summary sources are in lower case and differ.
pub proof fn lemma_summary_source_names_lower()
    ensures
        lower("api"@) == "api"@,
        lower("live_fallback"@) == "live_fallback"@,
        "api"@ != "live_fallback"@,
{
    reveal_strlit("api");
    reveal_strlit("live_fallback");
    assert(lower("api"@) =~= "api"@);
    assert(lower("live_fallback"@) =~= "live_fallback"@);
    assert("api"@.len() == 3 && "live_fallback"@.len() == 13);
}

/// A summary source is read back from its canonical text, in any case of
/// its ASCII letters.
pub proof fn lemma_summary_source_round_trip(source: SummarySource, text: Seq<char>)
    requires
        lower(text) == source.name(),
    ensures
        SummarySource::named(source.name()) == Some(source),
        SummarySource::named(lower(text)) == Some(source),
{
    lemma_summary_source_names_lower();
}

impl GameEvent {
    /// Create a new game event with default capture times.
    pub fn new(event_type: &str, timestamp_secs: JsonNumber, data: Json) -> (r: Self)
        ensures
            r@ == (GameEventView {
                event_type: event_type@,
                timestamp_secs: timestamp_secs@,
                data: data@,
                pre_capture_secs: None,
                post_capture_secs: None,
            }),
    {
        Self {
            event_type: event_type.to_owned(),
            timestamp_secs,
            data,
            pre_capture_secs: None,
            post_capture_secs: None,
        }
    }

    /// Set custom pre-capture duration.
    pub fn with_pre_capture(self, secs: JsonNumber) -> (r: Self)
        ensures
            r@ == (GameEventView { pre_capture_secs: Some(secs@), ..self@ }),
    {
        let mut event = self;
        event.pre_capture_secs = Some(secs);
        event
    }

    /// Set custom post-capture duration.
    pub fn with_post_capture(self, secs: JsonNumber) -> (r: Self)
        ensures
            r@ == (GameEventView { post_capture_secs: Some(secs@), ..self@ }),
    {
        let mut event = self;
        event.post_capture_secs = Some(secs);
        event
    }
}

impl GameStatus {
    /// Create a disconnected status.
    pub fn disconnected() -> (r: Self)
        ensures
            r@ == (GameStatusView {
                connected: false,
                connection_status: "Not connected"@,
                game_phase: None,
                is_in_game: false,
            }),
    {
        Self {
            connected: false,
            connection_status: "Not connected".to_owned(),
            game_phase: None,
            is_in_game: false,
        }
    }

    /// Create a connected status.
    pub fn connected(status: &str) -> (r: Self)
        ensures
            r@ == (GameStatusView {
                connected: true,
                connection_status: status@,
                game_phase: None,
                is_in_game: false,
            }),
    {
        Self {
            connected: true,
            connection_status: status.to_owned(),
            game_phase: None,
            is_in_game: false,
        }
    }

    /// Set the game phase.
    pub fn with_phase(self, phase: &str) -> (r: Self)
        ensures
            r@ == (GameStatusView { game_phase: Some(phase@), ..self@ }),
    {
        let mut status = self;
        status.game_phase = Some(phase.to_owned());
        status
    }

    /// Set whether in-game.
    pub fn in_game(self, in_game: bool) -> (r: Self)
        ensures
            r@ == (GameStatusView { is_in_game: in_game, ..self@ }),
    {
        let mut status = self;
        status.is_in_game = in_game;
        status
    }
}

impl Default for GameStatus {
    fn default() -> (r: Self)
        ensures
            r@ == (GameStatusView {
                connected: false,
                connection_status: Seq::empty(),
                game_phase: None,
                is_in_game: false,
            }),
    {
        Self { connected: false, connection_status: String::new(), game_phase: None, is_in_game: false }
    }
}

impl MatchData {
    /// Create new match data.
    pub fn new(game_slug: &str, game_id: i32, result: &str, details: Json) -> (r: Self)
        ensures
            r@ == (MatchDataView {
                game_slug: game_slug@,
                game_id,
                result: result@,
                details: details@,
            }),
    {
        Self { game_slug: game_slug.to_owned(), game_id, result: result.to_owned(), details }
    }
}

impl Moment {
    /// Create a new moment.
    pub fn new(moment_id: &str, game_time_secs: JsonNumber, data: Json) -> (r: Self)
        ensures
            r@ == (MomentView {
                moment_id: moment_id@,
                game_time_secs: game_time_secs@,
                data: data@,
            }),
    {
        Self { moment_id: moment_id.to_owned(), game_time_secs, data }
    }
}

impl MatchDataMessage {
    /// Create a WriteStatistics message.
    pub fn write_statistics(
        subpack: u8,
        external_match_id: &str,
        game_time_secs: JsonNumber,
        stats: StatMap,
    ) -> (r: Self)
        ensures
            r@ == (MatchDataMessageView::WriteStatistics {
                subpack,
                external_match_id: external_match_id@,
                played_at: None,
                game_time_secs: game_time_secs@,
                stats: stats@,
            }),
    {
        Self::WriteStatistics {
            subpack,
            external_match_id: external_match_id.to_owned(),
            played_at: None,
            game_time_secs,
            stats,
        }
    }

    /// Create a WriteStatistics message with played_at timestamp.
    pub fn write_statistics_with_time(
        subpack: u8,
        external_match_id: &str,
        played_at: &str,
        game_time_secs: JsonNumber,
        stats: StatMap,
    ) -> (r: Self)
        ensures
            r@ == (MatchDataMessageView::WriteStatistics {
                subpack,
                external_match_id: external_match_id@,
                played_at: Some(played_at@),
                game_time_secs: game_time_secs@,
                stats: stats@,
            }),
    {
        Self::WriteStatistics {
            subpack,
            external_match_id: external_match_id.to_owned(),
            played_at: Some(played_at.to_owned()),
            game_time_secs,
            stats,
        }
    }

    /// Create a WriteGameEvents message.
    pub fn write_game_events(subpack: u8, external_match_id: &str, events: Vec<GameEvent>) -> (r:
        Self)
        ensures
            r@ == (MatchDataMessageView::WriteGameEvents {
                subpack,
                external_match_id: external_match_id@,
                events: list_view(events@),
            }),
    {
        Self::WriteGameEvents { subpack, external_match_id: external_match_id.to_owned(), events }
    }

    /// Create a WriteMoments message.
    pub fn write_moments(subpack: u8, external_match_id: &str, moments: Vec<Moment>) -> (r: Self)
        ensures
            r@ == (MatchDataMessageView::WriteMoments {
                subpack,
                external_match_id: external_match_id@,
                moments: list_view(moments@),
            }),
    {
        Self::WriteMoments { subpack, external_match_id: external_match_id.to_owned(), moments }
    }

    /// Create a SetComplete message.
    pub fn set_complete(subpack: u8, external_match_id: &str, summary_source: SummarySource) -> (r:
        Self)
        ensures
            r@ == (MatchDataMessageView::SetComplete {
                subpack,
                external_match_id: external_match_id@,
                summary_source,
                final_stats: None,
            }),
    {
        Self::SetComplete {
            subpack,
            external_match_id: external_match_id.to_owned(),
            summary_source,
            final_stats: None,
        }
    }

    /// Create a SetComplete message with final stats.
    pub fn set_complete_with_stats(
        subpack: u8,
        external_match_id: &str,
        summary_source: SummarySource,
        final_stats: StatMap,
    ) -> (r: Self)
        ensures
            r@ == (MatchDataMessageView::SetComplete {
                subpack,
                external_match_id: external_match_id@,
                summary_source,
                final_stats: Some(final_stats@),
            }),
    {
        Self::SetComplete {
            subpack,
            external_match_id: external_match_id.to_owned(),
            summary_source,
            final_stats: Some(final_stats),
        }
    }
}

impl TimelineEntry {
    /// Create an event entry.
    pub fn event(event_type: &str, game_time_secs: JsonNumber, captured_at: &str, data: Json) -> (r:
        Self)
        ensures
            r@ == (TimelineEntryView {
                entry_type: EntryType::Event,
                entry_key: event_type@,
                game_time_secs: game_time_secs@,
                captured_at: captured_at@,
                data: data@,
                trigger_fired: None,
            }),
    {
        Self {
            entry_type: EntryType::Event,
            entry_key: event_type.to_owned(),
            game_time_secs,
            captured_at: captured_at.to_owned(),
            data,
            trigger_fired: None,
        }
    }

    /// Create a statistic entry (delta).
    pub fn statistic(game_time_secs: JsonNumber, captured_at: &str, changed_fields: Json) -> (r:
        Self)
        ensures
            r@ == (TimelineEntryView {
                entry_type: EntryType::Statistic,
                entry_key: "stats"@,
                game_time_secs: game_time_secs@,
                captured_at: captured_at@,
                data: changed_fields@,
                trigger_fired: None,
            }),
    {
        Self {
            entry_type: EntryType::Statistic,
            entry_key: "stats".to_owned(),
            game_time_secs,
            captured_at: captured_at.to_owned(),
            data: changed_fields,
            trigger_fired: None,
        }
    }

    /// Create a moment entry.
    pub fn moment(
        moment_id: &str,
        game_time_secs: JsonNumber,
        captured_at: &str,
        data: Json,
        trigger_fired: bool,
    ) -> (r: Self)
        ensures
            r@ == (TimelineEntryView {
                entry_type: EntryType::Moment,
                entry_key: moment_id@,
                game_time_secs: game_time_secs@,
                captured_at: captured_at@,
                data: data@,
                trigger_fired: Some(trigger_fired),
            }),
    {
        Self {
            entry_type: EntryType::Moment,
            entry_key: moment_id.to_owned(),
            game_time_secs,
            captured_at: captured_at.to_owned(),
            data,
            trigger_fired: Some(trigger_fired),
        }
    }
}

} // verus!
