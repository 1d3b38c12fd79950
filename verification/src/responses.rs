//! Responses sent from gamepacks to the main daemon.

use vstd::prelude::*;

use crate::json::{Json, JsonView};
use crate::types::{
    GameEvent, GameEventView, MatchDataMessage, MatchDataMessageView, TimelineEntry,
    TimelineEntryView,
};
use crate::views::{list_view, option_view};

verus! {

/// Responses from a gamepack to the main daemon.
///
/// Each response but `WriteMatchData` includes the `request_id` from the
/// corresponding command.
#[derive(Debug, Clone, PartialEq, Eq)]
pub enum GamepackResponse {
    /// Initialization complete.
    Initialized {
        request_id: String,
        /// Unique identifier for this game
        game_id: i32,
        /// URL-friendly slug (e.g., "league", "valorant")
        slug: String,
        /// Protocol version this pack implements
        protocol_version: u32,
    },
    /// Game running status.
    RunningStatus {
        request_id: String,
        /// Whether the game process is running
        running: bool,
    },
    /// Current game status.
    GameStatus {
        request_id: String,
        /// Whether connected to the game's API/client
        connected: bool,
        /// Human-readable connection status
        connection_status: String,
        /// Current game phase (e.g., "Lobby", "InProgress", "PostGame")
        game_phase: Option<String>,
        /// Whether the player is actively in a game
        is_in_game: bool,
    },
    /// Polled events.
    Events {
        request_id: String,
        /// New game events since last poll
        events: Vec<GameEvent>,
    },
    /// Live match data.
    LiveData {
        request_id: String,
        /// Game-specific live match data (stats, scores, etc.)
        data: Option<Json>,
    },
    /// Session started acknowledgment.
    SessionStarted {
        request_id: String,
        /// Optional context data to pass to session_end
        context: Option<Json>,
    },
    /// Session ended with match data.
    SessionEnded {
        request_id: String,
        /// Complete match data for database storage
        match_data: Option<Json>,
    },
    /// Error response.
    Error {
        request_id: String,
        /// Human-readable error message
        message: String,
        /// Optional error code for programmatic handling
        code: Option<String>,
    },
    /// Shutdown complete.
    ShutdownComplete { request_id: String },
    /// Event icon resolved.
    EventIconResolved {
        request_id: String,
        /// The event key that was requested
        event_key: String,
        /// The resolved icon URL, or None if no icon could be found
        icon_url: Option<String>,
    },
    /// Response to IsMatchInProgress command.
    MatchInProgressStatus {
        request_id: String,
        /// Whether the game is actually still running
        still_playing: bool,
        /// If the game ended, optionally a SetComplete message with final stats
        set_complete: Option<MatchDataMessage>,
    },
    /// Response to GetMatchTimeline command.
    MatchTimeline {
        request_id: String,
        /// Whether the match was found
        found: bool,
        /// Timeline entries (empty if not found)
        entries: Vec<TimelineEntry>,
    },
    /// Write match data. This message is sent unasked and answers no command.
    WriteMatchData {
        /// The match data message to process
        message: MatchDataMessage,
    },
    /// Sample match data, to show a match card in the UI.
    SampleMatchData {
        request_id: String,
        /// Subpack index this data is for
        subpack: u8,
        /// Match data as JSON, in the pack's own schema
        data: Json,
    },
}

/// What a [`GamepackResponse`] holds.
pub enum ResponseView {
    Initialized { request_id: Seq<char>, game_id: i32, slug: Seq<char>, protocol_version: u32 },
    RunningStatus { request_id: Seq<char>, running: bool },
    GameStatus {
        request_id: Seq<char>,
        connected: bool,
        connection_status: Seq<char>,
        game_phase: Option<Seq<char>>,
        is_in_game: bool,
    },
    Events { request_id: Seq<char>, events: Seq<GameEventView> },
    LiveData { request_id: Seq<char>, data: Option<JsonView> },
    SessionStarted { request_id: Seq<char>, context: Option<JsonView> },
    SessionEnded { request_id: Seq<char>, match_data: Option<JsonView> },
    Error { request_id: Seq<char>, message: Seq<char>, code: Option<Seq<char>> },
    ShutdownComplete { request_id: Seq<char> },
    EventIconResolved { request_id: Seq<char>, event_key: Seq<char>, icon_url: Option<Seq<char>> },
    MatchInProgressStatus {
        request_id: Seq<char>,
        still_playing: bool,
        set_complete: Option<MatchDataMessageView>,
    },
    MatchTimeline { request_id: Seq<char>, found: bool, entries: Seq<TimelineEntryView> },
    WriteMatchData { message: MatchDataMessageView },
    SampleMatchData { request_id: Seq<char>, subpack: u8, data: JsonView },
}

impl ResponseView {
    /// The correlation token that the response carries; empty for
    /// `WriteMatchData`, which answers no command.
    pub open spec fn request_id(self) -> Seq<char> {
        match self {
            ResponseView::Initialized { request_id, .. } => request_id,
            ResponseView::RunningStatus { request_id, .. } => request_id,
            ResponseView::GameStatus { request_id, .. } => request_id,
            ResponseView::Events { request_id, .. } => request_id,
            ResponseView::LiveData { request_id, .. } => request_id,
            ResponseView::SessionStarted { request_id, .. } => request_id,
            ResponseView::SessionEnded { request_id, .. } => request_id,
            ResponseView::Error { request_id, .. } => request_id,
            ResponseView::ShutdownComplete { request_id } => request_id,
            ResponseView::EventIconResolved { request_id, .. } => request_id,
            ResponseView::MatchInProgressStatus { request_id, .. } => request_id,
            ResponseView::MatchTimeline { request_id, .. } => request_id,
            ResponseView::WriteMatchData { .. } => Seq::empty(),
            ResponseView::SampleMatchData { request_id, .. } => request_id,
        }
    }
}

impl View for GamepackResponse {
    type V = ResponseView;

    open spec fn view(&self) -> ResponseView {
        match self {
            GamepackResponse::Initialized { request_id, game_id, slug, protocol_version } =>
                ResponseView::Initialized {
                request_id: request_id@,
                game_id: *game_id,
                slug: slug@,
                protocol_version: *protocol_version,
            },
            GamepackResponse::RunningStatus { request_id, running } => ResponseView::RunningStatus {
                request_id: request_id@,
                running: *running,
            },
            GamepackResponse::GameStatus {
                request_id,
                connected,
                connection_status,
                game_phase,
                is_in_game,
            } => ResponseView::GameStatus {
                request_id: request_id@,
                connected: *connected,
                connection_status: connection_status@,
                game_phase: option_view(*game_phase),
                is_in_game: *is_in_game,
            },
            GamepackResponse::Events { request_id, events } => ResponseView::Events {
                request_id: request_id@,
                events: list_view(events@),
            },
            GamepackResponse::LiveData { request_id, data } => ResponseView::LiveData {
                request_id: request_id@,
                data: option_view(*data),
            },
            GamepackResponse::SessionStarted { request_id, context } =>
                ResponseView::SessionStarted {
                request_id: request_id@,
                context: option_view(*context),
            },
            GamepackResponse::SessionEnded { request_id, match_data } =>
                ResponseView::SessionEnded {
                request_id: request_id@,
                match_data: option_view(*match_data),
            },
            GamepackResponse::Error { request_id, message, code } => ResponseView::Error {
                request_id: request_id@,
                message: message@,
                code: option_view(*code),
            },
            GamepackResponse::ShutdownComplete { request_id } => ResponseView::ShutdownComplete {
                request_id: request_id@,
            },
            GamepackResponse::EventIconResolved { request_id, event_key, icon_url } =>
                ResponseView::EventIconResolved {
                request_id: request_id@,
                event_key: event_key@,
                icon_url: option_view(*icon_url),
            },
            GamepackResponse::MatchInProgressStatus { request_id, still_playing, set_complete } =>
                ResponseView::MatchInProgressStatus {
                request_id: request_id@,
                still_playing: *still_playing,
                set_complete: option_view(*set_complete),
            },
            GamepackResponse::MatchTimeline { request_id, found, entries } =>
                ResponseView::MatchTimeline {
                request_id: request_id@,
                found: *found,
                entries: list_view(entries@),
            },
            GamepackResponse::WriteMatchData { message } => ResponseView::WriteMatchData {
                message: message@,
            },
            GamepackResponse::SampleMatchData { request_id, subpack, data } =>
                ResponseView::SampleMatchData {
                request_id: request_id@,
                subpack: *subpack,
                data: data@,
            },
        }
    }
}

impl GamepackResponse {
    /// Create an error response.
    pub fn error(request_id: &str, message: &str) -> (r: Self)
        ensures
            r@ == (ResponseView::Error { request_id: request_id@, message: message@, code: None }),
    {
        Self::Error { request_id: request_id.to_owned(), message: message.to_owned(), code: None }
    }

    /// Create an error response with a code.
    pub fn error_with_code(request_id: &str, message: &str, code: &str) -> (r: Self)
        ensures
            r@ == (ResponseView::Error {
                request_id: request_id@,
                message: message@,
                code: Some(code@),
            }),
    {
        Self::Error {
            request_id: request_id.to_owned(),
            message: message.to_owned(),
            code: Some(code.to_owned()),
        }
    }

    /// Get the request_id from any response variant.
    /// Returns the empty string for `WriteMatchData`.
    pub fn request_id(&self) -> (r: &str)
        ensures
            r@ == self@.request_id(),
    {
        match self {
            Self::Initialized { request_id, .. } => request_id.as_str(),
            Self::RunningStatus { request_id, .. } => request_id.as_str(),
            Self::GameStatus { request_id, .. } => request_id.as_str(),
            Self::Events { request_id, .. } => request_id.as_str(),
            Self::LiveData { request_id, .. } => request_id.as_str(),
            Self::SessionStarted { request_id, .. } => request_id.as_str(),
            Self::SessionEnded { request_id, .. } => request_id.as_str(),
            Self::Error { request_id, .. } => request_id.as_str(),
            Self::ShutdownComplete { request_id, .. } => request_id.as_str(),
            Self::EventIconResolved { request_id, .. } => request_id.as_str(),
            Self::MatchInProgressStatus { request_id, .. } => request_id.as_str(),
            Self::MatchTimeline { request_id, .. } => request_id.as_str(),
            Self::SampleMatchData { request_id, .. } => request_id.as_str(),
            Self::WriteMatchData { .. } => {
                proof {
                    reveal_strlit("");
                }
                assert(""@ =~= Seq::<char>::empty());
                ""
            },
        }
    }
}

} // verus!
