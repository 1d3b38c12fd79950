//! Commands sent from the main daemon to gamepacks.

use vstd::prelude::*;

use crate::json::{Json, JsonView};
use crate::views::option_list_view;

verus! {

/// Commands sent from the main daemon to a gamepack.
///
/// Each command includes a `request_id` for correlating responses.
#[derive(Debug, Clone, PartialEq, Eq)]
pub enum GamepackCommand {
    /// Initialize the integration.
    /// Expected response: `Initialized`
    Init { request_id: String },
    /// Check if the game client/process is running.
    /// Expected response: `RunningStatus`
    DetectRunning { request_id: String },
    /// Get current connection and game status.
    /// Expected response: `GameStatus`
    GetStatus { request_id: String },
    /// Poll for new game events (triggers for clip capture).
    /// Expected response: `Events`
    PollEvents { request_id: String },
    /// Get live match data for display in the UI.
    /// Expected response: `LiveData`
    GetLiveData { request_id: String },
    /// Notification that a game session has started.
    /// Expected response: `SessionStarted`
    SessionStart { request_id: String },
    /// Notification that a game session has ended.
    /// Expected response: `SessionEnded`
    SessionEnd {
        request_id: String,
        /// Context data captured at session start
        context: Json,
    },
    /// Request graceful shutdown.
    /// Expected response: `ShutdownComplete`
    Shutdown { request_id: String },
    /// Request an icon URL for an event type.
    /// Expected response: `EventIconResolved`
    ResolveEventIcon {
        request_id: String,
        /// The event key to resolve an icon for (e.g., "ChampionKill")
        event_key: String,
    },
    /// Check if a match is still in progress.
    /// Sent during stale match recovery (daemon startup, gamepack reload).
    /// Expected response: `MatchInProgressStatus`
    IsMatchInProgress {
        request_id: String,
        /// Subpack index (0 = default)
        subpack: u8,
        /// Game's native match ID
        external_match_id: String,
    },
    /// Request match timeline data.
    /// Expected response: `MatchTimeline`
    GetMatchTimeline {
        request_id: String,
        /// Subpack index (0 = default)
        subpack: u8,
        /// Game's native match ID
        external_match_id: String,
        /// Filter by entry types (None = all types)
        entry_types: Option<Vec<String>>,
        /// Max entries to return (latest N)
        limit: Option<u32>,
    },
    /// Request sample match data, to show a match card in the UI.
    /// Expected response: `SampleMatchData`
    GetSampleMatchData {
        request_id: String,
        /// Subpack index (0 = default/main game mode)
        subpack: u8,
    },
}

/// What a [`GamepackCommand`] holds.
pub enum CommandView {
    Init { request_id: Seq<char> },
    DetectRunning { request_id: Seq<char> },
    GetStatus { request_id: Seq<char> },
    PollEvents { request_id: Seq<char> },
    GetLiveData { request_id: Seq<char> },
    SessionStart { request_id: Seq<char> },
    SessionEnd { request_id: Seq<char>, context: JsonView },
    Shutdown { request_id: Seq<char> },
    ResolveEventIcon { request_id: Seq<char>, event_key: Seq<char> },
    IsMatchInProgress { request_id: Seq<char>, subpack: u8, external_match_id: Seq<char> },
    GetMatchTimeline {
        request_id: Seq<char>,
        subpack: u8,
        external_match_id: Seq<char>,
        entry_types: Option<Seq<Seq<char>>>,
        limit: Option<u32>,
    },
    GetSampleMatchData { request_id: Seq<char>, subpack: u8 },
}

impl CommandView {
    /// The correlation token that the command carries.
    pub open spec fn request_id(self) -> Seq<char> {
        match self {
            CommandView::Init { request_id } => request_id,
            CommandView::DetectRunning { request_id } => request_id,
            CommandView::GetStatus { request_id } => request_id,
            CommandView::PollEvents { request_id } => request_id,
            CommandView::GetLiveData { request_id } => request_id,
            CommandView::SessionStart { request_id } => request_id,
            CommandView::SessionEnd { request_id, .. } => request_id,
            CommandView::Shutdown { request_id } => request_id,
            CommandView::ResolveEventIcon { request_id, .. } => request_id,
            CommandView::IsMatchInProgress { request_id, .. } => request_id,
            CommandView::GetMatchTimeline { request_id, .. } => request_id,
            CommandView::GetSampleMatchData { request_id, .. } => request_id,
        }
    }
}

impl View for GamepackCommand {
    type V = CommandView;

    open spec fn view(&self) -> CommandView {
        match self {
            GamepackCommand::Init { request_id } => CommandView::Init { request_id: request_id@ },
            GamepackCommand::DetectRunning { request_id } => CommandView::DetectRunning {
                request_id: request_id@,
            },
            GamepackCommand::GetStatus { request_id } => CommandView::GetStatus {
                request_id: request_id@,
            },
            GamepackCommand::PollEvents { request_id } => CommandView::PollEvents {
                request_id: request_id@,
            },
            GamepackCommand::GetLiveData { request_id } => CommandView::GetLiveData {
                request_id: request_id@,
            },
            GamepackCommand::SessionStart { request_id } => CommandView::SessionStart {
                request_id: request_id@,
            },
            GamepackCommand::SessionEnd { request_id, context } => CommandView::SessionEnd {
                request_id: request_id@,
                context: context@,
            },
            GamepackCommand::Shutdown { request_id } => CommandView::Shutdown {
                request_id: request_id@,
            },
            GamepackCommand::ResolveEventIcon { request_id, event_key } =>
                CommandView::ResolveEventIcon { request_id: request_id@, event_key: event_key@ },
            GamepackCommand::IsMatchInProgress { request_id, subpack, external_match_id } =>
                CommandView::IsMatchInProgress {
                request_id: request_id@,
                subpack: *subpack,
                external_match_id: external_match_id@,
            },
            GamepackCommand::GetMatchTimeline {
                request_id,
                subpack,
                external_match_id,
                entry_types,
                limit,
            } => CommandView::GetMatchTimeline {
                request_id: request_id@,
                subpack: *subpack,
                external_match_id: external_match_id@,
                entry_types: option_list_view(*entry_types),
                limit: *limit,
            },
            GamepackCommand::GetSampleMatchData { request_id, subpack } =>
                CommandView::GetSampleMatchData { request_id: request_id@, subpack: *subpack },
        }
    }
}

impl GamepackCommand {
    /// Get the request_id from any command variant.
    pub fn request_id(&self) -> (r: &str)
        ensures
            r@ == self@.request_id(),
    {
        match self {
            Self::Init { request_id } => request_id.as_str(),
            Self::DetectRunning { request_id } => request_id.as_str(),
            Self::GetStatus { request_id } => request_id.as_str(),
            Self::PollEvents { request_id } => request_id.as_str(),
            Self::GetLiveData { request_id } => request_id.as_str(),
            Self::SessionStart { request_id } => request_id.as_str(),
            Self::SessionEnd { request_id, .. } => request_id.as_str(),
            Self::Shutdown { request_id } => request_id.as_str(),
            Self::ResolveEventIcon { request_id, .. } => request_id.as_str(),
            Self::IsMatchInProgress { request_id, .. } => request_id.as_str(),
            Self::GetMatchTimeline { request_id, .. } => request_id.as_str(),
            Self::GetSampleMatchData { request_id, .. } => request_id.as_str(),
        }
    }
}

} // verus!
