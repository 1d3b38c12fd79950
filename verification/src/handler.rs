//! Trait for implementing gamepack handlers.

use vstd::prelude::*;

use crate::json::Json;
use crate::types::{GameEvent, GameStatus, InitResponse, IsMatchInProgressResponse, MatchData};
use crate::views::option_view;

verus! {

/// Result type for gamepack operations.
pub type GamepackResult<T> = Result<T, GamepackError>;

/// Error type for gamepack operations.
#[derive(Debug, Clone, PartialEq, Eq)]
pub struct GamepackError {
    /// Error message
    pub message: String,
    /// Optional error code
    pub code: Option<String>,
}

/// What a [`GamepackError`] holds.
pub struct GamepackErrorView {
    pub message: Seq<char>,
    pub code: Option<Seq<char>>,
}

impl View for GamepackError {
    type V = GamepackErrorView;

    open spec fn view(&self) -> GamepackErrorView {
        GamepackErrorView { message: self.message@, code: option_view(self.code) }
    }
}

impl GamepackError {
    /// Create a new error.
    pub fn new(message: &str) -> (r: Self)
        ensures
            r@ == (GamepackErrorView { message: message@, code: None }),
    {
        Self { message: message.to_owned(), code: None }
    }

    /// Create an error with a code.
    pub fn with_code(message: &str, code: &str) -> (r: Self)
        ensures
            r@ == (GamepackErrorView { message: message@, code: Some(code@) }),
    {
        Self { message: message.to_owned(), code: Some(code.to_owned()) }
    }

    /// The text of the error: the message, after the code in square
    /// brackets where there is one.
    pub open spec fn text(error: GamepackErrorView) -> Seq<char> {
        match error.code {
            Some(code) => "["@ + code + "] "@ + error.message,
            None => error.message,
        }
    }

    /// The text of the error: the message, after the code in square
    /// brackets where there is one.
    pub fn to_string(&self) -> (r: String)
        ensures
            r@ == Self::text(self@),
    {
        match &self.code {
            Some(code) => {
                let mut out = "[".to_owned();
                out.append(code.as_str());
                out.append("] ");
                out.append(self.message.as_str());
                out
            },
            None => self.message.clone(),
        }
    }
}

impl From<String> for GamepackError {
    fn from(s: String) -> (r: Self) {
        Self { message: s, code: None }
    }
}

impl vstd::std_specs::convert::FromSpecImpl<String> for GamepackError {
    open spec fn obeys_from_spec() -> bool {
        true
    }

    open spec fn from_spec(s: String) -> Self {
        GamepackError { message: s, code: None }
    }
}

impl vstd::std_specs::convert::FromSpecImpl<&str> for GamepackError {
    open spec fn obeys_from_spec() -> bool {
        false
    }

    open spec fn from_spec(s: &str) -> Self {
        arbitrary()
    }
}

impl From<&str> for GamepackError {
    fn from(s: &str) -> (r: Self)
        ensures
            r@ == (GamepackErrorView { message: s@, code: None }),
    {
        Self::new(s)
    }
}

/// Trait that gamepacks implement for clean integration with the main daemon.
///
/// The dispatch engine calls exactly one method for each command it
/// receives. `init` may fail; every other method answers, some of them with
/// an absence. `resolve_event_icon`, `is_match_in_progress` and
/// `get_sample_match_data` have defaults, so that a gamepack overrides only
/// what its game supports.
pub trait GamepackHandler {
    /// Initialize the integration.
    ///
    /// Called once when the gamepack process starts. Return metadata about
    /// this game integration.
    fn init(&mut self) -> GamepackResult<InitResponse>;

    /// Check if the game client/process is running.
    fn detect_running(&self) -> bool;

    /// Get current connection/game status.
    fn get_status(&self) -> GameStatus;

    /// Poll for new game events since the last poll.
    fn poll_events(&mut self) -> Vec<GameEvent>;

    /// Get live match data. Return `None` if not in a game.
    fn get_live_data(&self) -> Option<Json>;

    /// Called when a game session starts.
    ///
    /// Return optional context data that will be passed to `on_session_end`.
    fn on_session_start(&mut self) -> Option<Json>;

    /// Called when a game session ends.
    ///
    /// Return the complete match data for storage. The `context` parameter
    /// holds the data returned from `on_session_start`.
    fn on_session_end(&mut self, context: Json) -> Option<MatchData>;

    /// Called on graceful shutdown.
    fn shutdown(&mut self);

    /// Resolve an icon URL for an event type.
    ///
    /// Default implementation returns `None`.
    fn resolve_event_icon(&self, event_key: &str) -> (icon_url: Option<String>)
        default_ensures
            icon_url is None,
    {
        None
    }

    /// Check if a match is still in progress.
    ///
    /// Called during stale match recovery. If the game has ended, the
    /// gamepack can provide final stats by including a `SetComplete` message
    /// in the response.
    ///
    /// Default implementation says that the match has ended, with no final
    /// stats.
    fn is_match_in_progress(&self, subpack: u8, external_match_id: &str) -> (answer:
        IsMatchInProgressResponse)
        default_ensures
            answer@ == IsMatchInProgressResponse::ended_view(),
    {
        IsMatchInProgressResponse::ended()
    }

    /// Generate sample match data, to show a match card in the UI.
    ///
    /// Default implementation returns `None`.
    fn get_sample_match_data(&self, subpack: u8) -> (data: Option<Json>)
        default_ensures
            data is None,
    {
        None
    }
}

} // verus!
