use companion_pack_protocol::commands::GamepackCommand;
use companion_pack_protocol::handler::{GamepackError, GamepackHandler, GamepackResult};
use companion_pack_protocol::json::{Json, JsonNumber};
use companion_pack_protocol::responses::GamepackResponse;
use companion_pack_protocol::dispatch::{
    perform, plan, reply_to_init, respond, HandlerCall, HandlerReply,
};
use companion_pack_protocol::outbox::Outbox;
use companion_pack_protocol::runner::{
    advance, answer_line, dispatch_command, match_data_line, parse_command, process_line,
    reply_to_parse_error, respond_to_line, response_line, LoopState,
};
use companion_pack_protocol::stats::StatMap;
use companion_pack_protocol::types::{
    GameEvent, GameStatus, InitResponse, IsMatchInProgressResponse, MatchData, MatchDataMessage,
    SummarySource,
};
use companion_pack_protocol::wire::DecodeError;
use companion_pack_protocol::PROTOCOL_VERSION;

fn json(text: &str) -> Json {
    Json::parse(text).unwrap()
}

struct TestHandler {
    initialized: bool,
}

impl GamepackHandler for TestHandler {
    fn init(&mut self) -> GamepackResult<InitResponse> {
        self.initialized = true;
        Ok(InitResponse { game_id: 99, slug: "test".to_string(), protocol_version: 1 })
    }

    fn detect_running(&self) -> bool {
        true
    }

    fn get_status(&self) -> GameStatus {
        GameStatus::connected("Test connected")
    }

    fn poll_events(&mut self) -> Vec<GameEvent> {
        vec![]
    }

    fn get_live_data(&self) -> Option<Json> {
        Some(json(r#"{"test": true}"#))
    }

    fn on_session_start(&mut self) -> Option<Json> {
        Some(json(r#"{"started": true}"#))
    }

    fn on_session_end(&mut self, _context: Json) -> Option<MatchData> {
        Some(MatchData::new("test", 99, "win", json("{}")))
    }

    fn shutdown(&mut self) {}
}

/// A handler that overrides every method and records what it was asked.
struct FullHandler {
    calls: Vec<String>,
    fail_init: bool,
    version: u32,
}

impl FullHandler {
    fn new() -> Self {
        FullHandler { calls: vec![], fail_init: false, version: 3 }
    }
}

impl GamepackHandler for FullHandler {
    fn init(&mut self) -> GamepackResult<InitResponse> {
        self.calls.push("init".to_string());
        if self.fail_init {
            Err(GamepackError::with_code("no client", "E_CLIENT"))
        } else {
            Ok(InitResponse { game_id: -5, slug: "full".to_string(), protocol_version: self.version })
        }
    }

    fn detect_running(&self) -> bool {
        false
    }

    fn get_status(&self) -> GameStatus {
        GameStatus::connected("Connected").with_phase("Lobby").in_game(true)
    }

    fn poll_events(&mut self) -> Vec<GameEvent> {
        self.calls.push("poll_events".to_string());
        vec![GameEvent::new("Kill", JsonNumber::Decimal("1.5".to_string()), json("{}"))]
    }

    fn get_live_data(&self) -> Option<Json> {
        None
    }

    fn on_session_start(&mut self) -> Option<Json> {
        self.calls.push("on_session_start".to_string());
        None
    }

    fn on_session_end(&mut self, context: Json) -> Option<MatchData> {
        self.calls.push(format!("on_session_end {}", context.to_text().unwrap()));
        None
    }

    fn shutdown(&mut self) {
        self.calls.push("shutdown".to_string());
    }

    fn resolve_event_icon(&self, event_key: &str) -> Option<String> {
        Some(format!("https://icons.example/{}.png", event_key))
    }

    fn is_match_in_progress(&self, subpack: u8, external_match_id: &str) -> IsMatchInProgressResponse {
        if subpack == 1 {
            IsMatchInProgressResponse::still_playing()
        } else {
            IsMatchInProgressResponse::ended_with_stats(MatchDataMessage::set_complete(
                subpack,
                external_match_id,
                SummarySource::Api,
            ))
        }
    }

    fn get_sample_match_data(&self, subpack: u8) -> Option<Json> {
        Some(Json::Array(vec![Json::Number(JsonNumber::PosInt(subpack as u64))]))
    }
}

#[test]
fn test_dispatch_init() {
    let mut handler = TestHandler { initialized: false };
    let response =
        dispatch_command(&mut handler, GamepackCommand::Init { request_id: "test_1".to_string() });

    assert!(handler.initialized);
    match response {
        GamepackResponse::Initialized { request_id, game_id, slug, .. } => {
            assert_eq!(request_id, "test_1");
            assert_eq!(game_id, 99);
            assert_eq!(slug, "test");
        }
        _ => panic!("Expected Initialized response"),
    }
}

#[test]
fn test_dispatch_get_status() {
    let mut handler = TestHandler { initialized: false };
    let response = dispatch_command(
        &mut handler,
        GamepackCommand::GetStatus { request_id: "test_2".to_string() },
    );

    match response {
        GamepackResponse::GameStatus { request_id, connected, connection_status, .. } => {
            assert_eq!(request_id, "test_2");
            assert!(connected);
            assert_eq!(connection_status, "Test connected");
        }
        _ => panic!("Expected GameStatus response"),
    }
}

#[test]
fn init_keeps_the_declared_version_and_falls_back_on_zero() {
    let mut handler = FullHandler::new();
    let response = dispatch_command(&mut handler, GamepackCommand::Init { request_id: "a".into() });
    assert_eq!(
        response,
        GamepackResponse::Initialized {
            request_id: "a".to_string(),
            game_id: -5,
            slug: "full".to_string(),
            protocol_version: 3,
        }
    );

    handler.version = 0;
    let response = dispatch_command(&mut handler, GamepackCommand::Init { request_id: "b".into() });
    assert_eq!(
        response,
        GamepackResponse::Initialized {
            request_id: "b".to_string(),
            game_id: -5,
            slug: "full".to_string(),
            protocol_version: PROTOCOL_VERSION,
        }
    );
    assert_eq!(PROTOCOL_VERSION, 1);
    assert_eq!(handler.calls, vec!["init", "init"]);
}

#[test]
fn init_failure_becomes_an_error_with_the_request_id() {
    let mut handler = FullHandler::new();
    handler.fail_init = true;
    let response = dispatch_command(&mut handler, GamepackCommand::Init { request_id: "r9".into() });
    assert_eq!(
        response,
        GamepackResponse::Error {
            request_id: "r9".to_string(),
            message: "no client".to_string(),
            code: Some("E_CLIENT".to_string()),
        }
    );
    assert_eq!(
        reply_to_init("x".to_string(), Err(GamepackError::new("plain"))),
        GamepackResponse::error("x", "plain")
    );
}

#[test]
fn each_command_gets_its_kind_of_response_with_its_request_id() {
    let mut handler = FullHandler::new();
    let id = || "req-7".to_string();

    assert_eq!(
        dispatch_command(&mut handler, GamepackCommand::DetectRunning { request_id: id() }),
        GamepackResponse::RunningStatus { request_id: id(), running: false }
    );
    assert_eq!(
        dispatch_command(&mut handler, GamepackCommand::GetStatus { request_id: id() }),
        GamepackResponse::GameStatus {
            request_id: id(),
            connected: true,
            connection_status: "Connected".to_string(),
            game_phase: Some("Lobby".to_string()),
            is_in_game: true,
        }
    );
    assert_eq!(
        dispatch_command(&mut handler, GamepackCommand::PollEvents { request_id: id() }),
        GamepackResponse::Events {
            request_id: id(),
            events: vec![GameEvent::new("Kill", JsonNumber::Decimal("1.5".to_string()), json("{}"))],
        }
    );
    assert_eq!(
        dispatch_command(&mut handler, GamepackCommand::GetLiveData { request_id: id() }),
        GamepackResponse::LiveData { request_id: id(), data: None }
    );
    assert_eq!(
        dispatch_command(&mut handler, GamepackCommand::SessionStart { request_id: id() }),
        GamepackResponse::SessionStarted { request_id: id(), context: None }
    );
    assert_eq!(
        dispatch_command(
            &mut handler,
            GamepackCommand::SessionEnd { request_id: id(), context: json(r#"{"k":1}"#) }
        ),
        GamepackResponse::SessionEnded { request_id: id(), match_data: None }
    );
    assert_eq!(
        dispatch_command(
            &mut handler,
            GamepackCommand::ResolveEventIcon { request_id: id(), event_key: "Kill".to_string() }
        ),
        GamepackResponse::EventIconResolved {
            request_id: id(),
            event_key: "Kill".to_string(),
            icon_url: Some("https://icons.example/Kill.png".to_string()),
        }
    );
    assert_eq!(
        dispatch_command(
            &mut handler,
            GamepackCommand::IsMatchInProgress {
                request_id: id(),
                subpack: 1,
                external_match_id: "m".to_string(),
            }
        ),
        GamepackResponse::MatchInProgressStatus {
            request_id: id(),
            still_playing: true,
            set_complete: None,
        }
    );
    assert_eq!(
        dispatch_command(
            &mut handler,
            GamepackCommand::IsMatchInProgress {
                request_id: id(),
                subpack: 2,
                external_match_id: "m".to_string(),
            }
        ),
        GamepackResponse::MatchInProgressStatus {
            request_id: id(),
            still_playing: false,
            set_complete: Some(MatchDataMessage::set_complete(2, "m", SummarySource::Api)),
        }
    );
    assert_eq!(
        dispatch_command(
            &mut handler,
            GamepackCommand::GetSampleMatchData { request_id: id(), subpack: 4 }
        ),
        GamepackResponse::SampleMatchData { request_id: id(), subpack: 4, data: json("[4]") }
    );
    assert_eq!(
        dispatch_command(&mut handler, GamepackCommand::Shutdown { request_id: id() }),
        GamepackResponse::ShutdownComplete { request_id: id() }
    );
    assert_eq!(
        handler.calls,
        vec!["poll_events", "on_session_start", "on_session_end {\"k\":1}", "shutdown"]
    );
}

#[test]
fn session_end_carries_the_match_data_as_an_object() {
    let mut handler = TestHandler { initialized: false };
    let response = dispatch_command(
        &mut handler,
        GamepackCommand::SessionEnd { request_id: "s".to_string(), context: Json::Null },
    );
    assert_eq!(
        response,
        GamepackResponse::SessionEnded {
            request_id: "s".to_string(),
            match_data: Some(json(r#"{"game_slug":"test","game_id":99,"result":"win","details":{}}"#)),
        }
    );
}

#[test]
fn get_match_timeline_is_answered_not_found_without_a_handler_call() {
    let mut handler = FullHandler::new();
    let response = dispatch_command(
        &mut handler,
        GamepackCommand::GetMatchTimeline {
            request_id: "t1".to_string(),
            subpack: 0,
            external_match_id: "m1".to_string(),
            entry_types: Some(vec!["event".to_string()]),
            limit: Some(10),
        },
    );
    assert_eq!(
        response,
        GamepackResponse::MatchTimeline { request_id: "t1".to_string(), found: false, entries: vec![] }
    );
    assert!(handler.calls.is_empty());
}

#[test]
fn defaults_answer_for_a_handler_that_overrides_nothing() {
    let mut handler = TestHandler { initialized: false };
    assert_eq!(
        dispatch_command(
            &mut handler,
            GamepackCommand::IsMatchInProgress {
                request_id: "p".to_string(),
                subpack: 0,
                external_match_id: "m1".to_string(),
            }
        ),
        GamepackResponse::MatchInProgressStatus {
            request_id: "p".to_string(),
            still_playing: false,
            set_complete: None,
        }
    );
    assert_eq!(
        dispatch_command(
            &mut handler,
            GamepackCommand::ResolveEventIcon {
                request_id: "q".to_string(),
                event_key: "DragonKill".to_string(),
            }
        ),
        GamepackResponse::EventIconResolved {
            request_id: "q".to_string(),
            event_key: "DragonKill".to_string(),
            icon_url: None,
        }
    );
    assert_eq!(
        dispatch_command(
            &mut handler,
            GamepackCommand::GetSampleMatchData { request_id: "r".to_string(), subpack: 2 }
        ),
        GamepackResponse::SampleMatchData { request_id: "r".to_string(), subpack: 2, data: Json::Null }
    );
}

/// A handler that reports a fixed status.
struct StatusHandler;

impl GamepackHandler for StatusHandler {
    fn init(&mut self) -> GamepackResult<InitResponse> {
        Err(GamepackError::new("unused"))
    }

    fn detect_running(&self) -> bool {
        false
    }

    fn get_status(&self) -> GameStatus {
        GameStatus::connected("Connected")
    }

    fn poll_events(&mut self) -> Vec<GameEvent> {
        vec![]
    }

    fn get_live_data(&self) -> Option<Json> {
        None
    }

    fn on_session_start(&mut self) -> Option<Json> {
        None
    }

    fn on_session_end(&mut self, _context: Json) -> Option<MatchData> {
        None
    }

    fn shutdown(&mut self) {}
}

#[test]
fn get_status_line_leaves_the_absent_phase_out() {
    let mut handler = StatusHandler;
    let step =
        process_line(LoopState::Running, &mut handler, r#"{"type":"get_status","request_id":"r1"}"#);
    assert_eq!(
        step.output.unwrap(),
        "{\"type\":\"game_status\",\"request_id\":\"r1\",\"connected\":true,\"connection_status\":\"Connected\",\"is_in_game\":false}\n"
    );
    assert_eq!(step.state, LoopState::Running);
}

#[test]
fn a_malformed_line_gets_one_error_and_the_loop_goes_on() {
    let mut handler = StatusHandler;
    let step = process_line(LoopState::Running, &mut handler, "{not json");
    assert_eq!(step.state, LoopState::Running);
    match step.response.unwrap() {
        GamepackResponse::Error { request_id, message, code } => {
            assert_eq!(request_id, "");
            assert!(message.starts_with("Parse error: "));
            assert_eq!(code, None);
        }
        other => panic!("expected an error, got {:?}", other),
    }
    let line = step.output.unwrap();
    assert!(line.starts_with("{\"type\":\"error\",\"request_id\":\"\",\"message\":\"Parse error: "));
    assert!(line.ends_with("\"}\n"));

    let step = process_line(
        step.state,
        &mut handler,
        r#"{"type":"detect_running","request_id":"next"}"#,
    );
    assert_eq!(
        step.output.unwrap(),
        "{\"type\":\"running_status\",\"request_id\":\"next\",\"running\":false}\n"
    );
    assert_eq!(step.state, LoopState::Running);
}

#[test]
fn an_unknown_command_is_a_parse_error() {
    let mut handler = StatusHandler;
    let response = respond_to_line(&mut handler, r#"{"type":"dance","request_id":"r1"}"#);
    assert_eq!(response, GamepackResponse::error("", "Parse error: unknown variant `dance`"));
    let response = respond_to_line(&mut handler, r#"{"type":"init"}"#);
    assert_eq!(response, GamepackResponse::error("", "Parse error: missing field `request_id`"));
    let response = respond_to_line(&mut handler, "[1,2]");
    assert_eq!(response, GamepackResponse::error("", "Parse error: expected a JSON object"));
    let response = respond_to_line(&mut handler, r#"{"type":"init","request_id":5}"#);
    assert_eq!(
        response,
        GamepackResponse::error("", "Parse error: invalid value for field `request_id`")
    );
    let response = respond_to_line(&mut handler, "nope");
    assert_eq!(
        response,
        GamepackResponse::error("", "Parse error: expected ident at line 1 column 2")
    );
    assert_eq!(
        reply_to_parse_error(&DecodeError::Syntax("bad".to_string())),
        GamepackResponse::error("", "Parse error: bad")
    );
}

#[test]
fn blank_lines_are_skipped() {
    let mut handler = StatusHandler;
    for line in ["", " ", "\t  \r", "\u{a0}\u{2003}\u{3000}"] {
        let step = process_line(LoopState::Running, &mut handler, line);
        assert_eq!(step.state, LoopState::Running);
        assert_eq!(step.response, None);
        assert_eq!(step.output, None);
    }
    let step = process_line(LoopState::Running, &mut handler, "\u{200b}");
    assert!(step.output.is_some());
}

#[test]
fn shutdown_stops_the_loop_and_nothing_is_answered_afterwards() {
    let mut handler = FullHandler::new();
    let step =
        process_line(LoopState::Running, &mut handler, r#"{"type":"shutdown","request_id":"bye"}"#);
    assert_eq!(step.output.unwrap(), "{\"type\":\"shutdown_complete\",\"request_id\":\"bye\"}\n");
    assert_eq!(
        step.response,
        Some(GamepackResponse::ShutdownComplete { request_id: "bye".to_string() })
    );
    assert_eq!(step.state, LoopState::Stopped);
    assert_eq!(handler.calls, vec!["shutdown"]);

    for line in [r#"{"type":"init","request_id":"late"}"#, "", "garbage"] {
        let step = process_line(LoopState::Stopped, &mut handler, line);
        assert_eq!(step.state, LoopState::Stopped);
        assert_eq!(step.response, None);
        assert_eq!(step.output, None);
    }
    assert_eq!(handler.calls, vec!["shutdown"]);
}

#[test]
fn a_session_end_line_hands_the_context_to_the_handler() {
    let mut handler = FullHandler::new();
    let command = parse_command(
        r#"{"request_id":"e1","context":{"started":true,"n":[1,2.5,-3]},"type":"session_end"}"#,
    )
    .unwrap();
    assert_eq!(
        command,
        GamepackCommand::SessionEnd {
            request_id: "e1".to_string(),
            context: json(r#"{"started":true,"n":[1,2.5,-3]}"#),
        }
    );
    dispatch_command(&mut handler, command);
    assert_eq!(handler.calls, vec!["on_session_end {\"started\":true,\"n\":[1,2.5,-3]}"]);
}

#[test]
fn match_data_lines_are_whole_lines() {
    let mut stats = StatMap::new();
    stats.insert("kills".to_string(), Json::Number(JsonNumber::PosInt(1)));
    let first = match_data_line(MatchDataMessage::write_statistics(
        0,
        "m1",
        JsonNumber::Decimal("12.0".to_string()),
        stats,
    ))
    .unwrap();
    let second = match_data_line(MatchDataMessage::set_complete(
        0,
        "line\nfeed",
        SummarySource::LiveFallback,
    ))
    .unwrap();

    assert_eq!(
        first,
        "{\"type\":\"write_match_data\",\"message\":{\"type\":\"write_statistics\",\"subpack\":0,\"external_match_id\":\"m1\",\"game_time_secs\":12.0,\"stats\":{\"kills\":1}}}\n"
    );
    assert_eq!(
        second,
        "{\"type\":\"write_match_data\",\"message\":{\"type\":\"set_complete\",\"subpack\":0,\"external_match_id\":\"line\\nfeed\",\"summary_source\":\"live_fallback\"}}\n"
    );
    let stream = format!("{}{}", second, first);
    let lines: Vec<&str> = stream.split_terminator('\n').collect();
    assert_eq!(lines.len(), 2);
    for line in lines {
        let response = GamepackResponse::from_json(&json(line)).unwrap();
        assert_eq!(response.request_id(), "");
        assert!(matches!(response, GamepackResponse::WriteMatchData { .. }));
    }
}

#[test]
fn response_line_is_the_json_text_and_a_line_feed() {
    let response = GamepackResponse::error_with_code("r", "went\nwrong", "E1");
    assert_eq!(
        response_line(&response).unwrap(),
        "{\"type\":\"error\",\"request_id\":\"r\",\"message\":\"went\\nwrong\",\"code\":\"E1\"}\n"
    );
}

#[test]
fn a_command_stands_for_one_call_with_what_it_hands_over() {
    assert_eq!(
        plan(GamepackCommand::Init { request_id: "a".to_string() }),
        ("a".to_string(), Some(HandlerCall::Init))
    );
    assert_eq!(
        plan(GamepackCommand::SessionEnd { request_id: "b".to_string(), context: json("[1]") }),
        ("b".to_string(), Some(HandlerCall::OnSessionEnd { context: json("[1]") }))
    );
    assert_eq!(
        plan(GamepackCommand::ResolveEventIcon {
            request_id: "c".to_string(),
            event_key: "Kill".to_string(),
        }),
        ("c".to_string(), Some(HandlerCall::ResolveEventIcon { event_key: "Kill".to_string() }))
    );
    assert_eq!(
        plan(GamepackCommand::IsMatchInProgress {
            request_id: "d".to_string(),
            subpack: 3,
            external_match_id: "m".to_string(),
        }),
        (
            "d".to_string(),
            Some(HandlerCall::IsMatchInProgress { subpack: 3, external_match_id: "m".to_string() })
        )
    );
    assert_eq!(
        plan(GamepackCommand::GetSampleMatchData { request_id: "e".to_string(), subpack: 8 }),
        ("e".to_string(), Some(HandlerCall::GetSampleMatchData { subpack: 8 }))
    );
    assert_eq!(
        plan(GamepackCommand::GetMatchTimeline {
            request_id: "f".to_string(),
            subpack: 0,
            external_match_id: "m".to_string(),
            entry_types: None,
            limit: None,
        }),
        ("f".to_string(), None)
    );
    assert_eq!(
        plan(GamepackCommand::Shutdown { request_id: "g".to_string() }),
        ("g".to_string(), Some(HandlerCall::Shutdown))
    );
}

#[test]
fn a_call_is_made_on_the_method_it_names() {
    let mut handler = FullHandler::new();
    assert_eq!(perform(&mut handler, HandlerCall::DetectRunning), HandlerReply::DetectRunning(false));
    assert_eq!(perform(&mut handler, HandlerCall::GetLiveData), HandlerReply::GetLiveData(None));
    assert_eq!(perform(&mut handler, HandlerCall::OnSessionStart), HandlerReply::OnSessionStart(None));
    assert_eq!(
        perform(&mut handler, HandlerCall::OnSessionEnd { context: Json::Bool(true) }),
        HandlerReply::OnSessionEnd(None)
    );
    assert_eq!(
        perform(&mut handler, HandlerCall::ResolveEventIcon { event_key: "K".to_string() }),
        HandlerReply::ResolveEventIcon {
            event_key: "K".to_string(),
            icon_url: Some("https://icons.example/K.png".to_string()),
        }
    );
    assert_eq!(
        perform(&mut handler, HandlerCall::GetSampleMatchData { subpack: 6 }),
        HandlerReply::GetSampleMatchData { subpack: 6, data: Some(json("[6]")) }
    );
    assert_eq!(perform(&mut handler, HandlerCall::Shutdown), HandlerReply::Shutdown);
    assert_eq!(handler.calls, vec!["on_session_start", "on_session_end true", "shutdown"]);
}

#[test]
fn a_reply_becomes_one_response() {
    assert_eq!(
        respond("r".to_string(), None),
        GamepackResponse::MatchTimeline { request_id: "r".to_string(), found: false, entries: vec![] }
    );
    assert_eq!(
        respond("r".to_string(), Some(HandlerReply::DetectRunning(true))),
        GamepackResponse::RunningStatus { request_id: "r".to_string(), running: true }
    );
    assert_eq!(
        respond(
            "r".to_string(),
            Some(HandlerReply::Init(Ok(InitResponse {
                game_id: 1,
                slug: "s".to_string(),
                protocol_version: 0,
            })))
        ),
        GamepackResponse::Initialized {
            request_id: "r".to_string(),
            game_id: 1,
            slug: "s".to_string(),
            protocol_version: 1,
        }
    );
    assert_eq!(
        respond("r".to_string(), Some(HandlerReply::GetSampleMatchData { subpack: 2, data: None })),
        GamepackResponse::SampleMatchData { request_id: "r".to_string(), subpack: 2, data: Json::Null }
    );
    assert_eq!(
        respond(
            "r".to_string(),
            Some(HandlerReply::IsMatchInProgress(IsMatchInProgressResponse::ended()))
        ),
        GamepackResponse::MatchInProgressStatus {
            request_id: "r".to_string(),
            still_playing: false,
            set_complete: None,
        }
    );
}

#[test]
fn the_outbox_holds_whole_lines_in_the_order_they_came() {
    let mut outbox = Outbox::new();
    assert!(outbox.is_empty());
    assert_eq!(outbox.take(), "");

    let mut stats = StatMap::new();
    stats.insert("note".to_string(), Json::String("two\nlines".to_string()));
    let messages = vec![
        MatchDataMessage::write_statistics(0, "m1", JsonNumber::PosInt(1), stats),
        MatchDataMessage::set_complete(0, "m2", SummarySource::Api),
    ];
    for order in [[0, 1], [1, 0]] {
        let mut sent = vec![];
        for index in order {
            assert!(outbox.push_match_data(messages[index].clone()));
            sent.push(messages[index].clone());
        }
        assert!(outbox.push(&GamepackResponse::ShutdownComplete { request_id: "x".to_string() }));
        assert!(!outbox.is_empty());

        let stream = outbox.take();
        assert!(outbox.is_empty());
        assert!(stream.ends_with('\n'));
        let lines: Vec<&str> = stream.split_terminator('\n').collect();
        assert_eq!(lines.len(), 3);
        for (line, message) in lines.iter().zip(sent) {
            assert_eq!(
                GamepackResponse::from_json(&json(line)).unwrap(),
                GamepackResponse::WriteMatchData { message }
            );
        }
        assert_eq!(lines[2], r#"{"type":"shutdown_complete","request_id":"x"}"#);
    }
}

#[test]
fn the_loop_stops_only_when_the_answer_to_shutdown_went_out() {
    let done = GamepackResponse::ShutdownComplete { request_id: "x".to_string() };
    let other = GamepackResponse::RunningStatus { request_id: "x".to_string(), running: true };
    assert_eq!(advance(LoopState::Running, &done, true), LoopState::Stopped);
    assert_eq!(advance(LoopState::Running, &done, false), LoopState::Running);
    assert_eq!(advance(LoopState::Running, &other, true), LoopState::Running);
    assert_eq!(advance(LoopState::Stopped, &other, true), LoopState::Stopped);
    assert_eq!(advance(LoopState::Stopped, &done, false), LoopState::Stopped);

    let mut handler = StatusHandler;
    assert_eq!(answer_line(LoopState::Running, &mut handler, "  "), None);
    assert_eq!(
        answer_line(LoopState::Stopped, &mut handler, r#"{"type":"init","request_id":"r"}"#),
        None
    );
    assert_eq!(
        answer_line(LoopState::Running, &mut handler, r#"{"type":"init","request_id":"r"}"#),
        Some(GamepackResponse::error("r", "unused"))
    );
}

#[test]
fn an_empty_poll_and_absent_live_data_are_answers_not_errors() {
    let mut handler = TestHandler { initialized: false };
    let step =
        process_line(LoopState::Running, &mut handler, r#"{"type":"poll_events","request_id":"p1"}"#);
    assert_eq!(
        step.response,
        Some(GamepackResponse::Events { request_id: "p1".to_string(), events: vec![] })
    );
    assert_eq!(step.output.unwrap(), "{\"type\":\"events\",\"request_id\":\"p1\",\"events\":[]}\n");

    let step = process_line(
        LoopState::Running,
        &mut handler,
        r#"{"type":"get_live_data","request_id":"p2"}"#,
    );
    assert_eq!(
        step.output.unwrap(),
        "{\"type\":\"live_data\",\"request_id\":\"p2\",\"data\":{\"test\":true}}\n"
    );

    let mut quiet = StatusHandler;
    let step =
        process_line(LoopState::Running, &mut quiet, r#"{"type":"get_live_data","request_id":"p3"}"#);
    assert_eq!(step.output.unwrap(), "{\"type\":\"live_data\",\"request_id\":\"p3\"}\n");
    let step = process_line(
        LoopState::Running,
        &mut quiet,
        r#"{"type":"session_start","request_id":"p4"}"#,
    );
    assert_eq!(step.output.unwrap(), "{\"type\":\"session_started\",\"request_id\":\"p4\"}\n");
}
