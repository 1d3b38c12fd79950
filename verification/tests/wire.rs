use companion_pack_protocol::commands::GamepackCommand;
use companion_pack_protocol::handler::GamepackError;
use companion_pack_protocol::json::{Json, JsonNumber};
use companion_pack_protocol::responses::GamepackResponse;
use companion_pack_protocol::runner::parse_command;
use companion_pack_protocol::stats::StatMap;
use companion_pack_protocol::types::{
    EntryType, GameEvent, GetMatchTimelineRequest, GetMatchTimelineResponse,
    IsMatchInProgressRequest, IsMatchInProgressResponse, MatchDataMessage, Moment, SummarySource,
    TimelineEntry,
};
use companion_pack_protocol::wire::commands::CommandKind;
use companion_pack_protocol::wire::responses::ResponseKind;
use companion_pack_protocol::wire::DecodeError;

fn json(text: &str) -> Json {
    Json::parse(text).unwrap()
}

fn decimal(text: &str) -> JsonNumber {
    JsonNumber::Decimal(text.to_string())
}

fn id() -> String {
    "r-1".to_string()
}

fn stats() -> StatMap {
    let mut stats = StatMap::new();
    stats.insert("kills".to_string(), Json::Number(JsonNumber::PosInt(1)));
    stats.insert("ratio".to_string(), Json::Number(decimal("0.5")));
    stats
}

fn every_command() -> Vec<GamepackCommand> {
    vec![
        GamepackCommand::Init { request_id: id() },
        GamepackCommand::DetectRunning { request_id: id() },
        GamepackCommand::GetStatus { request_id: id() },
        GamepackCommand::PollEvents { request_id: id() },
        GamepackCommand::GetLiveData { request_id: id() },
        GamepackCommand::SessionStart { request_id: id() },
        GamepackCommand::SessionEnd { request_id: id(), context: json(r#"{"a":[1,null,"x"]}"#) },
        GamepackCommand::SessionEnd { request_id: id(), context: Json::Null },
        GamepackCommand::Shutdown { request_id: String::new() },
        GamepackCommand::ResolveEventIcon { request_id: id(), event_key: "Dragon\"Kill".to_string() },
        GamepackCommand::IsMatchInProgress {
            request_id: id(),
            subpack: 255,
            external_match_id: "m1".to_string(),
        },
        GamepackCommand::GetMatchTimeline {
            request_id: id(),
            subpack: 0,
            external_match_id: "m1".to_string(),
            entry_types: None,
            limit: None,
        },
        GamepackCommand::GetMatchTimeline {
            request_id: id(),
            subpack: 1,
            external_match_id: "m1".to_string(),
            entry_types: Some(vec!["event".to_string(), "moment".to_string()]),
            limit: Some(u32::MAX),
        },
        GamepackCommand::GetMatchTimeline {
            request_id: id(),
            subpack: 1,
            external_match_id: "m1".to_string(),
            entry_types: Some(vec![]),
            limit: Some(0),
        },
        GamepackCommand::GetSampleMatchData { request_id: id(), subpack: 3 },
    ]
}

fn every_message() -> Vec<MatchDataMessage> {
    vec![
        MatchDataMessage::write_statistics(0, "m1", decimal("100.0"), StatMap::new()),
        MatchDataMessage::write_statistics_with_time(
            7,
            "m1",
            "2024-01-15T10:30:00Z",
            JsonNumber::PosInt(3),
            stats(),
        ),
        MatchDataMessage::write_game_events(
            0,
            "m1",
            vec![
                GameEvent::new("Kill", decimal("50.25"), json("{}")),
                GameEvent::new("Kill", JsonNumber::NegInt(-1), Json::Null)
                    .with_pre_capture(decimal("1.5"))
                    .with_post_capture(JsonNumber::PosInt(2)),
            ],
        ),
        MatchDataMessage::write_moments(0, "m1", vec![Moment::new("death", decimal("75.0"), json("[]"))]),
        MatchDataMessage::write_moments(0, "m1", vec![]),
        MatchDataMessage::set_complete(0, "m1", SummarySource::Api),
        MatchDataMessage::set_complete_with_stats(2, "m1", SummarySource::LiveFallback, stats()),
    ]
}

fn every_response() -> Vec<GamepackResponse> {
    let mut all = vec![
        GamepackResponse::Initialized {
            request_id: id(),
            game_id: i32::MIN,
            slug: "league".to_string(),
            protocol_version: 1,
        },
        GamepackResponse::RunningStatus { request_id: id(), running: true },
        GamepackResponse::GameStatus {
            request_id: id(),
            connected: true,
            connection_status: "Connected".to_string(),
            game_phase: None,
            is_in_game: false,
        },
        GamepackResponse::GameStatus {
            request_id: id(),
            connected: false,
            connection_status: String::new(),
            game_phase: Some("Lobby".to_string()),
            is_in_game: true,
        },
        GamepackResponse::Events { request_id: id(), events: vec![] },
        GamepackResponse::Events {
            request_id: id(),
            events: vec![GameEvent::new("Kill", decimal("1.5"), json(r#"{"k":"v"}"#))],
        },
        GamepackResponse::LiveData { request_id: id(), data: None },
        GamepackResponse::LiveData { request_id: id(), data: Some(json("{}")) },
        GamepackResponse::SessionStarted { request_id: id(), context: None },
        GamepackResponse::SessionStarted { request_id: id(), context: Some(json("[true,false]")) },
        GamepackResponse::SessionEnded { request_id: id(), match_data: None },
        GamepackResponse::SessionEnded { request_id: id(), match_data: Some(json(r#"{"x":1}"#)) },
        GamepackResponse::error(&id(), "boom"),
        GamepackResponse::error_with_code("", "boom", "E42"),
        GamepackResponse::ShutdownComplete { request_id: id() },
        GamepackResponse::EventIconResolved {
            request_id: id(),
            event_key: "Kill".to_string(),
            icon_url: None,
        },
        GamepackResponse::EventIconResolved {
            request_id: id(),
            event_key: "Kill".to_string(),
            icon_url: Some("https://x/y.png".to_string()),
        },
        GamepackResponse::MatchInProgressStatus {
            request_id: id(),
            still_playing: true,
            set_complete: None,
        },
        GamepackResponse::MatchTimeline { request_id: id(), found: false, entries: vec![] },
        GamepackResponse::MatchTimeline {
            request_id: id(),
            found: true,
            entries: vec![
                TimelineEntry::event("Kill", decimal("1.0"), "2024-01-15T10:30:00Z", json("{}")),
                TimelineEntry::statistic(decimal("2.0"), "2024-01-15T10:30:01Z", json(r#"{"kills":1}"#)),
                TimelineEntry::moment("penta", decimal("3.0"), "2024-01-15T10:30:02Z", Json::Null, false),
            ],
        },
        GamepackResponse::SampleMatchData { request_id: id(), subpack: 9, data: Json::Null },
        GamepackResponse::SampleMatchData { request_id: id(), subpack: 9, data: json(r#"{"a":{"b":[]}}"#) },
    ];
    for message in every_message() {
        all.push(GamepackResponse::MatchInProgressStatus {
            request_id: id(),
            still_playing: false,
            set_complete: Some(message.clone()),
        });
        all.push(GamepackResponse::WriteMatchData { message });
    }
    all
}

#[test]
fn every_command_round_trips_through_its_text() {
    for command in every_command() {
        let tree = command.to_json();
        assert_eq!(GamepackCommand::from_json(&tree).unwrap(), command);
        let text = tree.to_text().unwrap();
        assert!(!text.contains('\n'));
        assert_eq!(parse_command(&text).unwrap(), command);
    }
}

#[test]
fn every_response_round_trips_through_its_text() {
    for response in every_response() {
        let tree = response.to_json();
        assert_eq!(GamepackResponse::from_json(&tree).unwrap(), response);
        let text = tree.to_text().unwrap();
        assert!(!text.contains('\n'));
        assert_eq!(GamepackResponse::from_json(&json(&text)).unwrap(), response);
    }
}

#[test]
fn every_message_round_trips_through_its_text() {
    for message in every_message() {
        let text = message.to_json().to_text().unwrap();
        assert_eq!(MatchDataMessage::from_json(&json(&text)).unwrap(), message);
    }
}

#[test]
fn a_present_null_payload_is_read_back_as_absent() {
    let response = GamepackResponse::LiveData { request_id: id(), data: Some(Json::Null) };
    let text = response.to_json().to_text().unwrap();
    assert_eq!(text, r#"{"type":"live_data","request_id":"r-1","data":null}"#);
    assert_eq!(
        GamepackResponse::from_json(&json(&text)).unwrap(),
        GamepackResponse::LiveData { request_id: id(), data: None }
    );
}

#[test]
fn command_texts_are_laid_out_in_order() {
    let texts: Vec<String> =
        every_command().iter().map(|c| c.to_json().to_text().unwrap()).collect();
    assert_eq!(texts[0], r#"{"type":"init","request_id":"r-1"}"#);
    assert_eq!(texts[1], r#"{"type":"detect_running","request_id":"r-1"}"#);
    assert_eq!(texts[2], r#"{"type":"get_status","request_id":"r-1"}"#);
    assert_eq!(texts[3], r#"{"type":"poll_events","request_id":"r-1"}"#);
    assert_eq!(texts[4], r#"{"type":"get_live_data","request_id":"r-1"}"#);
    assert_eq!(texts[5], r#"{"type":"session_start","request_id":"r-1"}"#);
    assert_eq!(
        texts[6],
        r#"{"type":"session_end","request_id":"r-1","context":{"a":[1,null,"x"]}}"#
    );
    assert_eq!(texts[7], r#"{"type":"session_end","request_id":"r-1","context":null}"#);
    assert_eq!(texts[8], r#"{"type":"shutdown","request_id":""}"#);
    assert_eq!(
        texts[9],
        r#"{"type":"resolve_event_icon","request_id":"r-1","event_key":"Dragon\"Kill"}"#
    );
    assert_eq!(
        texts[10],
        r#"{"type":"is_match_in_progress","request_id":"r-1","subpack":255,"external_match_id":"m1"}"#
    );
    assert_eq!(
        texts[11],
        r#"{"type":"get_match_timeline","request_id":"r-1","subpack":0,"external_match_id":"m1"}"#
    );
    assert_eq!(
        texts[12],
        r#"{"type":"get_match_timeline","request_id":"r-1","subpack":1,"external_match_id":"m1","entry_types":["event","moment"],"limit":4294967295}"#
    );
    assert_eq!(texts[14], r#"{"type":"get_sample_match_data","request_id":"r-1","subpack":3}"#);
}

#[test]
fn response_texts_are_laid_out_in_order() {
    let text = |r: &GamepackResponse| r.to_json().to_text().unwrap();
    let all = every_response();
    assert_eq!(
        text(&all[0]),
        r#"{"type":"initialized","request_id":"r-1","game_id":-2147483648,"slug":"league","protocol_version":1}"#
    );
    assert_eq!(text(&all[1]), r#"{"type":"running_status","request_id":"r-1","running":true}"#);
    assert_eq!(
        text(&all[3]),
        r#"{"type":"game_status","request_id":"r-1","connected":false,"connection_status":"","game_phase":"Lobby","is_in_game":true}"#
    );
    assert_eq!(
        text(&all[5]),
        r#"{"type":"events","request_id":"r-1","events":[{"event_type":"Kill","timestamp_secs":1.5,"data":{"k":"v"}}]}"#
    );
    assert_eq!(text(&all[6]), r#"{"type":"live_data","request_id":"r-1"}"#);
    assert_eq!(
        text(&all[9]),
        r#"{"type":"session_started","request_id":"r-1","context":[true,false]}"#
    );
    assert_eq!(
        text(&all[11]),
        r#"{"type":"session_ended","request_id":"r-1","match_data":{"x":1}}"#
    );
    assert_eq!(
        text(&all[13]),
        r#"{"type":"error","request_id":"","message":"boom","code":"E42"}"#
    );
    assert_eq!(
        text(&all[16]),
        r#"{"type":"event_icon_resolved","request_id":"r-1","event_key":"Kill","icon_url":"https://x/y.png"}"#
    );
    assert_eq!(
        text(&all[17]),
        r#"{"type":"match_in_progress_status","request_id":"r-1","still_playing":true}"#
    );
    assert_eq!(
        text(&all[19]),
        r#"{"type":"match_timeline","request_id":"r-1","found":true,"entries":[{"entry_type":"event","entry_key":"Kill","game_time_secs":1.0,"captured_at":"2024-01-15T10:30:00Z","data":{}},{"entry_type":"statistic","entry_key":"stats","game_time_secs":2.0,"captured_at":"2024-01-15T10:30:01Z","data":{"kills":1}},{"entry_type":"moment","entry_key":"penta","game_time_secs":3.0,"captured_at":"2024-01-15T10:30:02Z","data":null,"trigger_fired":false}]}"#
    );
    assert_eq!(
        text(&all[20]),
        r#"{"type":"sample_match_data","request_id":"r-1","subpack":9,"data":null}"#
    );
}

#[test]
fn write_statistics_text_is_exact() {
    let mut stats = StatMap::new();
    stats.insert("kills".to_string(), Json::Number(JsonNumber::PosInt(1)));
    let message = MatchDataMessage::write_statistics(0, "m1", decimal("12.0"), stats);
    assert_eq!(
        message.to_json().to_text().unwrap(),
        r#"{"type":"write_statistics","subpack":0,"external_match_id":"m1","game_time_secs":12.0,"stats":{"kills":1}}"#
    );
    let with_time = MatchDataMessage::write_statistics_with_time(
        0,
        "m1",
        "2024-01-15T10:30:00Z",
        decimal("12.0"),
        StatMap::new(),
    );
    assert_eq!(
        with_time.to_json().to_text().unwrap(),
        r#"{"type":"write_statistics","subpack":0,"external_match_id":"m1","played_at":"2024-01-15T10:30:00Z","game_time_secs":12.0,"stats":{}}"#
    );
}

#[test]
fn readers_accept_null_and_omission_for_optional_fields() {
    let expected = GamepackCommand::GetMatchTimeline {
        request_id: id(),
        subpack: 0,
        external_match_id: "m1".to_string(),
        entry_types: None,
        limit: None,
    };
    for text in [
        r#"{"type":"get_match_timeline","request_id":"r-1","subpack":0,"external_match_id":"m1"}"#,
        r#"{"type":"get_match_timeline","request_id":"r-1","subpack":0,"external_match_id":"m1","entry_types":null,"limit":null}"#,
        r#"{"limit":null,"external_match_id":"m1","subpack":0,"extra":[1],"request_id":"r-1","type":"get_match_timeline"}"#,
    ] {
        assert_eq!(parse_command(text).unwrap(), expected);
    }
    assert_eq!(
        GamepackResponse::from_json(&json(
            r#"{"type":"game_status","request_id":"r-1","connected":true,"connection_status":"c","game_phase":null,"is_in_game":false}"#
        ))
        .unwrap(),
        GamepackResponse::GameStatus {
            request_id: id(),
            connected: true,
            connection_status: "c".to_string(),
            game_phase: None,
            is_in_game: false,
        }
    );
}

#[test]
fn each_decode_error_comes_from_its_kind_of_input() {
    assert_eq!(
        parse_command("{"),
        Err(DecodeError::Syntax("EOF while parsing an object at line 1 column 1".to_string()))
    );
    assert_eq!(parse_command("\"init\""), Err(DecodeError::NotAnObject));
    assert_eq!(parse_command("{}"), Err(DecodeError::MissingField("type".to_string())));
    assert_eq!(
        parse_command(r#"{"type":1,"request_id":"r"}"#),
        Err(DecodeError::InvalidField("type".to_string()))
    );
    assert_eq!(
        parse_command(r#"{"type":"Init","request_id":"r"}"#),
        Err(DecodeError::UnknownType("Init".to_string()))
    );
    assert_eq!(
        parse_command(r#"{"type":"session_end","request_id":"r"}"#),
        Err(DecodeError::MissingField("context".to_string()))
    );
    assert_eq!(
        parse_command(r#"{"type":"resolve_event_icon","request_id":"r","event_key":null}"#),
        Err(DecodeError::InvalidField("event_key".to_string()))
    );
    assert_eq!(
        parse_command(r#"{"type":"get_match_timeline","request_id":"r","subpack":0,"external_match_id":"m","entry_types":["a",1]}"#),
        Err(DecodeError::InvalidField("entry_types".to_string()))
    );
    assert_eq!(
        parse_command(r#"{"type":"get_match_timeline","request_id":"r","subpack":0,"external_match_id":"m","limit":4294967296}"#),
        Err(DecodeError::InvalidField("limit".to_string()))
    );
    assert_eq!(
        GamepackResponse::from_json(&json(
            r#"{"type":"write_match_data","message":{"type":"write_nothing"}}"#
        )),
        Err(DecodeError::UnknownType("write_nothing".to_string()))
    );
    assert_eq!(
        MatchDataMessage::from_json(&json(
            r#"{"type":"set_complete","subpack":0,"external_match_id":"m","summary_source":"API"}"#
        )),
        Err(DecodeError::InvalidField("summary_source".to_string()))
    );
    assert_eq!(
        MatchDataMessage::from_json(&json(
            r#"{"type":"write_statistics","subpack":0,"external_match_id":"m","game_time_secs":1,"stats":[]}"#
        )),
        Err(DecodeError::InvalidField("stats".to_string()))
    );
    assert_eq!(
        TimelineEntry::from_json(&json(
            r#"{"entry_type":"Event","entry_key":"k","game_time_secs":1,"captured_at":"t","data":1}"#
        )),
        Err(DecodeError::InvalidField("entry_type".to_string()))
    );
}

#[test]
fn a_subpack_fits_in_one_byte() {
    let line = |subpack: &str| {
        format!(r#"{{"type":"get_sample_match_data","request_id":"r","subpack":{}}}"#, subpack)
    };
    assert_eq!(
        parse_command(&line("0")).unwrap(),
        GamepackCommand::GetSampleMatchData { request_id: "r".to_string(), subpack: 0 }
    );
    assert_eq!(
        parse_command(&line("255")).unwrap(),
        GamepackCommand::GetSampleMatchData { request_id: "r".to_string(), subpack: 255 }
    );
    for bad in ["256", "-1", "1.0", "\"1\"", "18446744073709551616", "true"] {
        assert_eq!(
            parse_command(&line(bad)),
            Err(DecodeError::InvalidField("subpack".to_string()))
        );
    }
}

#[test]
fn numbers_are_read_by_their_kind() {
    assert_eq!(json("0"), Json::Number(JsonNumber::PosInt(0)));
    assert_eq!(json("18446744073709551615"), Json::Number(JsonNumber::PosInt(u64::MAX)));
    assert_eq!(json("-9223372036854775808"), Json::Number(JsonNumber::NegInt(i64::MIN)));
    assert_eq!(json("1.5"), Json::Number(decimal("1.5")));
    assert_eq!(json("1e3"), Json::Number(decimal("1000.0")));
    assert_eq!(Json::Number(decimal("2.50")).to_text().unwrap(), "2.5");
    assert_eq!(Json::Number(decimal("7")).to_text().unwrap(), "7");
    assert_eq!(Json::Number(decimal("seven")).to_text().unwrap(), "null");
    assert_eq!(Json::Number(JsonNumber::NegInt(-3)).to_text().unwrap(), "-3");
    assert_eq!(Json::Number(JsonNumber::NegInt(3)).to_text().unwrap(), "3");
}

#[test]
fn json_text_keeps_member_order_and_one_value_for_each_name() {
    assert_eq!(json(r#" { "b" : 1 , "a" : [ ] } "#).to_text().unwrap(), r#"{"b":1,"a":[]}"#);
    let twice = Json::Object(vec![
        ("a".to_string(), Json::Bool(true)),
        ("b".to_string(), Json::Null),
        ("a".to_string(), Json::Bool(false)),
    ]);
    assert_eq!(twice.to_text().unwrap(), r#"{"a":false,"b":null}"#);
    assert_eq!(
        json(r#"{"a":1,"a":2}"#),
        Json::Object(vec![("a".to_string(), Json::Number(JsonNumber::PosInt(2)))])
    );
    assert_eq!(Json::parse(""), Err("EOF while parsing a value at line 1 column 0".to_string()));
    assert_eq!(Json::parse("1 2"), Err("trailing characters at line 1 column 3".to_string()));
    assert_eq!(Json::String("\u{2028}\n\t\"".to_string()).to_text().unwrap(), "\"\u{2028}\\n\\t\\\"\"");
    assert_eq!(twice.clone(), twice);
}

#[test]
fn kinds_and_names_agree() {
    for command in every_command() {
        let kind = command.kind();
        assert_eq!(CommandKind::from_tag(kind.as_str()), Some(kind));
    }
    for response in every_response() {
        let kind = response.kind();
        assert_eq!(ResponseKind::from_tag(kind.as_str()), Some(kind));
    }
    assert_eq!(CommandKind::from_tag("initialized"), None);
    assert_eq!(ResponseKind::from_tag("init"), None);
    assert_eq!(EntryType::Moment.as_str(), "moment");
}

#[test]
fn request_ids_are_read_from_every_variant() {
    for command in every_command() {
        let expected = if matches!(command, GamepackCommand::Shutdown { .. }) { "" } else { "r-1" };
        assert_eq!(command.request_id(), expected);
    }
    for response in every_response() {
        let expected = match &response {
            GamepackResponse::WriteMatchData { .. } => "",
            GamepackResponse::Error { code: Some(_), .. } => "",
            _ => "r-1",
        };
        assert_eq!(response.request_id(), expected);
    }
}

#[test]
fn errors_have_their_text() {
    assert_eq!(GamepackError::new("broken").to_string(), "broken");
    assert_eq!(GamepackError::with_code("broken", "E7").to_string(), "[E7] broken");
    assert_eq!(GamepackError::from("x".to_string()), GamepackError::new("x"));
    assert_eq!(GamepackError::from("y"), GamepackError::new("y"));
    assert_eq!(DecodeError::NotAnObject.to_string(), "expected a JSON object");
    assert_eq!(DecodeError::MissingField("a".to_string()).to_string(), "missing field `a`");
    assert_eq!(
        DecodeError::InvalidField("a".to_string()).to_string(),
        "invalid value for field `a`"
    );
    assert_eq!(DecodeError::UnknownType("a".to_string()).to_string(), "unknown variant `a`");
    assert_eq!(DecodeError::Syntax("a".to_string()).to_string(), "a");
}

#[test]
fn recovery_records_round_trip_through_their_text() {
    let question = IsMatchInProgressRequest { subpack: 1, external_match_id: "m1".to_string() };
    let text = question.to_json().to_text().unwrap();
    assert_eq!(text, r#"{"subpack":1,"external_match_id":"m1"}"#);
    assert_eq!(IsMatchInProgressRequest::from_json(&json(&text)).unwrap(), question);

    for answer in [
        IsMatchInProgressResponse::still_playing(),
        IsMatchInProgressResponse::ended(),
        IsMatchInProgressResponse::ended_with_stats(MatchDataMessage::set_complete_with_stats(
            0,
            "m1",
            SummarySource::Api,
            stats(),
        )),
    ] {
        let text = answer.to_json().to_text().unwrap();
        assert_eq!(IsMatchInProgressResponse::from_json(&json(&text)).unwrap(), answer);
    }
    assert_eq!(
        IsMatchInProgressResponse::ended().to_json().to_text().unwrap(),
        r#"{"still_playing":false}"#
    );

    let request = GetMatchTimelineRequest {
        subpack: 0,
        external_match_id: "m1".to_string(),
        entry_types: Some(vec!["statistic".to_string()]),
        limit: Some(5),
    };
    let text = request.to_json().to_text().unwrap();
    assert_eq!(
        text,
        r#"{"subpack":0,"external_match_id":"m1","entry_types":["statistic"],"limit":5}"#
    );
    assert_eq!(GetMatchTimelineRequest::from_json(&json(&text)).unwrap(), request);
    assert_eq!(
        GetMatchTimelineRequest::from_json(&json(r#"{"subpack":0,"external_match_id":"m1"}"#))
            .unwrap(),
        GetMatchTimelineRequest {
            subpack: 0,
            external_match_id: "m1".to_string(),
            entry_types: None,
            limit: None,
        }
    );

    let timeline = GetMatchTimelineResponse {
        found: true,
        entries: vec![TimelineEntry::moment(
            "penta",
            decimal("3.5"),
            "2024-01-15T10:30:02Z",
            json("{}"),
            true,
        )],
    };
    let text = timeline.to_json().to_text().unwrap();
    assert_eq!(GetMatchTimelineResponse::from_json(&json(&text)).unwrap(), timeline);
    assert_eq!(
        GetMatchTimelineResponse::from_json(&json(r#"{"found":true}"#)),
        Err(DecodeError::MissingField("entries".to_string()))
    );
}
