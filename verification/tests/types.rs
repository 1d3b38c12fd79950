use companion_pack_protocol::json::{Json, JsonNumber};
use companion_pack_protocol::stats::StatMap;
use companion_pack_protocol::types::{
    EntryType, GameEvent, GameStatus, IsMatchInProgressResponse, MatchData, MatchDataMessage,
    Moment, SummarySource, TimelineEntry,
};

/// A JSON value from its text.
fn json(text: &str) -> Json {
    Json::parse(text).unwrap()
}

/// Seconds as the JSON number that stands for them.
fn secs(value: f64) -> JsonNumber {
    JsonNumber::Decimal(serde_json::Number::from_f64(value).unwrap().to_string())
}

/// The seconds that a JSON number stands for.
fn to_f64(number: &JsonNumber) -> f64 {
    match number {
        JsonNumber::PosInt(u) => *u as f64,
        JsonNumber::NegInt(i) => *i as f64,
        JsonNumber::Decimal(text) => text.parse().unwrap(),
    }
}

/// A whole number as a JSON value.
fn whole(value: u64) -> Json {
    Json::Number(JsonNumber::PosInt(value))
}

/// A map with one stat.
fn one_stat(name: &str, value: Json) -> StatMap {
    let mut stats = StatMap::new();
    stats.insert(name.to_string(), value);
    stats
}

// EntryType

#[test]
fn entry_type_serializes_to_snake_case() {
    assert_eq!(EntryType::Event.to_json().to_text().unwrap(), "\"event\"");
    assert_eq!(EntryType::Statistic.to_json().to_text().unwrap(), "\"statistic\"");
    assert_eq!(EntryType::Moment.to_json().to_text().unwrap(), "\"moment\"");
}

#[test]
fn entry_type_deserializes_from_snake_case() {
    assert_eq!(EntryType::from_json(&json("\"event\"")).unwrap(), EntryType::Event);
    assert_eq!(EntryType::from_json(&json("\"statistic\"")).unwrap(), EntryType::Statistic);
    assert_eq!(EntryType::from_json(&json("\"moment\"")).unwrap(), EntryType::Moment);
}

#[test]
fn entry_type_display_is_snake_case() {
    assert_eq!(EntryType::Event.to_string(), "event");
    assert_eq!(EntryType::Statistic.to_string(), "statistic");
    assert_eq!(EntryType::Moment.to_string(), "moment");
}

#[test]
fn entry_type_from_str_case_insensitive() {
    assert_eq!(EntryType::from_str("EVENT").unwrap(), EntryType::Event);
    assert_eq!(EntryType::from_str("event").unwrap(), EntryType::Event);
    assert_eq!(EntryType::from_str("Event").unwrap(), EntryType::Event);
}

#[test]
fn entry_type_round_trips() {
    for entry_type in [EntryType::Event, EntryType::Statistic, EntryType::Moment] {
        let text = entry_type.to_json().to_text().unwrap();
        let back = EntryType::from_json(&json(&text)).unwrap();
        assert_eq!(entry_type, back);
    }
}

#[test]
fn entry_type_from_str_rejects_other_names() {
    assert_eq!(EntryType::from_str("events"), None);
    assert_eq!(EntryType::from_str(""), None);
    assert_eq!(EntryType::from_str("stat\u{131}stic"), None);
    assert_eq!(EntryType::from_str("STATISTIC"), Some(EntryType::Statistic));
    assert_eq!(EntryType::from_str("mOmEnT"), Some(EntryType::Moment));
    assert_eq!(EntryType::from_name("Event"), None);
    assert_eq!(EntryType::from_name("event"), Some(EntryType::Event));
    assert_eq!(EntryType::from_json(&json("\"EVENT\"")), None);
    assert_eq!(EntryType::from_json(&json("1")), None);
}

// SummarySource

#[test]
fn summary_source_serializes_to_snake_case() {
    assert_eq!(SummarySource::Api.to_json().to_text().unwrap(), "\"api\"");
    assert_eq!(SummarySource::LiveFallback.to_json().to_text().unwrap(), "\"live_fallback\"");
}

#[test]
fn summary_source_deserializes_from_snake_case() {
    assert_eq!(SummarySource::from_json(&json("\"api\"")).unwrap(), SummarySource::Api);
    assert_eq!(
        SummarySource::from_json(&json("\"live_fallback\"")).unwrap(),
        SummarySource::LiveFallback
    );
}

#[test]
fn summary_source_display_is_snake_case() {
    assert_eq!(SummarySource::Api.to_string(), "api");
    assert_eq!(SummarySource::LiveFallback.to_string(), "live_fallback");
}

#[test]
fn summary_source_round_trips() {
    for source in [SummarySource::Api, SummarySource::LiveFallback] {
        let text = source.to_json().to_text().unwrap();
        let back = SummarySource::from_json(&json(&text)).unwrap();
        assert_eq!(source, back);
    }
}

#[test]
fn summary_source_from_str_case_insensitive() {
    assert_eq!(SummarySource::from_str("API"), Some(SummarySource::Api));
    assert_eq!(SummarySource::from_str("Live_Fallback"), Some(SummarySource::LiveFallback));
    assert_eq!(SummarySource::from_str("livefallback"), None);
    assert_eq!(SummarySource::from_name("API"), None);
}

// GameEvent

#[test]
fn game_event_new_creates_with_defaults() {
    let event = GameEvent::new("ChampionKill", secs(100.5), json(r#"{"killer": "Player1"}"#));

    assert_eq!(event.event_type, "ChampionKill");
    assert_eq!(to_f64(&event.timestamp_secs), 100.5);
    assert_eq!(event.data, json(r#"{"killer": "Player1"}"#));
    assert_eq!(event.pre_capture_secs, None);
    assert_eq!(event.post_capture_secs, None);
}

#[test]
fn game_event_with_capture_times() {
    let event = GameEvent::new("DragonKill", secs(500.0), json("{}"))
        .with_pre_capture(secs(15.0))
        .with_post_capture(secs(10.0));

    assert_eq!(event.pre_capture_secs, Some(secs(15.0)));
    assert_eq!(event.post_capture_secs, Some(secs(10.0)));
}

#[test]
fn game_event_serializes_correctly() {
    let event = GameEvent::new("ChampionKill", secs(100.5), json(r#"{"killer": "Player1"}"#));
    let text = event.to_json().to_text().unwrap();

    assert!(text.contains("\"event_type\":\"ChampionKill\""));
    assert!(text.contains("\"timestamp_secs\":100.5"));
    assert!(!text.contains("pre_capture_secs")); // None should be skipped
}

#[test]
fn game_event_round_trips() {
    let event = GameEvent::new("ChampionKill", secs(100.5), json(r#"{"killer": "Player1"}"#))
        .with_pre_capture(secs(10.0));
    let text = event.to_json().to_text().unwrap();
    let back = GameEvent::from_json(&json(&text)).unwrap();

    assert_eq!(event.event_type, back.event_type);
    assert!((to_f64(&event.timestamp_secs) - to_f64(&back.timestamp_secs)).abs() < 0.001);
    assert_eq!(event.pre_capture_secs, back.pre_capture_secs);
    assert_eq!(event, back);
}

// Moment

#[test]
fn moment_new_creates_correctly() {
    let moment = Moment::new("pentakill", secs(1500.0), json(r#"{"kills": 5}"#));

    assert_eq!(moment.moment_id, "pentakill");
    assert_eq!(to_f64(&moment.game_time_secs), 1500.0);
    assert_eq!(moment.data, json(r#"{"kills": 5}"#));
}

#[test]
fn moment_round_trips() {
    let moment = Moment::new("death", secs(250.0), json(r#"{"killer": "Enemy1"}"#));
    let text = moment.to_json().to_text().unwrap();
    let back = Moment::from_json(&json(&text)).unwrap();

    assert_eq!(moment.moment_id, back.moment_id);
    assert!((to_f64(&moment.game_time_secs) - to_f64(&back.game_time_secs)).abs() < 0.001);
    assert_eq!(moment.data, back.data);
}

// MatchDataMessage

#[test]
fn write_statistics_serializes_with_type_tag() {
    let msg =
        MatchDataMessage::write_statistics(0, "match123", secs(100.0), one_stat("kills", whole(5)));
    let text = msg.to_json().to_text().unwrap();

    assert!(text.contains("\"type\":\"write_statistics\""));
    assert!(text.contains("\"subpack\":0"));
    assert!(text.contains("\"external_match_id\":\"match123\""));
    assert!(text.contains("\"game_time_secs\":100"));
}

#[test]
fn write_game_events_serializes_with_type_tag() {
    let events = vec![GameEvent::new("ChampionKill", secs(100.0), json("{}"))];
    let msg = MatchDataMessage::write_game_events(0, "match123", events);
    let text = msg.to_json().to_text().unwrap();

    assert!(text.contains("\"type\":\"write_game_events\""));
    assert!(text.contains("\"events\""));
}

#[test]
fn write_moments_serializes_with_type_tag() {
    let moments = vec![Moment::new("pentakill", secs(1500.0), json("{}"))];
    let msg = MatchDataMessage::write_moments(0, "match123", moments);
    let text = msg.to_json().to_text().unwrap();

    assert!(text.contains("\"type\":\"write_moments\""));
    assert!(text.contains("\"moments\""));
}

#[test]
fn set_complete_serializes_with_type_tag() {
    let msg = MatchDataMessage::set_complete(0, "match123", SummarySource::Api);
    let text = msg.to_json().to_text().unwrap();

    assert!(text.contains("\"type\":\"set_complete\""));
    assert!(text.contains("\"summary_source\":\"api\""));
}

#[test]
fn match_data_message_round_trips_all_variants() {
    let messages: Vec<MatchDataMessage> = vec![
        MatchDataMessage::write_statistics(0, "m1", secs(100.0), StatMap::new()),
        MatchDataMessage::write_game_events(
            0,
            "m1",
            vec![GameEvent::new("Kill", secs(50.0), json("{}"))],
        ),
        MatchDataMessage::write_moments(0, "m1", vec![Moment::new("death", secs(75.0), json("{}"))]),
        MatchDataMessage::set_complete(0, "m1", SummarySource::Api),
        MatchDataMessage::set_complete_with_stats(
            0,
            "m1",
            SummarySource::LiveFallback,
            one_stat("kills", whole(10)),
        ),
    ];

    for msg in messages {
        let text = msg.to_json().to_text().unwrap();
        let back = MatchDataMessage::from_json(&json(&text)).unwrap();
        // Round-trip should produce equivalent JSON
        let text2 = back.to_json().to_text().unwrap();
        assert_eq!(text, text2);
        assert_eq!(msg, back);
    }
}

// TimelineEntry

#[test]
fn timeline_entry_event_creates_correctly() {
    let entry = TimelineEntry::event(
        "ChampionKill",
        secs(100.0),
        "2024-01-15T10:30:00Z",
        json(r#"{"killer": "Player1"}"#),
    );

    assert_eq!(entry.entry_type, EntryType::Event);
    assert_eq!(entry.entry_key, "ChampionKill");
    assert_eq!(entry.trigger_fired, None);
}

#[test]
fn timeline_entry_statistic_creates_correctly() {
    let entry =
        TimelineEntry::statistic(secs(100.0), "2024-01-15T10:30:00Z", json(r#"{"kills": 5}"#));

    assert_eq!(entry.entry_type, EntryType::Statistic);
    assert_eq!(entry.entry_key, "stats");
    assert_eq!(entry.trigger_fired, None);
}

#[test]
fn timeline_entry_moment_creates_correctly() {
    let entry = TimelineEntry::moment(
        "pentakill",
        secs(1500.0),
        "2024-01-15T10:55:00Z",
        json(r#"{"kills": 5}"#),
        true,
    );

    assert_eq!(entry.entry_type, EntryType::Moment);
    assert_eq!(entry.entry_key, "pentakill");
    assert_eq!(entry.trigger_fired, Some(true));
}

#[test]
fn timeline_entry_round_trips() {
    let entry = TimelineEntry::event(
        "ChampionKill",
        secs(100.0),
        "2024-01-15T10:30:00Z",
        json(r#"{"killer": "Player1", "victim": "Enemy1"}"#),
    );
    let text = entry.to_json().to_text().unwrap();
    let back = TimelineEntry::from_json(&json(&text)).unwrap();

    assert_eq!(entry.entry_type, back.entry_type);
    assert_eq!(entry.entry_key, back.entry_key);
    assert_eq!(entry.data, back.data);
}

// IsMatchInProgressResponse

#[test]
fn is_match_in_progress_response_still_playing() {
    let response = IsMatchInProgressResponse::still_playing();

    assert!(response.still_playing);
    assert!(response.set_complete.is_none());
}

#[test]
fn is_match_in_progress_response_ended() {
    let response = IsMatchInProgressResponse::ended();

    assert!(!response.still_playing);
    assert!(response.set_complete.is_none());
}

#[test]
fn is_match_in_progress_response_ended_with_stats() {
    let set_complete = MatchDataMessage::set_complete(0, "match123", SummarySource::Api);
    let response = IsMatchInProgressResponse::ended_with_stats(set_complete);

    assert!(!response.still_playing);
    assert!(response.set_complete.is_some());
}

// GameStatus

#[test]
fn game_status_disconnected() {
    let status = GameStatus::disconnected();

    assert!(!status.connected);
    assert_eq!(status.connection_status, "Not connected");
    assert!(status.game_phase.is_none());
    assert!(!status.is_in_game);
}

#[test]
fn game_status_connected_with_phase() {
    let status = GameStatus::connected("Connected to client").with_phase("InProgress").in_game(true);

    assert!(status.connected);
    assert_eq!(status.connection_status, "Connected to client");
    assert_eq!(status.game_phase, Some("InProgress".to_string()));
    assert!(status.is_in_game);
}

#[test]
fn game_status_default_is_empty() {
    let status = GameStatus::default();

    assert!(!status.connected);
    assert_eq!(status.connection_status, "");
    assert!(status.game_phase.is_none());
    assert!(!status.is_in_game);
}

// MatchData

#[test]
fn match_data_new_creates_correctly() {
    let data = MatchData::new("league", 1, "win", json(r#"{"kills": 10}"#));

    assert_eq!(data.game_slug, "league");
    assert_eq!(data.game_id, 1);
    assert_eq!(data.result, "win");
    assert_eq!(data.details, json(r#"{"kills": 10}"#));
}

#[test]
fn match_data_round_trips() {
    let data = MatchData::new("league", -7, "loss", json(r#"{"kills": 10, "deaths": [1, 2]}"#));
    let text = data.to_json().to_text().unwrap();
    assert_eq!(
        text,
        r#"{"game_slug":"league","game_id":-7,"result":"loss","details":{"kills":10,"deaths":[1,2]}}"#
    );
    assert_eq!(MatchData::from_json(&json(&text)).unwrap(), data);
}

// StatMap

#[test]
fn stat_map_keeps_one_entry_for_each_name() {
    let mut stats = StatMap::new();
    assert!(stats.is_empty());
    stats.insert("kills".to_string(), whole(1));
    stats.insert("deaths".to_string(), whole(2));
    stats.insert("kills".to_string(), whole(3));

    assert_eq!(stats.len(), 2);
    assert_eq!(stats.get(&"kills".to_string()), Some(&whole(3)));
    assert_eq!(stats.get(&"deaths".to_string()), Some(&whole(2)));
    assert_eq!(stats.get(&"assists".to_string()), None);
    assert_eq!(stats.entries()[0].0, "kills");
    assert_eq!(stats.entries()[1].0, "deaths");
    assert_eq!(stats.to_json().to_text().unwrap(), r#"{"kills":3,"deaths":2}"#);
    assert_eq!(stats.clone(), stats);
}

#[test]
fn stat_map_from_members_lets_the_last_value_win() {
    let members = vec![
        ("a".to_string(), whole(1)),
        ("b".to_string(), whole(2)),
        ("a".to_string(), whole(3)),
    ];
    let stats = StatMap::from_members(&members);

    assert_eq!(stats.len(), 2);
    assert_eq!(stats.entries()[0], ("a".to_string(), whole(3)));
    assert_eq!(stats.entries()[1], ("b".to_string(), whole(2)));
}
