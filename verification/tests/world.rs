//! The world client: identifiers, events, intents, stations and the heads-up display.
use apexos_ui::client::{
    build_request, double_backoff, truncate, BadRequest, Happened, Loss, Step, WorldClient,
};
use apexos_ui::events::{read_frame, Event, SensorReading};
use apexos_ui::ids::{ActionId, PluginId, SessionId};
use apexos_ui::intents::{hello, user_approval, user_cancel, user_prompt};
use apexos_ui::json::{read, render, Json};
use apexos_ui::stations::{desc, BindingSpec, StationKind, StationRegistry};
use apexos_ui::world::{append_or_extend_agent_line, ChatLine, Hud, WorldCommand, WorldEvent};
use tokio_tungstenite::tungstenite::http::header::AUTHORIZATION;

#[test]
fn truncate_keeps_short_strings() {
    assert_eq!(truncate("hello"), "hello");
}

#[test]
fn truncate_clamps_long_strings_on_char_boundary() {
    let long = "x".repeat(500);
    let out = truncate(&long);
    assert!(out.len() <= 201 + 4);
    assert!(out.ends_with('…'));
}

#[test]
fn truncation_never_splits_a_character() {
    let long = format!("x{}", "é".repeat(300));
    let out = truncate(&long);
    assert_eq!(out, format!("x{}…", "é".repeat(99)));
}

#[test]
fn build_request_without_token_has_no_auth_header() {
    let req = build_request("ws://localhost:8787/ws", None).unwrap();
    assert!(req.headers().get(AUTHORIZATION).is_none());
}

#[test]
fn build_request_with_token_sets_bearer_header() {
    let req = build_request("ws://localhost:8787/ws", Some("secret")).unwrap();
    assert_eq!(req.headers().get(AUTHORIZATION).unwrap(), "Bearer secret");
    assert_eq!(req.uri().to_string(), "ws://localhost:8787/ws");
}

#[test]
fn bad_requests_say_what_is_bad() {
    assert_eq!(build_request("not a url", None).err(), Some(BadRequest::Url));
    assert_eq!(
        build_request("ws://localhost:8787/ws", Some("line\nbreak")).err(),
        Some(BadRequest::Token)
    );
}

#[test]
fn deserializes_session_init() {
    let frame = r#"{"type":"session_init","session_id":42,"history":[]}"#;
    let ev = read_frame(frame).unwrap();
    assert_eq!(ev, Event::SessionInit { session_id: SessionId(42), history: vec![] });
    assert_eq!(ev.session(), Some(SessionId(42)));
}

#[test]
fn deserializes_agent_text_delta() {
    let frame = r#"{"type":"agent_text","session":7,"delta":"hello"}"#;
    let ev = read_frame(frame).unwrap();
    assert_eq!(ev, Event::AgentText { session: SessionId(7), delta: "hello".into() });
}

#[test]
fn tool_requested_has_nested_call_with_bare_number_id() {
    let frame = r#"{
        "type":"tool_requested",
        "session":3,
        "call":{"id":5,"tool":"shell","args":{"cmd":"ls"},"needs_approval":true}
    }"#;
    match read_frame(frame).unwrap() {
        Event::ToolRequested { session, call } => {
            assert_eq!(session, SessionId(3));
            assert_eq!(call.id, ActionId(5));
            assert_eq!(call.tool, "shell");
            assert!(call.needs_approval);
        }
        other => panic!("expected ToolRequested, got {other:?}"),
    }
}

#[test]
fn tool_result_call_is_a_bare_action_id() {
    let frame = r#"{
        "type":"tool_result",
        "session":3,
        "call":5,
        "output":{"ok":true,"content":"done"}
    }"#;
    match read_frame(frame).unwrap() {
        Event::ToolResult { session, call, output } => {
            assert_eq!(session, SessionId(3));
            assert_eq!(call, ActionId(5));
            assert!(output.ok);
            assert_eq!(output.content, Json::Str("done".to_string()));
        }
        other => panic!("expected ToolResult, got {other:?}"),
    }
}

#[test]
fn deserializes_approval_pending_with_nested_call() {
    let frame = r#"{
        "type":"approval_pending",
        "session":3,
        "call":{"id":9,"tool":"shell","args":{},"needs_approval":true}
    }"#;
    match read_frame(frame).unwrap() {
        Event::ApprovalPending { call, .. } => assert_eq!(call.id, ActionId(9)),
        other => panic!("expected ApprovalPending, got {other:?}"),
    }
}

#[test]
fn deserializes_sensor_reading_air_quality() {
    let frame = r#"{
        "type":"sensor_reading",
        "node_id":"body-pi-1",
        "timestamp":1700000000,
        "reading":{"kind":"air_quality","iaq":42.0,"co2_eq_ppm":500.0,"voc_ppm":0.5,
                   "accuracy":3,"temperature_c":22.0,"humidity_pct":40.0,
                   "pressure_hpa":1013.0,"sensor_id":"bme688"}
    }"#;
    match read_frame(frame).unwrap() {
        Event::SensorReading { reading, node_id, .. } => {
            assert_eq!(node_id, "body-pi-1");
            assert!(matches!(reading, SensorReading::AirQuality { accuracy: 3, .. }));
        }
        other => panic!("expected SensorReading, got {other:?}"),
    }
}

#[test]
fn deserializes_wake_triggered_unit_variant() {
    assert_eq!(read_frame(r#"{"type":"wake_triggered"}"#), Some(Event::WakeTriggered));
}

#[test]
fn unknown_event_type_falls_back_not_errors() {
    let frame = r#"{"type":"vast_instance_ready","instance_id":"x","local_port":8080}"#;
    let ev = read_frame(frame).unwrap();
    assert_eq!(ev, Event::Unknown);
    assert_eq!(ev.session(), None);
}

#[test]
fn sub_agent_started_session_is_parent() {
    let frame = r#"{"type":"sub_agent_started","parent":1,"child":2,"prompt":"go"}"#;
    assert_eq!(read_frame(frame).unwrap().session(), Some(SessionId(1)));
}

#[test]
fn broken_frames_are_no_events() {
    assert_eq!(read_frame("not json"), None);
    assert_eq!(read_frame(r#"{"type":"agent_text","session":"seven","delta":"x"}"#), None);
    assert_eq!(read_frame(r#"{"type":"agent_text","session":7}"#), None);
    assert_eq!(read_frame("[]"), None);
}

#[test]
fn events_come_as_lists_too() {
    assert_eq!(
        read_frame(r#"["agent_text", 7, "hi"]"#),
        read_frame(r#"{"type":"agent_text","session":7,"delta":"hi"}"#)
    );
    assert!(read_frame(r#"["agent_text", 7, "hi"]"#).is_some());
    assert_eq!(read_frame(r#"["agent_text", 7]"#), None);
    assert_eq!(read_frame(r#"["agent_text", 7, "hi", 1]"#), None);
    assert_eq!(read_frame(r#"["agent_text", "hi", 7]"#), None);
    let init = Event::SessionInit { session_id: SessionId(4), history: Vec::new() };
    assert_eq!(read_frame(r#"["session_init", 4]"#), Some(init));
    assert!(read_frame(r#"["session_init", 4, [{"role":"user"}]]"#).is_some());
    assert_eq!(read_frame(r#"["session_init"]"#), None);
    assert_eq!(read_frame(r#"["wake_triggered"]"#), Some(Event::WakeTriggered));
    assert_eq!(read_frame(r#"["wake_triggered", 1]"#), None);
    assert_eq!(read_frame(r#"["vast_instance_ready"]"#), Some(Event::Unknown));
    assert_eq!(read_frame(r#"["vast_instance_ready", 1]"#), None);
    assert_eq!(read_frame("[1]"), None);
    assert_eq!(read_frame(r#"{"type":1,"session":7,"delta":"hi"}"#), None);
    assert_eq!(
        read_frame(r#"["error", null, "m"]"#),
        Some(Event::Error { session: None, message: "m".to_string() })
    );
    assert_eq!(
        read_frame(r#"{"type":"tool_requested","session":1,"call":[5,"read",{},false]}"#),
        read_frame(
            r#"{"type":"tool_requested","session":1,
                "call":{"id":5,"tool":"read","args":{},"needs_approval":false}}"#
        )
    );
    assert_eq!(read_frame(r#"{"type":"tool_requested","session":1,"call":[5,"read",{}]}"#), None);
    let council = r#"["council_started","c","t",[["a","p",null,"m",null]]]"#;
    match read_frame(council).unwrap() {
        Event::CouncilStarted { agents, .. } => {
            assert_eq!(agents[0].persona, "p");
            assert_eq!(agents[0].backend, None);
            assert_eq!(agents[0].model.as_deref(), Some("m"));
        }
        other => panic!("{other:?}"),
    }
}

#[test]
fn readings_go_by_name_or_number() {
    let reading = |kind: &str, rest: &str| {
        let frame = format!(
            r#"{{"type":"sensor_reading","node_id":"n","timestamp":1,"reading":{{"kind":{kind}{rest}}}}}"#
        );
        match read_frame(&frame) {
            Some(Event::SensorReading { reading, .. }) => Some(reading),
            _ => None,
        }
    };
    let motion = SensorReading::Motion { detected: true, sensor_id: "s".to_string() };
    let rest = r#","detected":true,"sensor_id":"s""#;
    assert_eq!(reading("\"motion\"", rest), Some(motion));
    assert_eq!(reading("3", rest), reading("\"motion\"", rest));
    assert_eq!(reading("5", r#","pin":4,"high":true"#), Some(SensorReading::GpioLevel { pin: 4, high: true }));
    assert_eq!(reading("8", ""), Some(SensorReading::Unknown));
    assert_eq!(reading("900", ""), Some(SensorReading::Unknown));
    assert_eq!(reading("-1", ""), None);
    assert_eq!(reading("3.0", rest), None);
    let listed = |list: &str| {
        let frame = format!(r#"["sensor_reading","n",{list},1]"#);
        match read_frame(&frame) {
            Some(Event::SensorReading { reading, .. }) => Some(reading),
            _ => None,
        }
    };
    assert_eq!(listed(r#"["motion",true,"s"]"#), reading("3", rest));
    assert_eq!(listed(r#"[3,true,"s"]"#), reading("3", rest));
    assert_eq!(listed(r#"[3,true]"#), None);
    assert_eq!(listed("[9]"), Some(SensorReading::Unknown));
    assert_eq!(listed("[9,1]"), None);
    assert_eq!(listed("[]"), None);
}

#[test]
fn repeated_names_make_no_event() {
    let text = |more: &str| format!(r#"{{"type":"agent_text","session":7,"delta":"hi"{more}}}"#);
    assert!(read_frame(&text("")).is_some());
    assert_eq!(read_frame(&text(r#","delta":"ho""#)), None);
    assert_eq!(read_frame(&text(r#", "d\u0065lta" : "ho""#)), None, "an escaped name is the same");
    assert_eq!(read_frame(&text(r#","type":"agent_text""#)), None);
    assert_eq!(read_frame(r#"{"type":"wake_triggered","type":"wake_triggered"}"#), None);
    assert!(read_frame(&text(r#","other":1,"other":2"#)).is_some(), "a name that does not count");
    assert!(read_frame(&text(r#","note":"{\"delta\":1}:[,""#)).is_some(), "inside a string");
    assert_eq!(
        read_frame(r#"{"type":"unheard_of","a":1,"a":[ ],"b":{ }}"#),
        Some(Event::Unknown)
    );
    let call = |more: &str| {
        format!(
            r#"{{"type":"tool_requested","session":1,
                "call":{{"id":5,"tool":"t","args":{{"x":1,"x":[{{"y":2}}]}},"needs_approval":false{more}}}}}"#
        )
    };
    match read_frame(&call("")).unwrap() {
        Event::ToolRequested { call, .. } => {
            assert_eq!(render(&call.args), r#"{"x":[{"y":2}]}"#, "values keep the last one")
        }
        other => panic!("{other:?}"),
    }
    assert_eq!(read_frame(&call(r#","id":6"#)), None);
    assert!(read_frame(&call(r#","why":1,"why":2"#)).is_some());
    assert_eq!(read_frame(r#"["tool_result",1,2,{"ok":true,"content":null,"ok":true}]"#), None);
    assert!(read_frame(r#"["tool_result",1,2,{"ok":true,"content":null}]"#).is_some());
    let tool = r#"{"name":"a","description":"b","input_schema":{}}"#;
    let twice = r#"{"name":"a","description":"b","input_schema":{},"name":"a"}"#;
    assert!(read_frame(&format!(r#"["plugin_up","p",[{tool},{tool}]]"#)).is_some());
    assert_eq!(read_frame(&format!(r#"["plugin_up","p",[{tool},{twice}]]"#)), None);
    let seat = r#"{"id":"a","persona":"b","color":"c","color":null}"#;
    assert_eq!(read_frame(&format!(r#"["council_started","c","t",[{seat}]]"#)), None);
    let reading = |more: &str| {
        format!(
            r#"["sensor_reading","n",{{"kind":"motion","detected":true,"sensor_id":"s"{more}}},1]"#
        )
    };
    assert!(read_frame(&reading("")).is_some());
    assert!(read_frame(&reading(r#","celsius":1,"celsius":2"#)).is_some());
    assert_eq!(read_frame(&reading(r#","detected":true"#)), None);
    assert_eq!(read_frame(&reading(r#","kind":"motion""#)), None);
    let deep = format!(
        r#"{{"type":"session_init","session_id":1,"history":[{}1{}]}}"#,
        "[".repeat(120),
        "]".repeat(120)
    );
    assert!(read_frame(&deep).is_some());
}

#[test]
fn session_id_is_a_bare_number() {
    assert_eq!(render(&SessionId(42).to_json()), "42");
    assert_eq!(SessionId::from_json(&read("42").unwrap()), Some(SessionId(42)));
}

#[test]
fn action_id_round_trips_as_bare_number() {
    let a = ActionId(5);
    let s = render(&a.to_json());
    assert_eq!(s, "5");
    assert_eq!(ActionId::from_json(&read(&s).unwrap()), Some(a));
}

#[test]
fn plugin_id_is_a_bare_string() {
    assert_eq!(render(&PluginId("cerebro-mcp".into()).to_json()), "\"cerebro-mcp\"");
}

#[test]
fn identifiers_refuse_other_values() {
    assert_eq!(SessionId::from_json(&read("-1").unwrap()), None);
    assert_eq!(ActionId::from_json(&read("\"5\"").unwrap()), None);
    assert_eq!(PluginId::from_json(&read("5").unwrap()), None);
    assert_eq!(SessionId(7).to_text(), "7");
}

#[test]
fn user_prompt_omits_session_and_has_correct_type() {
    let v: serde_json::Value = serde_json::from_str(&user_prompt("hello").to_json()).unwrap();
    assert_eq!(v["type"], "user_prompt");
    assert_eq!(v["text"], "hello");
    assert!(v.get("session").is_none(), "outbound frames must omit `session`");
}

#[test]
fn prompts_are_quoted() {
    let text = "a \"quoted\" line\nand a \\ and a \u{1} and a 🎨";
    let v: serde_json::Value = serde_json::from_str(&user_prompt(text).to_json()).unwrap();
    assert_eq!(v["text"], text);
}

#[test]
fn frames_are_written_letter_by_letter() {
    assert_eq!(
        user_prompt("a \"b\"\n").to_json(),
        r#"{"type":"user_prompt","text":"a \"b\"\n"}"#
    );
    assert_eq!(
        user_approval(ActionId(u64::MAX), false).to_json(),
        r#"{"type":"user_approval","action":18446744073709551615,"granted":false}"#
    );
    assert_eq!(user_cancel().to_json(), r#"{"type":"user_cancel"}"#);
    assert_eq!(hello(0).to_json(), r#"{"type":"hello","resume_session":0}"#);
    for i in [user_prompt("x"), user_approval(ActionId(5), true), user_cancel(), hello(42)] {
        let j = read(&i.to_json()).unwrap();
        assert!(j.get("type").is_some());
        assert!(j.get("session").is_none() && j.get("call_id").is_none());
        assert!(j.get("approved").is_none());
    }
}

#[test]
fn user_approval_uses_action_and_granted_with_bare_number() {
    let v: serde_json::Value =
        serde_json::from_str(&user_approval(ActionId(5), true).to_json()).unwrap();
    assert_eq!(v["type"], "user_approval");
    assert_eq!(v["action"], 5, "action must be a bare number");
    assert_eq!(v["granted"], true);
    assert!(v.get("call_id").is_none(), "must be `action`, not `call_id`");
    assert!(v.get("approved").is_none(), "must be `granted`, not `approved`");
    assert!(v.get("session").is_none());
}

#[test]
fn user_cancel_is_just_the_type_tag() {
    let v: serde_json::Value = serde_json::from_str(&user_cancel().to_json()).unwrap();
    assert_eq!(v["type"], "user_cancel");
    assert!(v.get("session").is_none());
}

#[test]
fn hello_carries_resume_session() {
    let v: serde_json::Value = serde_json::from_str(&hello(42).to_json()).unwrap();
    assert_eq!(v["type"], "hello");
    assert_eq!(v["resume_session"], 42);
    assert!(v.get("session").is_none());
}

#[test]
fn every_kind_has_a_catalog_row() {
    let kinds = [
        StationKind::Chat,
        StationKind::System,
        StationKind::Sensors,
        StationKind::Council,
        StationKind::Terminal,
        StationKind::Memory,
        StationKind::Generative,
    ];
    for k in kinds {
        assert_eq!(desc(k).kind, k, "{k:?} must resolve to its own row");
    }
}

#[test]
fn chat_binds_a_session() {
    assert_eq!(desc(StationKind::Chat).binding, BindingSpec::Session);
}

#[test]
fn kind_strings_match_ui_contract() {
    assert_eq!(StationKind::Sensors.as_str(), "sensors");
    assert_eq!(StationKind::Generative.as_str(), "generative");
}

#[test]
fn launch_layout_ids_are_unique() {
    let reg = StationRegistry::launch_layout();
    let mut ids: Vec<i32> = reg.stations.iter().map(|s| s.id).collect();
    ids.sort_unstable();
    ids.dedup();
    assert_eq!(ids.len(), reg.stations.len(), "station ids must be unique");
}

#[test]
fn registry_finds_what_it_holds() {
    let mut reg = StationRegistry::launch_layout();
    let id = reg.stations[0].id;
    assert_eq!(reg.get(id).unwrap().id, id);
    assert!(reg.get(-77).is_none());
    reg.get_mut(id).unwrap().session = Some(SessionId(9));
    assert_eq!(reg.get(id).unwrap().session, Some(SessionId(9)));
    assert!(reg.get_mut(-77).is_none());
}

#[test]
fn client_learns_its_session_and_waits_longer_each_time() {
    let mut c = WorldClient::new();
    assert_eq!(c.session_id(), None);
    let frame = r#"{"type":"session_init","session_id":42,"history":[]}"#;
    match c.step(Happened::Text(frame.to_string())) {
        Step::Deliver(ev) => assert_eq!(ev.session(), Some(SessionId(42))),
        other => panic!("{other:?}"),
    }
    assert_eq!(c.session_id(), Some(SessionId(42)));
    let first = c.backoff_ms;
    c.step(Happened::Lost(Loss::ConnectFailed));
    assert!(c.backoff_ms > first);
    for _ in 0..20 {
        c.step(Happened::Lost(Loss::ConnectFailed));
    }
    assert_eq!(c.backoff_ms, 30_000);
    match c.step(Happened::Text("garbage".to_string())) {
        Step::Drop(_) => {}
        other => panic!("{other:?}"),
    }
    match c.step(Happened::Wanted(user_cancel())) {
        Step::Write(text) => assert!(text.contains("user_cancel")),
        other => panic!("{other:?}"),
    }
    for (listened_to, intents_to_come) in [(true, true), (true, false), (false, true), (false, false)] {
        match c.step(Happened::Due { listened_to, intents_to_come }) {
            Step::Connect => assert!(listened_to && intents_to_come),
            Step::Stop { close } => assert!(!close && !(listened_to && intents_to_come)),
            other => panic!("{other:?}"),
        }
    }
    assert_eq!(double_backoff(250, 30_000), 500);
    assert_eq!(double_backoff(20_000, 30_000), 30_000);
    assert_eq!(double_backoff(u64::MAX, u64::MAX), u64::MAX);
}

#[test]
fn display_is_told_what_concerns_it() {
    match read_frame(r#"["agent_text", 7, "hi"]"#).and_then(WorldEvent::of) {
        Some(WorldEvent::AgentTextDelta { session, delta }) => {
            assert_eq!((session, delta.as_str()), (7, "hi"))
        }
        other => panic!("{other:?}"),
    }
    match read_frame(r#"["session_init", 4]"#).and_then(WorldEvent::of) {
        Some(WorldEvent::SessionInit { session }) => assert_eq!(session, 4),
        other => panic!("{other:?}"),
    }
    match read_frame(r#"["turn_complete", 5]"#).and_then(WorldEvent::of) {
        Some(WorldEvent::TurnComplete { session }) => assert_eq!(session, 5),
        other => panic!("{other:?}"),
    }
    assert!(WorldEvent::of(Event::WakeTriggered).is_none());
}

#[test]
fn display_extends_what_the_agent_says() {
    let mut lines: Vec<ChatLine> = Vec::new();
    append_or_extend_agent_line(&mut lines, "hel");
    append_or_extend_agent_line(&mut lines, "lo");
    assert_eq!(lines.len(), 1);
    assert_eq!(lines[0].text, "hello");
    let mut hud = Hud::new();
    assert!(hud.send_prompt("hi").is_none(), "nobody is there to talk to");
    hud.receive(WorldEvent::Connection("connected".to_string()));
    assert_eq!(hud.status, "connected");
    let reg = StationRegistry::launch_layout();
    hud.activate(&reg, reg.stations[0].id);
    assert_eq!(hud.station, reg.stations[0].id);
    let cmd = hud.send_prompt("hi").unwrap();
    match &cmd {
        WorldCommand::Prompt { station_id, text } => {
            assert_eq!((*station_id, text.as_str()), (reg.stations[0].id, "hi"))
        }
        other => panic!("{other:?}"),
    }
    assert!(cmd.intent().to_json().contains("user_prompt"));
    hud.receive(WorldEvent::AgentTextDelta { session: 1, delta: "a".to_string() });
    hud.receive(WorldEvent::AgentTextDelta { session: 1, delta: "b".to_string() });
    assert_eq!(hud.lines.last().unwrap().text, "ab");
    hud.dismiss();
    assert_ne!(hud.station, reg.stations[0].id);
    assert!(hud.approve(5, true).intent().to_json().contains("\"granted\":true"));
}
