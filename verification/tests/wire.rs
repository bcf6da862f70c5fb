use dictation_server::errors::{MyError, ResourceKind};
use dictation_server::json::{dec_u64, error_envelope, error_message, quoted, response_line};
use dictation_server::notifications::{
    channel_item_line, create_notification, engine_event_notification, grammar_notification,
    query_for_event, EngineEvent, EngineNotification, EngineQuery, GrammarEvent, QueryReply,
    Recognition,
};
use dictation_server::rpc::{EngineCall, MicrophoneState, RpcEngine, RpcResult};
use dictation_server::rpcimpl::{engine_result, Session};

#[test]
fn decimal_formatting() {
    assert_eq!(dec_u64(0), "0");
    assert_eq!(dec_u64(7), "7");
    assert_eq!(dec_u64(10), "10");
    assert_eq!(dec_u64(90210), "90210");
    assert_eq!(dec_u64(u64::MAX), "18446744073709551615");
}

#[test]
fn string_escaping_round_trips_through_a_json_parser() {
    assert_eq!(quoted("plain"), "\"plain\"");
    assert_eq!(quoted("a\"b\\c"), "\"a\\\"b\\\\c\"");
    assert_eq!(quoted("line\nbreak\ttab"), "\"line\\u000abreak\\u0009tab\"");
    assert_eq!(quoted("caf\u{e9} \u{1f3a4}"), "\"caf\u{e9} \u{1f3a4}\"");

    for s in ["", "a\"b\\c", "line\nbreak\ttab", "\u{1}\u{1f}\u{20}", "caf\u{e9} \u{1f3a4}"] {
        let q = quoted(s);
        let back: serde_json::Value = serde_json::from_str(&q).unwrap();
        assert_eq!(back, serde_json::Value::String(s.to_string()));
    }
}

#[test]
fn microphone_round_trip() {
    // One session-independent engine value, set then read back over the
    // wire: the response to {"id":1,"method":"microphone_get_state"} after
    // a microphone_set_state("on").
    let s = Session::new();
    let engine_mic = match RpcEngine::microphone_set_state(&s, MicrophoneState::On) {
        EngineCall::MicrophoneSetState { state } => state,
        other => panic!("unexpected call {:?}", other),
    };

    assert_eq!(RpcEngine::microphone_get_state(&s), EngineCall::MicrophoneGetState);
    let reply: Result<MicrophoneState, String> = Ok(engine_mic);
    let result = engine_result(reply).map(RpcResult::Microphone);
    let line = response_line(1, &result);
    assert_eq!(line, "{\"jsonrpc\":\"2.0\",\"result\":\"on\",\"id\":1}");
}

#[test]
fn response_lines_for_each_result_shape() {
    assert_eq!(
        response_line(3, &Ok(RpcResult::Id(12))),
        "{\"jsonrpc\":\"2.0\",\"result\":12,\"id\":3}"
    );
    assert_eq!(
        response_line(4, &Ok(RpcResult::Null)),
        "{\"jsonrpc\":\"2.0\",\"result\":null,\"id\":4}"
    );
    assert_eq!(
        response_line(5, &Ok(RpcResult::Text("hello there".to_string()))),
        "{\"jsonrpc\":\"2.0\",\"result\":\"hello there\",\"id\":5}"
    );
    assert_eq!(
        response_line(6, &Ok(RpcResult::User(None))),
        "{\"jsonrpc\":\"2.0\",\"result\":null,\"id\":6}"
    );
    assert_eq!(
        response_line(7, &Ok(RpcResult::User(Some("alex".to_string())))),
        "{\"jsonrpc\":\"2.0\",\"result\":\"alex\",\"id\":7}"
    );
}

#[test]
fn error_lines_for_each_error_kind() {
    assert_eq!(
        response_line(2, &Err(MyError::UnknownEntityId(9))),
        "{\"jsonrpc\":\"2.0\",\"error\":{\"code\":-1,\"message\":\"unknown entity id 9\"},\"id\":2}"
    );
    assert_eq!(
        error_message(&MyError::WrongGrammarType(4, ResourceKind::SelectGrammar)),
        "wrong grammar type for id 4, expected select grammar"
    );
    assert_eq!(
        response_line(8, &Err(MyError::Engine("engine fell over".to_string()))),
        "{\"jsonrpc\":\"2.0\",\"error\":{\"code\":-1,\"message\":\"engine fell over\"},\"id\":8}"
    );
    assert_eq!(
        error_message(&MyError::Serialization("bad value".to_string())),
        "serialization failed: bad value"
    );

    let line = response_line(2, &Err(MyError::UnknownEntityId(9)));
    let v: serde_json::Value = serde_json::from_str(&line).unwrap();
    assert_eq!(v["error"]["code"], serde_json::Value::from(-1i64));
    assert_eq!(v["id"], serde_json::Value::from(2u64));
}

#[test]
fn notification_framing() {
    let line = create_notification(5, "engine_notification", "{\"type\":\"paused\"}");
    assert_eq!(
        line,
        "{\"jsonrpc\":\"2.0\",\"method\":\"engine_notification\",\"params\":[5,{\"type\":\"paused\"}]}"
    );
    let v: serde_json::Value = serde_json::from_str(&line).unwrap();
    assert_eq!(v["method"], serde_json::Value::String("engine_notification".to_string()));
    assert_eq!(v["params"][0], serde_json::Value::from(5u64));
    assert_eq!(v["params"][1]["type"], serde_json::Value::String("paused".to_string()));
}

#[test]
fn pause_event_owes_one_resume_with_the_same_cookie() {
    assert_eq!(query_for_event(&EngineEvent::Paused(42)), EngineQuery::Resume(42));
    assert_eq!(query_for_event(&EngineEvent::MicrophoneState), EngineQuery::QueryMicrophone);
    assert_eq!(query_for_event(&EngineEvent::UserChanged), EngineQuery::QueryUser);

    let ok = EngineNotification::from_event(&EngineEvent::Paused(42), Ok(QueryReply::Resumed));
    assert_eq!(ok, Ok(EngineNotification::Paused));

    let failed = EngineNotification::from_event(
        &EngineEvent::Paused(42),
        Err("resume refused".to_string()),
    );
    assert_eq!(failed, Err(MyError::Engine("resume refused".to_string())));
}

#[test]
fn engine_event_notifications_on_the_wire() {
    let paused = engine_event_notification(3, &EngineEvent::Paused(7), Ok(QueryReply::Resumed));
    assert_eq!(
        paused.unwrap(),
        "{\"jsonrpc\":\"2.0\",\"method\":\"engine_notification\",\"params\":[3,{\"type\":\"paused\"}]}"
    );

    let mic = engine_event_notification(
        3,
        &EngineEvent::MicrophoneState,
        Ok(QueryReply::Microphone(MicrophoneState::Sleeping)),
    );
    assert_eq!(
        mic.unwrap(),
        "{\"jsonrpc\":\"2.0\",\"method\":\"engine_notification\",\"params\":[3,{\"type\":\"microphone_state_changed\",\"state\":\"sleeping\"}]}"
    );

    let user = engine_event_notification(
        3,
        &EngineEvent::UserChanged,
        Ok(QueryReply::User(Some("sam".to_string()))),
    );
    assert_eq!(
        user.unwrap(),
        "{\"jsonrpc\":\"2.0\",\"method\":\"engine_notification\",\"params\":[3,{\"type\":\"user_changed\",\"name\":\"sam\"}]}"
    );

    let nobody = engine_event_notification(3, &EngineEvent::UserChanged, Ok(QueryReply::User(None)));
    assert_eq!(
        nobody.unwrap(),
        "{\"jsonrpc\":\"2.0\",\"method\":\"engine_notification\",\"params\":[3,{\"type\":\"user_changed\",\"name\":null}]}"
    );

    let failed =
        engine_event_notification(3, &EngineEvent::Paused(7), Err("resume refused".to_string()));
    assert_eq!(failed, Err(MyError::Engine("resume refused".to_string())));
}

#[test]
fn failed_handshake_reaches_the_client_as_an_error_envelope() {
    let item: Result<String, MyError> = Err(MyError::Engine("resume refused".to_string()));
    let line = channel_item_line(&item);
    assert_eq!(
        line,
        "{\"jsonrpc\":\"2.0\",\"error\":{\"code\":-1,\"message\":\"resume refused\"},\"id\":null}"
    );
    assert_eq!(line, error_envelope(&MyError::Engine("resume refused".to_string())));

    let ok_item: Result<String, MyError> = Ok("a line".to_string());
    assert_eq!(channel_item_line(&ok_item), "a line");
}

#[test]
fn grammar_notifications_on_the_wire() {
    let start = grammar_notification(1, ResourceKind::CommandGrammar, &GrammarEvent::PhraseStart);
    assert_eq!(
        start.unwrap(),
        "{\"jsonrpc\":\"2.0\",\"method\":\"command_grammar_notification\",\"params\":[1,{\"type\":\"phrase_start\"}]}"
    );

    let empty = grammar_notification(2, ResourceKind::SelectGrammar, &GrammarEvent::PhraseFinish(None));
    assert_eq!(
        empty.unwrap(),
        "{\"jsonrpc\":\"2.0\",\"method\":\"select_grammar_notification\",\"params\":[2,{\"type\":\"phrase_finish\"}]}"
    );

    let rec = Recognition {
        foreign_grammar: false,
        words: vec!["go".to_string(), "left".to_string()],
        parse: Some("{\"direction\":\"left\"}".to_string()),
    };
    let line = grammar_notification(
        1,
        ResourceKind::CommandGrammar,
        &GrammarEvent::PhraseFinish(Some(rec)),
    )
    .unwrap();
    assert_eq!(
        line,
        "{\"jsonrpc\":\"2.0\",\"method\":\"command_grammar_notification\",\"params\":[1,{\"type\":\"phrase_finish\",\"foreign_grammar\":false,\"words\":[\"go\",\"left\"],\"parse\":{\"direction\":\"left\"}}]}"
    );
    let v: serde_json::Value = serde_json::from_str(&line).unwrap();
    assert_eq!(v["params"][1]["words"][1], serde_json::Value::String("left".to_string()));
    assert_eq!(
        v["params"][1]["parse"]["direction"],
        serde_json::Value::String("left".to_string())
    );
}

#[test]
fn foreign_recognition_with_no_parse() {
    let rec = Recognition {
        foreign_grammar: true,
        words: vec!["hello".to_string()],
        parse: None,
    };
    let line = grammar_notification(
        4,
        ResourceKind::CatchallGrammar,
        &GrammarEvent::PhraseFinish(Some(rec)),
    )
    .unwrap();
    assert_eq!(
        line,
        "{\"jsonrpc\":\"2.0\",\"method\":\"catchall_grammar_notification\",\"params\":[4,{\"type\":\"phrase_finish\",\"foreign_grammar\":true,\"words\":[\"hello\"],\"parse\":null}]}"
    );
}

#[test]
fn malformed_parse_becomes_a_serialization_error() {
    let rec = Recognition {
        foreign_grammar: false,
        words: vec!["go".to_string()],
        parse: Some("{broken".to_string()),
    };
    let r = grammar_notification(
        1,
        ResourceKind::CommandGrammar,
        &GrammarEvent::PhraseFinish(Some(rec)),
    );
    assert_eq!(
        r,
        Err(MyError::Serialization("parse result is not a JSON document".to_string()))
    );
}
