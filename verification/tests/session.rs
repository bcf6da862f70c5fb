use dictation_server::errors::{MyError, ResourceKind};
use dictation_server::rpc::{
    EngineCall, Handle, MicrophoneState, RpcCatchall, RpcCommand, RpcEngine, RpcSelect,
};
use dictation_server::rpcimpl::{engine_result, Session};

#[test]
fn command_grammar_scenario() {
    let mut s = Session::new();

    let id = s.begin_load();
    assert_eq!(id, 1);
    let loaded = RpcCommand::load(&mut s, id, Ok(Handle(100)));
    assert_eq!(loaded, Ok(1));

    let call = RpcCommand::rule_activate(&s, 1, "mapping".to_string());
    assert_eq!(
        call,
        Ok(EngineCall::RuleActivate { id: 1, rule_name: "mapping".to_string() })
    );

    assert_eq!(RpcCommand::unload(&mut s, 1), Ok(()));

    let again = RpcCommand::rule_activate(&s, 1, "mapping".to_string());
    assert_eq!(again, Err(MyError::UnknownEntityId(1)));
}

#[test]
fn ids_stay_unique_across_kinds() {
    let mut s = Session::new();
    let a = s.begin_load();
    assert_eq!(RpcCommand::load(&mut s, a, Ok(Handle(1))), Ok(1));
    let b = s.begin_load();
    assert_eq!(RpcSelect::load(&mut s, b, Ok(Handle(2))), Ok(2));
    let c = s.begin_load();
    assert_eq!(RpcCatchall::load(&mut s, c, Ok(Handle(3))), Ok(3));
    assert!(a < b && b < c);
}

#[test]
fn wrong_kind_is_refused() {
    let mut s = Session::new();
    let id = s.begin_load();
    assert_eq!(RpcSelect::load(&mut s, id, Ok(Handle(5))), Ok(1));

    let call = RpcCommand::rule_activate(&s, 1, "r".to_string());
    assert_eq!(
        call,
        Err(MyError::WrongGrammarType(1, ResourceKind::CommandGrammar))
    );
    assert_eq!(
        RpcCommand::unload(&mut s, 1),
        Err(MyError::WrongGrammarType(1, ResourceKind::CommandGrammar))
    );
    assert_eq!(RpcSelect::text_get(&s, 1), Ok(EngineCall::TextGet { id: 1 }));
    assert_eq!(RpcSelect::unload(&mut s, 1), Ok(()));
}

#[test]
fn failed_engine_load_consumes_the_id() {
    let mut s = Session::new();
    let a = s.begin_load();
    assert_eq!(a, 1);
    let r = RpcCommand::load(&mut s, a, Err("grammar refused".to_string()));
    assert_eq!(r, Err(MyError::Engine("grammar refused".to_string())));
    let b = s.begin_load();
    assert_eq!(b, 2);
    assert_eq!(
        RpcCommand::rule_activate(&s, 1, "r".to_string()),
        Err(MyError::UnknownEntityId(1))
    );
}

#[test]
fn registration_and_engine_queries() {
    let mut s = Session::new();
    let id = s.begin_load();
    assert_eq!(RpcEngine::register(&mut s, id, Ok(Handle(9))), Ok(1));
    assert_eq!(s.resource_handle(1), Ok(Handle(9)));
    assert_eq!(
        RpcEngine::microphone_set_state(&s, MicrophoneState::On),
        EngineCall::MicrophoneSetState { state: MicrophoneState::On }
    );
    assert_eq!(RpcEngine::microphone_get_state(&s), EngineCall::MicrophoneGetState);
    assert_eq!(RpcEngine::get_current_user(&s), EngineCall::GetCurrentUser);
    assert_eq!(RpcEngine::unregister(&mut s, 1), Ok(()));
    assert_eq!(RpcEngine::unregister(&mut s, 1), Ok(()));
}

#[test]
fn engine_result_surfaces_failure_text_unchanged() {
    assert_eq!(engine_result::<()>(Ok(())), Ok(()));
    assert_eq!(
        engine_result::<()>(Err("mic is unplugged".to_string())),
        Err(MyError::Engine("mic is unplugged".to_string()))
    );
}

#[test]
fn teardown_drops_every_resource() {
    let mut s = Session::new();
    let a = s.begin_load();
    assert_eq!(RpcCommand::load(&mut s, a, Ok(Handle(1))), Ok(1));
    let b = s.begin_load();
    assert_eq!(RpcSelect::load(&mut s, b, Ok(Handle(2))), Ok(2));
    s.teardown();
    assert_eq!(s.resource_handle(1), Err(MyError::UnknownEntityId(1)));
    assert_eq!(s.resource_handle(2), Err(MyError::UnknownEntityId(2)));
    assert_eq!(s.begin_load(), 3);
}
