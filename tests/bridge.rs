use aynary::api::{DictionaryClient, DictionaryEntry};
use aynary::dbus_service::{
    decode_call, plan_dispatch, BridgeError, BridgeState, CallError, DbusCommand, DictionaryService,
    NameReply, ShellAction, DBUS_INTERFACE, DBUS_OBJECT_PATH, DBUS_SERVICE_NAME,
};

fn registered() -> DictionaryService {
    let mut s = DictionaryService::new();
    assert_eq!(s.claim(NameReply::PrimaryOwner), Ok(()));
    s
}

#[test]
fn commands_drain_in_arrival_order() {
    let mut s = registered();
    assert_eq!(s.handle_call("LookupWord", Some("a".to_string())), Ok(Some("Lookup requested".to_string())));
    assert_eq!(s.handle_call("ShowWindow", None), Ok(None));
    assert_eq!(s.handle_call("LookupWord", Some("b".to_string())), Ok(Some("Lookup requested".to_string())));
    assert_eq!(
        s.drain(),
        vec![
            DbusCommand::LookupWord("a".to_string()),
            DbusCommand::ShowWindow,
            DbusCommand::LookupWord("b".to_string()),
        ]
    );
    assert!(s.drain().is_empty());
}

#[test]
fn refused_calls_queue_nothing() {
    let mut s = registered();
    assert_eq!(s.handle_call("Quit", None), Err(CallError::UnknownMethod));
    assert_eq!(s.handle_call("lookupword", Some("x".to_string())), Err(CallError::UnknownMethod));
    assert_eq!(s.handle_call("LookupWord", None), Err(CallError::InvalidArgs));
    assert_eq!(s.handle_call("ShowWindow", Some("x".to_string())), Err(CallError::InvalidArgs));
    assert_eq!(s.handle_call("LookupAndShow", Some("y".to_string())), Ok(None));
    assert_eq!(s.drain(), vec![DbusCommand::LookupAndShow("y".to_string())]);
}

#[test]
fn second_instance_sees_name_taken() {
    let mut s = DictionaryService::new();
    assert_eq!(s.state(), BridgeState::Unregistered);
    assert_eq!(s.claim(NameReply::Exists), Err(BridgeError::NameTaken));
    assert_eq!(s.state(), BridgeState::NameTaken);
    let mut q = DictionaryService::new();
    assert_eq!(q.claim(NameReply::InQueue), Err(BridgeError::NameTaken));
    assert_eq!(q.state(), BridgeState::NameTaken);
}

#[test]
fn owner_serves() {
    let mut s = DictionaryService::new();
    assert_eq!(s.claim(NameReply::AlreadyOwner), Ok(()));
    assert_eq!(s.state(), BridgeState::Registered);
    assert_eq!(registered().state(), BridgeState::Registered);
}

#[test]
fn calls_decode_to_commands() {
    assert_eq!(decode_call("LookupWord", Some("w".to_string())), Ok(DbusCommand::LookupWord("w".to_string())));
    assert_eq!(decode_call("ShowWindow", None), Ok(DbusCommand::ShowWindow));
    assert_eq!(
        decode_call("LookupAndShow", Some("w".to_string())),
        Ok(DbusCommand::LookupAndShow("w".to_string()))
    );
    assert_eq!(decode_call("", None), Err(CallError::UnknownMethod));
}

#[test]
fn commands_encode_to_calls_that_decode_back() {
    let all = vec![
        DbusCommand::LookupWord("hello".to_string()),
        DbusCommand::ShowWindow,
        DbusCommand::LookupAndShow("world".to_string()),
    ];
    for c in all {
        assert_eq!(decode_call(c.method_name(), c.argument()), Ok(c.clone()));
    }
    assert_eq!(DbusCommand::ShowWindow.method_name(), "ShowWindow");
    assert_eq!(DbusCommand::LookupAndShow("x".to_string()).argument(), Some("x".to_string()));
    assert_eq!(DbusCommand::LookupWord("x".to_string()).reply_text(), Some("Lookup requested".to_string()));
    assert_eq!(DbusCommand::ShowWindow.reply_text(), None);
}

#[test]
fn service_identity() {
    assert_eq!(DBUS_SERVICE_NAME, "com.aynary.Dictionary");
    assert_eq!(DBUS_OBJECT_PATH, "/com/aynary/Dictionary");
    assert_eq!(DBUS_INTERFACE, DBUS_SERVICE_NAME);
}

fn client() -> DictionaryClient {
    DictionaryClient::from_entries(vec![DictionaryEntry {
        word: "run".to_string(),
        phonetic: None,
        phonetics: Vec::new(),
        meanings: Vec::new(),
        license: None,
        source_urls: Vec::new(),
    }])
}

#[test]
fn dispatch_plans() {
    let c = client();
    assert_eq!(plan_dispatch(&c, &DbusCommand::ShowWindow), vec![ShellAction::ShowWindow]);
    assert_eq!(
        plan_dispatch(&c, &DbusCommand::LookupWord("run".to_string())),
        vec![ShellAction::SetLoading, ShellAction::SetDefinitionText("run\n".to_string())]
    );
    assert_eq!(
        plan_dispatch(&c, &DbusCommand::LookupAndShow("walk".to_string())),
        vec![
            ShellAction::ShowWindow,
            ShellAction::SetLoading,
            ShellAction::SetDefinitionText("Error: No offline entry found for 'walk'.".to_string()),
        ]
    );
}
