use gpt_relay::{
    classify, complete_turn, conversation_step, credential_record, decode_history,
    drop_oldest_message, encode_history, registration_reply, state_from_row, verify, ChatGPTEngine,
    ChatMessage, Command, DialogueState, Error, Role, SessionStore, Step, Write, write_for,
};

fn msg(role: Role, content: &str) -> ChatMessage {
    ChatMessage::new(role, content.to_string())
}

fn pairs(h: &[ChatMessage]) -> Vec<(Role, String)> {
    h.iter().map(|m| (m.role, m.content.clone())).collect()
}

fn conversation_of(d: Option<DialogueState>) -> (Vec<(Role, String)>, ChatGPTEngine) {
    match d {
        Some(DialogueState::Conversation { history, version }) => (pairs(&history), version),
        other => panic!("not a conversation: {:?}", other),
    }
}

fn registered_store(chat: i64, key: &str) -> SessionStore {
    let mut store = SessionStore::new();
    store.add_api_key(key);
    let r = store.update_dialogue(chat, DialogueState::Registration { api_key: key.to_string() });
    assert_eq!(r, Ok(()));
    store
}

#[test]
fn engine_names_and_fallback() {
    assert_eq!(ChatGPTEngine::Gpt4.as_str(), "gpt-4");
    assert_eq!(ChatGPTEngine::Gpt4_32k_0314.as_str(), "gpt-4-32k-0314");
    assert_eq!(ChatGPTEngine::from_name("gpt-3.5-turbo-0301"), ChatGPTEngine::Gpt35Turbo_0301);
    assert_eq!(ChatGPTEngine::from_name("gpt-4-32k"), ChatGPTEngine::Gpt4_32k);
    assert_eq!(ChatGPTEngine::from_name("gpt-5-future"), ChatGPTEngine::Gpt35Turbo);
    assert_eq!(ChatGPTEngine::from_name(""), ChatGPTEngine::Gpt35Turbo);
    assert_eq!(ChatGPTEngine::default(), ChatGPTEngine::Gpt35Turbo);
}

#[test]
fn role_names() {
    assert_eq!(Role::Assistant.name(), "assistant");
    assert_eq!(Role::from_name("user"), Some(Role::User));
    assert_eq!(Role::from_name("User"), None);
}

#[test]
fn encoded_history_text() {
    assert_eq!(encode_history(&vec![]), "[]");
    let h = vec![msg(Role::User, "hi"), msg(Role::Assistant, "say \"x\"")];
    assert_eq!(encode_history(&h), r#"[["user","hi"],["assistant","say \"x\""]]"#);
}

#[test]
fn history_round_trip() {
    let h = vec![
        msg(Role::System, "be brief"),
        msg(Role::User, "line\nbreak \u{e9}"),
        msg(Role::Assistant, ""),
        msg(Role::User, "[\"not\",\"json\"]"),
    ];
    let text = encode_history(&h);
    let back = decode_history(&text).unwrap();
    assert_eq!(pairs(&back), pairs(&h));
}

#[test]
fn corrupt_history_is_reported() {
    assert_eq!(decode_history("not json").unwrap_err(), Error::HistoryCorrupted);
    assert_eq!(decode_history(r#"[["robot","hi"]]"#).unwrap_err(), Error::HistoryCorrupted);
    assert_eq!(
        state_from_row("{", "gpt-4").unwrap_err(),
        Error::HistoryCorrupted
    );
}

#[test]
fn unknown_stored_version_reads_as_default() {
    let d = state_from_row(r#"[["user","hi"]]"#, "my-custom-model").unwrap();
    let (h, v) = conversation_of(Some(d));
    assert_eq!(h, vec![(Role::User, "hi".to_string())]);
    assert_eq!(v, ChatGPTEngine::Gpt35Turbo);
}

#[test]
fn credential_record_hashes_and_prefixes() {
    let empty = credential_record("");
    let hex: String = empty.key_hash.iter().map(|b| format!("{:02x}", b)).collect();
    assert_eq!(hex, "c5d2460186f7233c927e7db2dcc703c0e500b653ca82273b7bfad8045d85a470");
    assert!(empty.key_prefix.is_empty());
    let r = credential_record("sk-0123456789abcdef");
    assert_eq!(r.key_prefix, b"sk-0123456".to_vec());
    assert_eq!(r.key_hash.len(), 32);
    assert_ne!(r.key_hash, empty.key_hash);
}

#[test]
fn registered_key_verifies_and_mutations_do_not() {
    let key = "sk-0123456789abcdef";
    let records = vec![credential_record("other-key"), credential_record(key)];
    assert!(verify(&records, key));
    assert!(!verify(&records, "sk-0123456789abcdeF"));
    assert!(!verify(&records, "Sk-0123456789abcdef"));
    assert!(!verify(&records, ""));
    assert!(!verify(&vec![], key));
}

#[test]
fn rejected_key_creates_no_record() {
    let mut store = SessionStore::new();
    store.add_api_key("good-key");
    let r = store.update_dialogue(7, DialogueState::Registration { api_key: "bad-key".to_string() });
    assert_eq!(r, Err(Error::KeyRejected));
    assert!(store.get_dialogue(7).unwrap().is_none());
}

#[test]
fn repeated_delete_succeeds() {
    let mut store = registered_store(3, "k");
    assert_eq!(store.remove_dialogue(3), Ok(()));
    assert!(store.get_dialogue(3).unwrap().is_none());
    assert_eq!(store.remove_dialogue(3), Ok(()));
    assert_eq!(store.remove_dialogue(99), Ok(()));
    assert!(store.get_dialogue(3).unwrap().is_none());
}

#[test]
fn drop_oldest_on_empty_history() {
    assert!(drop_oldest_message(vec![]).is_empty());
    let h = vec![msg(Role::User, "a"), msg(Role::Assistant, "b")];
    assert_eq!(pairs(&drop_oldest_message(h)), vec![(Role::Assistant, "b".to_string())]);
    match conversation_step(vec![], ChatGPTEngine::Gpt4, "/tail") {
        Step::Store { state, notice } => {
            assert_eq!(conversation_of(Some(state)), (vec![], ChatGPTEngine::Gpt4));
            assert_eq!(notice, "\u{2716}\u{fe0f} Take Tail");
        }
        Step::Ask { .. } => panic!("a command was asked of the service"),
    }
}

#[test]
fn scenario_fresh_chat_registers() {
    let mut store = SessionStore::new();
    store.add_api_key("sk-valid-key");
    assert!(store.get_dialogue(1).unwrap().is_none());
    let r = store.update_dialogue(1, DialogueState::Registration { api_key: "sk-valid-key".to_string() });
    assert_eq!(registration_reply(r), "Success! You can start conversation!");
    let (h, v) = conversation_of(store.get_dialogue(1).unwrap());
    assert!(h.is_empty());
    assert_eq!(v, ChatGPTEngine::Gpt35Turbo);
    let other = store.update_dialogue(2, DialogueState::Registration { api_key: "sk-valid-key".to_string() });
    assert_eq!(other, Ok(()));
    assert_eq!(
        registration_reply(Err(Error::KeyRejected)),
        "API Key not working, please try again!"
    );
}

#[test]
fn scenario_reset_clears_history() {
    let mut store = registered_store(5, "k");
    let h = vec![msg(Role::User, "hi"), msg(Role::Assistant, "hello")];
    store
        .update_dialogue(5, DialogueState::Conversation { history: h, version: ChatGPTEngine::Gpt4 })
        .unwrap();
    let (h, v) = conversation_of(store.get_dialogue(5).unwrap());
    let history: Vec<ChatMessage> = h.into_iter().map(|(r, c)| ChatMessage::new(r, c)).collect();
    match conversation_step(history, v, "/reset") {
        Step::Store { state, notice } => {
            assert_eq!(notice, "\u{2716}\u{fe0f} History Reseted");
            store.update_dialogue(5, state).unwrap();
        }
        Step::Ask { .. } => panic!("a command was asked of the service"),
    }
    assert_eq!(conversation_of(store.get_dialogue(5).unwrap()), (vec![], ChatGPTEngine::Gpt4));
}

#[test]
fn scenario_failed_completion_keeps_history() {
    let mut store = registered_store(8, "k");
    let h = vec![msg(Role::User, "hi"), msg(Role::Assistant, "hello")];
    store
        .update_dialogue(8, DialogueState::Conversation { history: h.clone(), version: ChatGPTEngine::Gpt35Turbo })
        .unwrap();
    let before = store.get_dialogue(8).unwrap();
    let (history, version, prompt) = match conversation_step(h, ChatGPTEngine::Gpt35Turbo, "what now?") {
        Step::Ask { history, version, prompt } => (history, version, prompt),
        Step::Store { .. } => panic!("an ordinary message was taken for a command"),
    };
    let out = complete_turn(history, version, prompt, Err("timeout".to_string()));
    assert!(out.state.is_none());
    assert_eq!(out.reply, "Error while request: timeout, You can try call /reset or /tail");
    assert_eq!(
        conversation_of(store.get_dialogue(8).unwrap()),
        conversation_of(before)
    );
}

#[test]
fn scenario_successful_completion_appends_two() {
    let mut store = registered_store(9, "k");
    let h = vec![msg(Role::User, "hi"), msg(Role::Assistant, "hello")];
    store
        .update_dialogue(9, DialogueState::Conversation { history: h.clone(), version: ChatGPTEngine::Gpt4 })
        .unwrap();
    let (history, version, prompt) = match conversation_step(h, ChatGPTEngine::Gpt4, "tell me") {
        Step::Ask { history, version, prompt } => (history, version, prompt),
        Step::Store { .. } => panic!("an ordinary message was taken for a command"),
    };
    assert_eq!(prompt, "tell me");
    let out = complete_turn(history, version, prompt, Ok("X".to_string()));
    assert_eq!(out.reply, "X");
    store.update_dialogue(9, out.state.unwrap()).unwrap();
    let (after, v) = conversation_of(store.get_dialogue(9).unwrap());
    assert_eq!(v, ChatGPTEngine::Gpt4);
    assert_eq!(
        after,
        vec![
            (Role::User, "hi".to_string()),
            (Role::Assistant, "hello".to_string()),
            (Role::User, "tell me".to_string()),
            (Role::Assistant, "X".to_string()),
        ]
    );
}

#[test]
fn model_switch_changes_only_version() {
    let h = vec![msg(Role::User, "hi"), msg(Role::Assistant, "hello")];
    let (history, version) = match conversation_step(h, ChatGPTEngine::Gpt35Turbo, "/gpt4 please") {
        Step::Store { state, notice } => {
            assert_eq!(notice, "\u{1f579}GPT-4");
            match state {
                DialogueState::Conversation { history, version } => (history, version),
                other => panic!("not a conversation: {:?}", other),
            }
        }
        Step::Ask { .. } => panic!("a command was asked of the service"),
    };
    assert_eq!(version, ChatGPTEngine::Gpt4);
    assert_eq!(pairs(&history), vec![(Role::User, "hi".to_string()), (Role::Assistant, "hello".to_string())]);
    match conversation_step(history, version, "next question") {
        Step::Ask { version, .. } => assert_eq!(version, ChatGPTEngine::Gpt4),
        Step::Store { .. } => panic!("an ordinary message was taken for a command"),
    }
    match conversation_step(vec![], ChatGPTEngine::Gpt4, "/gpt3") {
        Step::Store { state, notice } => {
            assert_eq!(notice, "\u{1f579}GPT-3.5");
            assert_eq!(conversation_of(Some(state)), (vec![], ChatGPTEngine::Gpt35Turbo));
        }
        Step::Ask { .. } => panic!("a command was asked of the service"),
    }
}

#[test]
fn classify_commands() {
    assert_eq!(classify("/reset now"), Command::Reset);
    assert_eq!(classify("/tail"), Command::Tail);
    assert_eq!(classify("/gpt3"), Command::UseGpt3);
    assert_eq!(classify("/gpt4-turbo"), Command::UseGpt4);
    assert_eq!(classify("/rese"), Command::Message);
    assert_eq!(classify(" /reset"), Command::Message);
    assert_eq!(classify(""), Command::Message);
}

#[test]
fn store_fault_reply() {
    assert_eq!(registration_reply(Err(Error::DB)), "Internal error, please try again later!");
}

#[test]
fn registered_empty_key_is_rejected() {
    let records = vec![credential_record("")];
    assert!(!verify(&records, ""));
    let mut store = SessionStore::new();
    store.add_api_key("");
    let r = store.update_dialogue(4, DialogueState::Registration { api_key: String::new() });
    assert_eq!(r, Err(Error::KeyRejected));
    assert!(store.get_dialogue(4).unwrap().is_none());
}

#[test]
fn write_plans() {
    let records = vec![credential_record("sk-key")];
    assert!(matches!(write_for(&records, DialogueState::ApiKeyRequest), Write::Nothing));
    assert!(matches!(
        write_for(&records, DialogueState::Registration { api_key: "sk-other".to_string() }),
        Write::Reject
    ));
    match write_for(&records, DialogueState::Registration { api_key: "sk-key".to_string() }) {
        Write::Put(row) => {
            assert_eq!(row.history, "[]");
            assert_eq!(row.version, "gpt-3.5-turbo");
        }
        _ => panic!("an accepted key gave no new record"),
    }
    let h = vec![msg(Role::User, "hi")];
    match write_for(&vec![], DialogueState::Conversation { history: h, version: ChatGPTEngine::Gpt4 }) {
        Write::Replace(row) => {
            assert_eq!(row.history, r#"[["user","hi"]]"#);
            assert_eq!(row.version, "gpt-4");
        }
        _ => panic!("a conversation gave no replacement"),
    }
}
