use friend_rs::conversation::{on_reply, on_transcript, TurnStep};
use friend_rs::memory::ConversationMemory;
use friend_rs::ollama::ChatMessage;

fn pairs(messages: &[ChatMessage]) -> Vec<(String, String)> {
    messages.iter().map(|m| (m.role.clone(), m.content.clone())).collect()
}

fn pair(role: &str, content: &str) -> (String, String) {
    (role.to_string(), content.to_string())
}

#[test]
fn new_memory_shows_only_the_system_prompt() {
    let memory = ConversationMemory::new("be kind".to_string(), 24);
    assert_eq!(pairs(&memory.messages_for_model()), vec![pair("system", "be kind")]);
}

#[test]
fn pushes_are_shown_in_order_after_the_system_prompt() {
    let mut memory = ConversationMemory::new("sys".to_string(), 24);
    memory.push_user("hello".to_string());
    memory.push_assistant("hey, how are you?".to_string());
    memory.push_user("fine".to_string());
    assert_eq!(
        pairs(&memory.messages_for_model()),
        vec![
            pair("system", "sys"),
            pair("user", "hello"),
            pair("assistant", "hey, how are you?"),
            pair("user", "fine"),
        ]
    );
}

#[test]
fn window_keeps_only_the_most_recent_messages() {
    let mut memory = ConversationMemory::new("sys".to_string(), 2);
    memory.push_user("a".to_string());
    memory.push_assistant("b".to_string());
    memory.push_user("c".to_string());
    assert_eq!(
        pairs(&memory.messages_for_model()),
        vec![pair("system", "sys"), pair("assistant", "b"), pair("user", "c")]
    );
    memory.push_assistant("d".to_string());
    assert_eq!(
        pairs(&memory.messages_for_model()),
        vec![pair("system", "sys"), pair("user", "c"), pair("assistant", "d")]
    );
}

#[test]
fn window_of_twenty_four_after_thirty_pushes() {
    let mut memory = ConversationMemory::new("sys".to_string(), 24);
    for i in 0..30 {
        memory.push_user(format!("m{}", i));
    }
    let shown = memory.messages_for_model();
    assert_eq!(shown.len(), 25);
    assert_eq!(shown[0].role, "system");
    assert_eq!(shown[1].content, "m6");
    assert_eq!(shown[24].content, "m29");
}

#[test]
fn zero_window_remembers_nothing() {
    let mut memory = ConversationMemory::new("sys".to_string(), 0);
    memory.push_user("a".to_string());
    memory.push_assistant("b".to_string());
    assert_eq!(pairs(&memory.messages_for_model()), vec![pair("system", "sys")]);
}

#[test]
fn cloned_memory_shows_the_same_messages() {
    let mut memory = ConversationMemory::new("sys".to_string(), 3);
    memory.push_user("a".to_string());
    let copy = memory.clone();
    memory.push_user("b".to_string());
    assert_eq!(pairs(&copy.messages_for_model()), vec![pair("system", "sys"), pair("user", "a")]);
}

#[test]
fn blank_transcript_ends_the_turn_and_changes_nothing() {
    let mut memory = ConversationMemory::new("sys".to_string(), 24);
    memory.push_user("earlier".to_string());
    let step = on_transcript(&mut memory, "  \n\t ".to_string());
    assert!(matches!(step, TurnStep::NothingHeard));
    let step = on_transcript(&mut memory, String::new());
    assert!(matches!(step, TurnStep::NothingHeard));
    assert_eq!(pairs(&memory.messages_for_model()), vec![pair("system", "sys"), pair("user", "earlier")]);
}

#[test]
fn transcript_is_remembered_and_sent_to_the_model() {
    let mut memory = ConversationMemory::new("sys".to_string(), 24);
    let step = on_transcript(&mut memory, "how was your day?".to_string());
    match step {
        TurnStep::AskModel(messages) => assert_eq!(
            pairs(&messages),
            vec![pair("system", "sys"), pair("user", "how was your day?")]
        ),
        TurnStep::NothingHeard => panic!("a real transcript was dropped"),
    }
    let spoken = on_reply(&mut memory, "pretty good, you?".to_string());
    assert_eq!(spoken, "pretty good, you?");
    assert_eq!(
        pairs(&memory.messages_for_model()),
        vec![
            pair("system", "sys"),
            pair("user", "how was your day?"),
            pair("assistant", "pretty good, you?"),
        ]
    );
}

#[test]
fn latest_user_turn_is_last_even_when_the_window_is_full() {
    let mut memory = ConversationMemory::new("sys".to_string(), 1);
    memory.push_assistant("old reply".to_string());
    match on_transcript(&mut memory, "new question".to_string()) {
        TurnStep::AskModel(messages) => {
            assert_eq!(pairs(&messages), vec![pair("system", "sys"), pair("user", "new question")])
        }
        TurnStep::NothingHeard => panic!("a real transcript was dropped"),
    }
}
