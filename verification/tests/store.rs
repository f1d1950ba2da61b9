use clavy::store::InputSourceState;

#[test]
fn save_then_load_round_trips() {
    let mut store = InputSourceState::new();
    store.save("com.a".to_string(), "com.apple.keylayout.French".to_string());
    assert_eq!(store.load("com.a"), Some("com.apple.keylayout.French".to_string()));
}

#[test]
fn load_of_unknown_app_is_none() {
    let store = InputSourceState::new();
    assert_eq!(store.load("com.never.seen"), None);
}

#[test]
fn save_overwrites_previous_entry() {
    let mut store = InputSourceState::new();
    store.save("com.a".to_string(), "one".to_string());
    store.save("com.a".to_string(), "two".to_string());
    assert_eq!(store.load("com.a"), Some("two".to_string()));
}

#[test]
fn entries_are_independent_per_app() {
    let mut store = InputSourceState::new();
    store.save("com.a".to_string(), "fr".to_string());
    store.save("com.b".to_string(), "de".to_string());
    assert_eq!(store.load("com.a"), Some("fr".to_string()));
    assert_eq!(store.load("com.b"), Some("de".to_string()));
}
