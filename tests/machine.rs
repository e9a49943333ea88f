use tuidolist::{AppState, Effect, Focus, Key, Mode, TodoItem};

fn item(is_done: bool, name: &str, description: &str) -> TodoItem {
    TodoItem::new(is_done, name.to_string(), description.to_string())
}

fn three_items() -> AppState {
    AppState::new(vec![item(false, "one", "a"), item(true, "two", "b"), item(false, "three", "c")])
}

fn type_text(state: &mut AppState, text: &str) {
    for c in text.chars() {
        assert_eq!(state.handle_input(Key::Char(c)), Effect::Continue);
    }
}

fn names(state: &AppState) -> Vec<String> {
    state.items().iter().map(|i| i.name.clone()).collect()
}

#[test]
fn starts_browsing_with_nothing_selected() {
    let state = three_items();
    assert_eq!(state.mode(), Mode::Browsing);
    assert_eq!(state.selected(), None);
    assert_eq!(state.focus(), Focus::Name);
    assert!(state.name_draft().is_empty());
}

#[test]
fn add_appends_and_persists() {
    let mut state = AppState::new(vec![item(false, "first", "")]);
    assert_eq!(state.handle_input(Key::Char('a')), Effect::Continue);
    assert_eq!(state.mode(), Mode::Adding);
    type_text(&mut state, "Buy milk");
    assert_eq!(state.handle_input(Key::Tab), Effect::Continue);
    assert_eq!(state.focus(), Focus::Description);
    type_text(&mut state, "2% please");
    assert_eq!(state.handle_input(Key::Enter), Effect::Persist);
    assert_eq!(state.mode(), Mode::Browsing);
    assert_eq!(state.items().len(), 2);
    let last = &state.items()[1];
    assert!(!last.is_done);
    assert_eq!(last.name, "Buy milk");
    assert_eq!(last.description, "2% please");
    assert!(state.name_draft().is_empty());
    assert!(state.description_draft().is_empty());
    assert_eq!(state.focus(), Focus::Name);
    let doc = tuidolist::encode_document(state.items()).unwrap();
    assert!(doc.ends_with(",{\"is_done\":false,\"name\":\"Buy milk\",\"description\":\"2% please\"}]}"));
}

#[test]
fn add_rejects_empty_name() {
    let mut state = three_items();
    state.handle_input(Key::Char('a'));
    assert_eq!(state.handle_input(Key::Tab), Effect::Continue);
    type_text(&mut state, "details");
    assert_eq!(state.handle_input(Key::Enter), Effect::Continue);
    assert_eq!(state.mode(), Mode::Adding);
    assert_eq!(state.items().len(), 3);
    assert!(state.name_draft().is_empty());
    assert_eq!(state.description_draft(), "details");
    assert_eq!(state.focus(), Focus::Description);
}

#[test]
fn cancel_discards_draft() {
    let mut state = three_items();
    state.handle_input(Key::Char('a'));
    type_text(&mut state, "half");
    assert_eq!(state.handle_input(Key::Esc), Effect::Continue);
    assert_eq!(state.mode(), Mode::Browsing);
    assert_eq!(state.items().len(), 3);
    assert!(state.name_draft().is_empty());
    state.handle_input(Key::Char('a'));
    assert!(state.name_draft().is_empty());
}

#[test]
fn backspace_removes_last_char_of_focused_field() {
    let mut state = AppState::new(Vec::new());
    state.handle_input(Key::Char('a'));
    type_text(&mut state, "abc");
    state.handle_input(Key::Backspace);
    assert_eq!(state.name_draft(), "ab");
    state.handle_input(Key::Tab);
    state.handle_input(Key::Backspace);
    assert_eq!(state.name_draft(), "ab");
    assert!(state.description_draft().is_empty());
}

#[test]
fn navigation_is_clamped() {
    let mut state = three_items();
    state.handle_input(Key::Char('j'));
    assert_eq!(state.selected(), Some(0));
    state.handle_input(Key::Char('k'));
    assert_eq!(state.selected(), Some(0));
    for _ in 0..5 {
        state.handle_input(Key::Char('j'));
    }
    assert_eq!(state.selected(), Some(2));
    let mut other = three_items();
    other.handle_input(Key::Char('k'));
    assert_eq!(other.selected(), Some(2));
}

#[test]
fn navigation_on_empty_list_is_noop() {
    let mut state = AppState::new(Vec::new());
    state.handle_input(Key::Char('j'));
    assert_eq!(state.selected(), None);
    state.handle_input(Key::Char('k'));
    assert_eq!(state.selected(), None);
}

#[test]
fn delete_on_last_item_reclamps_selection() {
    let mut state = three_items();
    for _ in 0..3 {
        state.handle_input(Key::Char('j'));
    }
    assert_eq!(state.selected(), Some(2));
    assert_eq!(state.handle_input(Key::Char('d')), Effect::Continue);
    assert_eq!(state.mode(), Mode::ConfirmingDelete);
    assert_eq!(state.handle_input(Key::Char('y')), Effect::Persist);
    assert_eq!(state.mode(), Mode::Browsing);
    assert_eq!(names(&state), vec!["one", "two"]);
    assert_eq!(state.selected(), Some(1));
}

#[test]
fn delete_only_item_clears_selection() {
    let mut state = AppState::new(vec![item(false, "only", "")]);
    state.handle_input(Key::Char('j'));
    state.handle_input(Key::Char('d'));
    assert_eq!(state.handle_input(Key::Char('y')), Effect::Persist);
    assert!(state.items().is_empty());
    assert_eq!(state.selected(), None);
}

#[test]
fn delete_declined_keeps_items() {
    let mut state = three_items();
    state.handle_input(Key::Char('j'));
    state.handle_input(Key::Char('d'));
    assert_eq!(state.handle_input(Key::Char('x')), Effect::Continue);
    assert_eq!(state.mode(), Mode::ConfirmingDelete);
    assert_eq!(state.handle_input(Key::Char('n')), Effect::Continue);
    assert_eq!(state.mode(), Mode::Browsing);
    assert_eq!(state.items().len(), 3);
}

#[test]
fn selection_keys_need_a_selection() {
    let mut state = three_items();
    for k in [Key::Char('d'), Key::Char('e'), Key::Enter] {
        assert_eq!(state.handle_input(k), Effect::Continue);
        assert_eq!(state.mode(), Mode::Browsing);
    }
    assert_eq!(state.handle_input(Key::Char('c')), Effect::Continue);
    assert!(!state.items()[0].is_done);
}

#[test]
fn toggle_twice_restores_flag() {
    let mut state = three_items();
    state.handle_input(Key::Char('j'));
    state.handle_input(Key::Char('j'));
    assert_eq!(state.handle_input(Key::Char('c')), Effect::Persist);
    assert!(!state.items()[1].is_done);
    let first_save = tuidolist::encode_document(state.items()).unwrap();
    assert!(first_save.contains("{\"is_done\":false,\"name\":\"two\""));
    assert_eq!(state.handle_input(Key::Char('c')), Effect::Persist);
    assert!(state.items()[1].is_done);
    let second_save = tuidolist::encode_document(state.items()).unwrap();
    assert!(second_save.contains("{\"is_done\":true,\"name\":\"two\""));
}

#[test]
fn edit_changes_only_selected_item() {
    let mut state = three_items();
    state.handle_input(Key::Char('j'));
    state.handle_input(Key::Char('j'));
    state.handle_input(Key::Char('e'));
    assert_eq!(state.mode(), Mode::Editing);
    assert_eq!(state.name_draft(), "two");
    assert_eq!(state.description_draft(), "b");
    type_text(&mut state, "!");
    state.handle_input(Key::Tab);
    state.handle_input(Key::Backspace);
    type_text(&mut state, "new");
    assert_eq!(state.handle_input(Key::Enter), Effect::Persist);
    assert_eq!(state.mode(), Mode::Browsing);
    assert_eq!(names(&state), vec!["one", "two!", "three"]);
    assert!(state.items()[1].is_done);
    assert_eq!(state.items()[1].description, "new");
    assert_eq!(state.items()[0].description, "a");
    assert_eq!(state.items()[2].description, "c");
    assert!(state.name_draft().is_empty());
}

#[test]
fn edit_rejects_empty_name() {
    let mut state = three_items();
    state.handle_input(Key::Char('j'));
    state.handle_input(Key::Char('e'));
    for _ in 0..3 {
        state.handle_input(Key::Backspace);
    }
    assert_eq!(state.handle_input(Key::Enter), Effect::Continue);
    assert_eq!(state.mode(), Mode::Editing);
    assert_eq!(state.items()[0].name, "one");
}

#[test]
fn view_opens_and_closes() {
    let mut state = three_items();
    state.handle_input(Key::Char('j'));
    assert_eq!(state.handle_input(Key::Enter), Effect::Continue);
    assert_eq!(state.mode(), Mode::Viewing);
    assert_eq!(state.handle_input(Key::Char('q')), Effect::Continue);
    assert_eq!(state.mode(), Mode::Viewing);
    assert_eq!(state.handle_input(Key::Esc), Effect::Continue);
    assert_eq!(state.mode(), Mode::Browsing);
}

#[test]
fn escape_while_browsing_quits() {
    let mut state = three_items();
    assert_eq!(state.handle_input(Key::Esc), Effect::Quit);
    assert_eq!(state.mode(), Mode::Browsing);
}

#[test]
fn one_mode_at_every_step() {
    let mut state = three_items();
    let keys = [
        Key::Char('j'), Key::Char('e'), Key::Char('x'), Key::Enter, Key::Char('d'),
        Key::Char('y'), Key::Char('a'), Key::Enter, Key::Char('z'), Key::Enter,
        Key::Char('k'), Key::Enter, Key::Esc, Key::Other,
    ];
    for k in keys {
        state.handle_input(k);
        let mode = state.mode();
        let modes = [Mode::Browsing, Mode::Adding, Mode::Editing, Mode::ConfirmingDelete, Mode::Viewing];
        assert_eq!(modes.iter().filter(|m| **m == mode).count(), 1);
        if let Some(i) = state.selected() {
            assert!(i < state.items().len());
        }
    }
}
