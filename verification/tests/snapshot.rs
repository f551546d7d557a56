use text_fixer::greeting::greet;
use text_fixer::snapshot::{
    capture, get_last_window, get_last_window_name, on_hotkey, HotkeyAction, PastePlugin,
    UtilityWindow, WindowSnapshot,
};

fn window(id: u32, title: &str, process_id: u32, name: &str) -> WindowSnapshot {
    WindowSnapshot {
        id,
        title: title.to_string(),
        process_id,
        name: name.to_string(),
        x: 10,
        y: 20,
        width: 800,
        height: 600,
    }
}

#[test]
fn new_store_is_empty() {
    assert_eq!(PastePlugin::new().peek(), None);
    assert_eq!(PastePlugin::default().peek(), None);
}

#[test]
fn peek_after_record_returns_the_snapshot() {
    let mut store = PastePlugin::new();
    let snapshot = window(7, "Untitled - Notepad", 42, "Notepad");
    store.record(snapshot.clone());
    assert_eq!(store.peek(), Some(snapshot));
}

#[test]
fn reads_in_between_do_not_disturb_the_store() {
    let mut store = PastePlugin::new();
    let snapshot = window(7, "Untitled - Notepad", 42, "Notepad");
    store.record(snapshot.clone());
    for _ in 0..5 {
        assert_eq!(store.peek(), Some(snapshot.clone()));
        assert_eq!(get_last_window(&store), Some(snapshot.clone()));
    }
}

#[test]
fn last_record_wins() {
    let mut store = PastePlugin::new();
    store.record(window(1, "a", 2, "A"));
    let _ = store.peek();
    store.record(window(3, "b", 4, "B"));
    assert_eq!(store.peek(), Some(window(3, "b", 4, "B")));
}

#[test]
fn clone_copies_every_field() {
    let snapshot = window(9, "t", 8, "n");
    let copy = snapshot.clone();
    assert_eq!(copy, snapshot);
    assert_eq!(copy.x, 10);
    assert_eq!(copy.height, 600);
}

#[test]
fn capture_without_focused_window_is_empty() {
    assert_eq!(capture(None, 100), None);
}

#[test]
fn capture_keeps_a_foreign_window() {
    let snapshot = window(7, "Untitled - Notepad", 42, "Notepad");
    assert_eq!(capture(Some(snapshot.clone()), 100), Some(snapshot));
}

#[test]
fn capture_never_keeps_the_utility_itself() {
    assert_eq!(capture(Some(window(5, "LiveRewrite", 100, "text-fixer")), 100), None);
}

#[test]
fn name_of_no_window_is_a_placeholder() {
    assert_eq!(get_last_window_name(&None), "No previous window");
    assert_eq!(get_last_window_name(&PastePlugin::new().peek()), "No previous window");
}

#[test]
fn name_of_a_nameless_window_is_a_placeholder() {
    assert_eq!(get_last_window_name(&Some(window(1, "title", 2, ""))), "No title");
    assert_eq!(get_last_window_name(&Some(window(1, "title", 2, " \t\n"))), "No title");
}

#[test]
fn name_of_a_window_is_its_application_name() {
    assert_eq!(get_last_window_name(&Some(window(1, "title", 2, "Notepad"))), "Notepad");
    assert_eq!(get_last_window_name(&Some(window(1, "title", 2, " Notepad "))), " Notepad ");
}

#[test]
fn empty_capture_leaves_the_commands_with_placeholders() {
    let mut store = PastePlugin::new();
    let action = on_hotkey(&mut store, None, 100, UtilityWindow::Hidden);
    assert_eq!(action, HotkeyAction::Show { anchor: None });
    assert_eq!(store.peek(), None);
    assert_eq!(get_last_window_name(&store.peek()), "No previous window");
}

#[test]
fn hotkey_records_and_shows_by_the_captured_window() {
    let mut store = PastePlugin::new();
    let snapshot = window(7, "Untitled - Notepad", 42, "Notepad");
    let action = on_hotkey(&mut store, Some(snapshot.clone()), 100, UtilityWindow::Hidden);
    assert_eq!(action, HotkeyAction::Show { anchor: Some(snapshot.clone()) });
    assert_eq!(store.peek(), Some(snapshot));
}

#[test]
fn hotkey_hides_a_visible_window_and_keeps_the_target() {
    let mut store = PastePlugin::new();
    let snapshot = window(7, "Untitled - Notepad", 42, "Notepad");
    store.record(snapshot.clone());
    let own = window(5, "LiveRewrite", 100, "text-fixer");
    let action = on_hotkey(&mut store, Some(own), 100, UtilityWindow::Visible);
    assert_eq!(action, HotkeyAction::Hide);
    assert_eq!(store.peek(), Some(snapshot));
}

#[test]
fn hotkey_creates_a_missing_window() {
    let mut store = PastePlugin::new();
    assert_eq!(on_hotkey(&mut store, None, 100, UtilityWindow::Missing), HotkeyAction::Create);
}

#[test]
fn failed_capture_keeps_the_earlier_snapshot() {
    let mut store = PastePlugin::new();
    let snapshot = window(7, "Untitled - Notepad", 42, "Notepad");
    store.record(snapshot.clone());
    let _ = on_hotkey(&mut store, None, 100, UtilityWindow::Hidden);
    assert_eq!(store.peek(), Some(snapshot));
}

#[test]
fn greet_names_the_guest() {
    assert_eq!(greet("Ada"), "Hello, Ada! You've been greeted from Rust!");
    assert_eq!(greet(""), "Hello, ! You've been greeted from Rust!");
}
