use cosmic_launcher::{
    entry_to_launch, GpuChoice, IconRef, KeyAction, LauncherItem, LauncherKey, LauncherRequest,
    LauncherResponse, LauncherResult, LauncherSession, LauncherUi, TransportError, SLOT_COUNT,
};

fn result(id: u32, name: &str) -> LauncherResult {
    LauncherResult {
        id,
        name: name.to_string(),
        description: format!("{} description", name),
        icon: Some(IconRef::Name(format!("{}-icon", name))),
        category_icon: Some(IconRef::Mime("text/plain".to_string())),
        window: None,
    }
}

fn blank(item: &LauncherItem) -> bool {
    item.name.is_empty()
        && item.description.is_empty()
        && item.icon.is_none()
        && item.category_icon.is_none()
        && !item.active
}

#[test]
fn new_launcher_is_empty_with_cursor_on_first() {
    let ui = LauncherUi::new();
    assert_eq!(SLOT_COUNT, 8);
    assert_eq!(ui.selected(), 0);
    for i in 0..SLOT_COUNT {
        assert!(blank(ui.item(i)));
    }
    assert_eq!(ui.select(), vec![false; 8]);
}

#[test]
fn cursor_wraps_down_from_last() {
    let mut ui = LauncherUi::new();
    for _ in 0..7 {
        ui.key_down();
    }
    assert_eq!(ui.selected(), 7);
    ui.key_down();
    assert_eq!(ui.selected(), 0);
}

#[test]
fn cursor_wraps_up_from_first() {
    let mut ui = LauncherUi::new();
    assert_eq!(ui.selected(), 0);
    ui.key_up();
    assert_eq!(ui.selected(), 7);
    ui.key_up();
    assert_eq!(ui.selected(), 6);
}

#[test]
fn results_go_to_their_slots() {
    let mut ui = LauncherUi::new();
    let dropped = ui.set(&vec![result(2, "Files"), result(0, "Firefox")]);
    assert!(dropped.is_empty());
    assert_eq!(ui.item(2).name, "Files");
    assert_eq!(ui.item(2).description, "Files description");
    assert_eq!(ui.item(2).icon, Some("Files-icon".to_string()));
    assert_eq!(ui.item(2).category_icon, None);
    assert!(ui.item(2).active);
    assert_eq!(ui.item(0).name, "Firefox");
    assert!(blank(ui.item(1)));
}

#[test]
fn out_of_range_result_is_dropped() {
    let mut ui = LauncherUi::new();
    let dropped = ui.set(&vec![result(9, "Nine"), result(3, "Three")]);
    assert_eq!(dropped, vec![9]);
    assert!(blank(ui.item(1)));
    assert_eq!(ui.item(3).name, "Three");
    for i in [0, 2, 4, 5, 6, 7] {
        assert!(blank(ui.item(i)));
    }
}

#[test]
fn later_result_for_a_slot_wins() {
    let mut ui = LauncherUi::new();
    ui.set(&vec![result(1, "First"), result(1, "Second")]);
    assert_eq!(ui.item(1).name, "Second");
}

#[test]
fn only_an_active_slot_under_the_cursor_is_highlighted() {
    let mut ui = LauncherUi::new();
    ui.set(&vec![result(1, "One")]);
    assert_eq!(ui.select(), vec![false; 8]);
    ui.key_down();
    let highlights = ui.select();
    assert_eq!(highlights, vec![false, true, false, false, false, false, false, false]);
}

#[test]
fn item_select_needs_a_result() {
    let mut item = LauncherItem::new();
    assert!(!item.select(true));
    item.set(&result(0, "App"));
    assert!(item.select(true));
    assert!(!item.select(false));
    item.clear();
    assert!(blank(&item));
}

#[test]
fn clear_empties_every_slot() {
    let mut ui = LauncherUi::new();
    ui.set(&vec![result(0, "A"), result(5, "B")]);
    ui.key_down();
    ui.clear();
    for i in 0..SLOT_COUNT {
        assert!(blank(ui.item(i)));
    }
    assert_eq!(ui.selected(), 1);
}

#[test]
fn search_clears_and_asks() {
    let mut ui = LauncherUi::new();
    ui.set(&vec![result(0, "Old")]);
    let request = ui.search("fire".to_string());
    assert_eq!(request, LauncherRequest::Search("fire".to_string()));
    assert_eq!(ui.query_text(), "fire");
    assert!(blank(ui.item(0)));
}

#[test]
fn update_for_current_text_is_applied() {
    let mut ui = LauncherUi::new();
    ui.search("fi".to_string());
    let response = Ok(LauncherResponse::Update(vec![result(0, "Firefox"), result(8, "Eight")]));
    let dropped = ui.apply_search(&"fi".to_string(), response);
    assert_eq!(dropped, vec![8]);
    assert_eq!(ui.item(0).name, "Firefox");
}

#[test]
fn stale_update_is_ignored() {
    let mut ui = LauncherUi::new();
    ui.search("f".to_string());
    ui.search("fi".to_string());
    let response = Ok(LauncherResponse::Update(vec![result(0, "Stale")]));
    let dropped = ui.apply_search(&"f".to_string(), response);
    assert!(dropped.is_empty());
    assert!(blank(ui.item(0)));
}

#[test]
fn failed_search_keeps_slots() {
    let mut ui = LauncherUi::new();
    ui.search("fi".to_string());
    ui.apply_search(&"fi".to_string(), Ok(LauncherResponse::Update(vec![result(4, "Kept")])));
    ui.key_up();
    ui.apply_search(&"fi".to_string(), Err(TransportError::Io("broken pipe".to_string())));
    ui.apply_search(&"fi".to_string(), Ok(LauncherResponse::Close));
    assert_eq!(ui.item(4).name, "Kept");
    assert_eq!(ui.selected(), 7);
}

#[test]
fn fill_resets_cursor_and_replaces_text() {
    let mut ui = LauncherUi::new();
    ui.key_down();
    ui.key_down();
    assert_eq!(ui.complete(), LauncherRequest::Complete(2));
    let text = ui.apply_complete(Ok(LauncherResponse::Fill("firefox ".to_string())));
    assert_eq!(text, Some("firefox ".to_string()));
    assert_eq!(ui.selected(), 0);
}

#[test]
fn other_completion_response_changes_nothing() {
    let mut ui = LauncherUi::new();
    ui.key_down();
    assert_eq!(ui.apply_complete(Ok(LauncherResponse::Close)), None);
    assert_eq!(ui.apply_complete(Err(TransportError::Io("gone".to_string()))), None);
    assert_eq!(ui.selected(), 1);
}

#[test]
fn activate_asks_for_cursor_slot() {
    let mut ui = LauncherUi::new();
    ui.key_up();
    assert_eq!(ui.activate(), LauncherRequest::Activate(7));
}

#[test]
fn keys_map_to_actions() {
    let mut ui = LauncherUi::new();
    assert!(matches!(ui.key_press(LauncherKey::Down), KeyAction::Handled));
    assert_eq!(ui.selected(), 1);
    match ui.key_press(LauncherKey::Tab) {
        KeyAction::Send(request) => assert_eq!(request, LauncherRequest::Complete(1)),
        _ => panic!("tab must send a completion"),
    }
    assert!(matches!(ui.key_press(LauncherKey::Up), KeyAction::Handled));
    assert_eq!(ui.selected(), 0);
    assert!(matches!(ui.key_press(LauncherKey::Escape), KeyAction::Close));
    assert!(matches!(ui.key_press(LauncherKey::Other), KeyAction::Ignored));
    assert_eq!(ui.selected(), 0);
}

#[test]
fn desktop_entry_gives_path() {
    let response = Ok(LauncherResponse::DesktopEntry {
        path: "/usr/share/applications/firefox.desktop".to_string(),
        gpu_preference: GpuChoice::Default,
        action_name: None,
    });
    assert_eq!(
        entry_to_launch(&response),
        Some("/usr/share/applications/firefox.desktop".to_string())
    );
    assert_eq!(entry_to_launch(&Ok(LauncherResponse::Close)), None);
    assert_eq!(entry_to_launch(&Err(TransportError::Busy)), None);
}

#[test]
fn session_opens_and_closes() {
    let mut session = LauncherSession::new();
    assert!(!session.is_open());
    assert!(session.toggle());
    assert!(session.is_open());
    assert_eq!(session.ui().map(|ui| ui.selected()), Some(0));
    assert!(!session.toggle());
    assert!(session.ui().is_none());
}

#[test]
fn closed_session_ignores_events() {
    let mut session = LauncherSession::new();
    assert!(matches!(session.key_press(LauncherKey::Down), KeyAction::Ignored));
    assert_eq!(session.text_changed("x".to_string()), None);
    assert_eq!(session.activate(), None);
    assert!(session.search_response(&"x".to_string(), Ok(LauncherResponse::Close)).is_empty());
    assert_eq!(session.complete_response(Ok(LauncherResponse::Fill("y".to_string()))), None);
    assert!(!session.is_open());
}

#[test]
fn escape_closes_session() {
    let mut session = LauncherSession::new();
    session.toggle();
    assert!(matches!(session.key_press(LauncherKey::Down), KeyAction::Handled));
    assert_eq!(session.ui().map(|ui| ui.selected()), Some(1));
    assert!(matches!(session.key_press(LauncherKey::Escape), KeyAction::Close));
    assert!(!session.is_open());
}

#[test]
fn session_round_of_search_and_activation() {
    let mut session = LauncherSession::new();
    session.toggle();
    let request = session.text_changed("term".to_string());
    assert_eq!(request, Some(LauncherRequest::Search("term".to_string())));
    let dropped = session.search_response(
        &"term".to_string(),
        Ok(LauncherResponse::Update(vec![result(0, "Terminal"), result(12, "Far")])),
    );
    assert_eq!(dropped, vec![12]);
    assert_eq!(session.ui().map(|ui| ui.item(0).name.clone()), Some("Terminal".to_string()));
    assert_eq!(session.activate(), Some(LauncherRequest::Activate(0)));
    let path = session.activate_response(&Ok(LauncherResponse::DesktopEntry {
        path: "/a/terminal.desktop".to_string(),
        gpu_preference: GpuChoice::SpecificIdx(1),
        action_name: Some("new-window".to_string()),
    }));
    assert_eq!(path, Some("/a/terminal.desktop".to_string()));
    assert!(!session.is_open());
}

#[test]
fn activation_error_still_closes() {
    let mut session = LauncherSession::new();
    session.toggle();
    let path = session.activate_response(&Err(TransportError::Io("gone".to_string())));
    assert_eq!(path, None);
    assert!(!session.is_open());
}

#[test]
fn completion_through_session() {
    let mut session = LauncherSession::new();
    session.toggle();
    session.key_press(LauncherKey::Up);
    let text = session.complete_response(Ok(LauncherResponse::Fill("files".to_string())));
    assert_eq!(text, Some("files".to_string()));
    assert_eq!(session.ui().map(|ui| ui.selected()), Some(0));
}

#[test]
fn evdev_codes_map_to_keys() {
    assert_eq!(LauncherKey::from_code(1), LauncherKey::Escape);
    assert_eq!(LauncherKey::from_code(15), LauncherKey::Tab);
    assert_eq!(LauncherKey::from_code(103), LauncherKey::Up);
    assert_eq!(LauncherKey::from_code(108), LauncherKey::Down);
    assert_eq!(LauncherKey::from_code(28), LauncherKey::Other);
    assert_eq!(LauncherKey::from_code(0), LauncherKey::Other);
}
