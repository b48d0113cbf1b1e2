use std::collections::HashSet;
use sys_tray::commands::process_file;
use sys_tray::menu::MenuEntry;
use sys_tray::menu::create_tray_menu;
use sys_tray::payload::SystemTrayPayload;

fn entry_id(entry: &MenuEntry) -> Option<String> {
    match entry {
        MenuEntry::Text { id, .. } => Some(id.clone()),
        MenuEntry::Separator => None,
    }
}

#[test]
fn menu_has_fixed_items() {
    let menu = create_tray_menu("en");
    assert_eq!(menu.submenu.label, "Sub Menu!");
    assert_eq!(menu.submenu.entries.len(), 3);
    match &menu.submenu.entries[0] {
        MenuEntry::Text { id, label } => {
            assert_eq!(id, "bf-sep");
            assert_eq!(label, "Before Separator");
        }
        MenuEntry::Separator => panic!("expected a labeled entry before the separator"),
    }
    assert!(matches!(menu.submenu.entries[1], MenuEntry::Separator));
    match &menu.submenu.entries[2] {
        MenuEntry::Text { id, label } => {
            assert_eq!(id, "af-sep");
            assert_eq!(label, "After Separator");
        }
        MenuEntry::Separator => panic!("expected a labeled entry after the separator"),
    }
    assert_eq!(menu.items.len(), 3);
    let ids: Vec<Option<String>> = menu.items.iter().map(entry_id).collect();
    assert_eq!(
        ids,
        vec![
            Some("quit".to_string()),
            Some("toggle-visibility".to_string()),
            Some("toggle-tray-icon".to_string()),
        ]
    );
    match &menu.items[0] {
        MenuEntry::Text { label, .. } => assert_eq!(label, "Quit"),
        MenuEntry::Separator => panic!("expected the quit item"),
    }
}

#[test]
fn menu_ignores_language_tag() {
    let english = create_tray_menu("en");
    let german = create_tray_menu("de");
    assert_eq!(english.submenu.label, german.submenu.label);
    let english_ids: Vec<Option<String>> = english.items.iter().map(entry_id).collect();
    let german_ids: Vec<Option<String>> = german.items.iter().map(entry_id).collect();
    assert_eq!(english_ids, german_ids);
    match (&english.items[1], &german.items[1]) {
        (MenuEntry::Text { label: a, .. }, MenuEntry::Text { label: b, .. }) => assert_eq!(a, b),
        _ => panic!("expected labeled items"),
    }
}

#[test]
fn menu_ids_are_unique() {
    let menu = create_tray_menu("en");
    let mut seen: HashSet<String> = HashSet::new();
    let all = menu.submenu.entries.iter().chain(menu.items.iter());
    for entry in all {
        if let Some(id) = entry_id(entry) {
            assert!(seen.insert(id.clone()), "duplicate menu id: {}", id);
        }
    }
    assert_eq!(seen.len(), 5);
}

#[test]
fn payload_carries_message() {
    let payload = SystemTrayPayload::new("toggle-visibility");
    assert_eq!(payload.message().as_str(), "toggle-visibility");
}

#[test]
fn process_file_replies_with_greeting() {
    assert_eq!(process_file("/tmp/song.ogg").as_str(), "Hello from Rust!");
    assert_eq!(process_file("").as_str(), "Hello from Rust!");
}
