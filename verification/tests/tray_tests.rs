use popomomo_tray::greet;
use popomomo_tray::menu::{build_menu, MenuEntry};
use popomomo_tray::tray::{build_tray, update_tray_title, TrayError, TrayStateStore};

fn installed_store(title: &str) -> TrayStateStore {
    let menu = build_menu();
    let tray = build_tray(title.to_owned(), menu, true, false).unwrap();
    let mut store = TrayStateStore::new();
    store.install(tray);
    store
}

#[test]
fn greet_formats_the_name() {
    assert_eq!(greet("Tom"), "Hello, Tom! You've been greeted from Rust!");
}

#[test]
fn menu_has_show_hide_separator_quit_in_order() {
    let menu = build_menu();
    assert_eq!(menu.entries.len(), 4);
    match &menu.entries[0] {
        MenuEntry::Item { id, label, enabled } => {
            assert_eq!(id, "show");
            assert_eq!(label, "Show");
            assert!(*enabled);
        }
        MenuEntry::Separator => panic!("first entry must be the show item"),
    }
    match &menu.entries[1] {
        MenuEntry::Item { id, label, enabled } => {
            assert_eq!(id, "hide");
            assert_eq!(label, "Hide");
            assert!(*enabled);
        }
        MenuEntry::Separator => panic!("second entry must be the hide item"),
    }
    assert!(matches!(&menu.entries[2], MenuEntry::Separator));
    match &menu.entries[3] {
        MenuEntry::Item { id, label, enabled } => {
            assert_eq!(id, "quit");
            assert_eq!(label, "Quit");
            assert!(*enabled);
        }
        MenuEntry::Separator => panic!("fourth entry must be the quit item"),
    }
}

#[test]
fn build_tray_sets_tooltip_equal_to_title() {
    let menu = build_menu();
    let tray = build_tray("\u{25cf} 25:00".to_owned(), menu, true, false).unwrap();
    assert_eq!(tray.id, "main-tray");
    assert_eq!(tray.title, "\u{25cf} 25:00");
    assert_eq!(tray.tooltip, "\u{25cf} 25:00");
    assert!(tray.has_icon);
}

#[test]
fn build_tray_title_only_platform_attaches_no_icon() {
    let menu = build_menu();
    let tray = build_tray("\u{25cf} 25:00".to_owned(), menu, false, true).unwrap();
    assert!(!tray.has_icon);
    assert_eq!(tray.id, "main-tray");
}

#[test]
fn build_tray_without_icon_fails_where_icon_is_required() {
    let menu = build_menu();
    let r = build_tray("\u{25cf} 25:00".to_owned(), menu, false, false);
    assert_eq!(r.unwrap_err(), TrayError::PlatformConstructionFailure);
}

#[test]
fn store_starts_empty() {
    let store = TrayStateStore::new();
    assert!(!store.has_tray());
    assert!(store.tray_icon.is_none());
}

#[test]
fn update_on_empty_store_is_a_silent_no_op() {
    let mut store = TrayStateStore::new();
    let r = update_tray_title(&mut store, "X".to_owned(), false, false);
    assert!(r.is_ok());
    assert!(store.tray_icon.is_none());
}

#[test]
fn in_place_update_changes_title_and_keeps_tooltip() {
    // Tooltip asymmetry: from tooltip "A" to title "B" in place.
    let mut store = installed_store("A");
    let r = update_tray_title(&mut store, "B".to_owned(), true, false);
    assert!(r.is_ok());
    let tray = store.tray_icon.as_ref().unwrap();
    assert_eq!(tray.title, "B");
    assert_eq!(tray.tooltip, "A");
}

#[test]
fn rebuild_fallback_sets_title_and_tooltip() {
    // Fallback correctness: the in-place update fails, the rebuild succeeds.
    let mut store = installed_store("A");
    let r = update_tray_title(&mut store, "Y".to_owned(), false, true);
    assert!(r.is_ok());
    let tray = store.tray_icon.as_ref().unwrap();
    assert_eq!(tray.title, "Y");
    assert_eq!(tray.tooltip, "Y");
    assert_eq!(tray.id, "main-tray");
    assert_eq!(tray.menu.entries.len(), 4);
    assert!(!tray.has_icon);
}

#[test]
fn two_updates_converge_in_place_then_rebuild() {
    let mut store = installed_store("A");
    assert!(update_tray_title(&mut store, "X".to_owned(), true, false).is_ok());
    assert!(update_tray_title(&mut store, "X".to_owned(), false, true).is_ok());
    assert_eq!(store.tray_icon.as_ref().unwrap().title, "X");
}

#[test]
fn two_updates_converge_rebuild_then_in_place() {
    let mut store = installed_store("A");
    assert!(update_tray_title(&mut store, "X".to_owned(), false, true).is_ok());
    assert!(update_tray_title(&mut store, "X".to_owned(), true, false).is_ok());
    assert_eq!(store.tray_icon.as_ref().unwrap().title, "X");
}

#[test]
fn store_never_holds_more_than_one_resource() {
    // Single-instance invariant over a mixed call sequence.
    let mut store = installed_store("A");
    let outcomes = [(true, false), (false, true), (true, true), (false, true)];
    for (inplace_ok, rebuild_ok) in outcomes {
        let r = update_tray_title(&mut store, "T".to_owned(), inplace_ok, rebuild_ok);
        assert!(r.is_ok());
        let live = if store.tray_icon.is_some() { 1 } else { 0 };
        assert!(live <= 1);
        assert!(store.has_tray());
    }
}

#[test]
fn failed_rebuild_reports_error_and_leaves_store_empty() {
    let mut store = installed_store("A");
    let r = update_tray_title(&mut store, "Z".to_owned(), false, false);
    assert_eq!(r.unwrap_err(), TrayError::PlatformConstructionFailure);
    assert!(store.tray_icon.is_none());
    // The degraded state stays: a later call is a no-op that still succeeds.
    let r2 = update_tray_title(&mut store, "Z".to_owned(), false, false);
    assert!(r2.is_ok());
    assert!(store.tray_icon.is_none());
}

#[test]
fn error_messages() {
    assert_eq!(TrayError::LockAcquisitionFailure.message(), "lock failed");
    assert_eq!(
        TrayError::PlatformConstructionFailure.message(),
        "tray construction failed"
    );
}
