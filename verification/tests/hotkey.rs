use global_hotkey::hotkey::{Code, HotKey, Modifiers};
use hotkey_translate::hotkey::{
    dispatches, parse_shortcut, registers_at_startup, should_dispatch, ChangeAction, ChangeEvent,
    ChangeStage, ShortcutChange, ShortcutDescriptor, ShortcutError,
};
use std::str::FromStr;

fn change(old: &str, new: &str) -> ShortcutChange {
    ShortcutChange::new(old.to_string(), new.to_string())
}

#[test]
fn dispatch_only_on_press_of_the_configured_shortcut() {
    let a = ShortcutDescriptor { modifiers: 1, key: 42 };
    let b = ShortcutDescriptor { modifiers: 1, key: 43 };
    let c = ShortcutDescriptor { modifiers: 2, key: 42 };
    assert!(should_dispatch(true, a, Some(a)));
    assert!(!should_dispatch(false, a, Some(a)));
    assert!(!should_dispatch(true, a, Some(b)));
    assert!(!should_dispatch(true, a, Some(c)));
    assert!(!should_dispatch(true, a, None));
}

#[test]
fn startup_registration() {
    assert!(registers_at_startup("Ctrl+Q", true));
    assert!(!registers_at_startup("Ctrl+Q", false));
    assert!(!registers_at_startup("", true));
    assert!(!registers_at_startup("", false));
}

#[test]
fn successful_change() {
    let c = change("Ctrl+Q", "Alt+T");
    assert_eq!(c.stage(), ChangeStage::Fresh);
    let (c, a) = c.step(ChangeEvent::Parsed(true));
    assert_eq!(a, ChangeAction::UnregisterAll);
    assert_eq!(c.stage(), ChangeStage::Clearing);
    let (c, a) = c.step(ChangeEvent::Unregistered);
    assert_eq!(a, ChangeAction::Register("Alt+T".to_string()));
    assert_eq!(c.stage(), ChangeStage::Registering);
    let (c, a) = c.step(ChangeEvent::Registered(Ok(())));
    assert_eq!(a, ChangeAction::Persist("Alt+T".to_string()));
    assert_eq!(c.stage(), ChangeStage::Persisting);
    let (c, a) = c.step(ChangeEvent::Persisted(Ok(())));
    assert_eq!(a, ChangeAction::Finish(Ok(())));
    assert_eq!(c.stage(), ChangeStage::Finished);
    let (_, a) = c.step(ChangeEvent::Persisted(Ok(())));
    assert_eq!(a, ChangeAction::Ignore);
}

#[test]
fn invalid_format_is_refused_before_anything_is_touched() {
    let (c, a) = change("Ctrl+Q", "not a shortcut").step(ChangeEvent::Parsed(false));
    assert_eq!(a, ChangeAction::Finish(Err(ShortcutError::InvalidShortcutFormat)));
    assert_eq!(c.stage(), ChangeStage::Finished);
    assert_eq!(ShortcutError::InvalidShortcutFormat.message(), "Invalid shortcut format");
}

#[test]
fn unchanged_shortcut_needs_no_work() {
    let (c, a) = change("Ctrl+Q", "Ctrl+Q").step(ChangeEvent::Parsed(true));
    assert_eq!(a, ChangeAction::Finish(Ok(())));
    assert_eq!(c.stage(), ChangeStage::Finished);
}

#[test]
fn failed_registration_restores_the_old_shortcut() {
    let mut active: Option<String> = Some("Ctrl+Q".to_string());
    let mut persisted = "Ctrl+Q".to_string();
    let c = change("Ctrl+Q", "Alt+T");
    let (c, a) = c.step(ChangeEvent::Parsed(true));
    assert_eq!(a, ChangeAction::UnregisterAll);
    active = None;
    let (c, a) = c.step(ChangeEvent::Unregistered);
    assert_eq!(a, ChangeAction::Register("Alt+T".to_string()));
    let (c, a) = c.step(ChangeEvent::Registered(Err("already taken".to_string())));
    assert_eq!(a, ChangeAction::Register("Ctrl+Q".to_string()));
    assert_eq!(c.stage(), ChangeStage::Reverting);
    if let ChangeAction::Register(s) = a {
        active = Some(s);
    }
    let (c, a) = c.step(ChangeEvent::Registered(Ok(())));
    assert_eq!(
        a,
        ChangeAction::Finish(Err(ShortcutError::ShortcutRegistrationFailed(
            "already taken".to_string()
        )))
    );
    if let ChangeAction::Persist(s) = a {
        persisted = s;
    }
    assert_eq!(c.stage(), ChangeStage::Finished);
    assert_eq!(active, Some("Ctrl+Q".to_string()));
    assert_eq!(persisted, "Ctrl+Q");
}

#[test]
fn failed_persistence_is_reported() {
    let c = change("Ctrl+Q", "Alt+T");
    let (c, _) = c.step(ChangeEvent::Parsed(true));
    let (c, _) = c.step(ChangeEvent::Unregistered);
    let (c, _) = c.step(ChangeEvent::Registered(Ok(())));
    let (c, a) = c.step(ChangeEvent::Persisted(Err("disk full".to_string())));
    let e = ShortcutError::SettingsPersistenceFailed("disk full".to_string());
    assert_eq!(e.message(), "disk full");
    assert_eq!(a, ChangeAction::Finish(Err(e)));
    assert_eq!(c.stage(), ChangeStage::Finished);
}

#[test]
fn change_events_out_of_turn_are_ignored() {
    let c = change("Ctrl+Q", "Alt+T");
    let (c, a) = c.step(ChangeEvent::Registered(Ok(())));
    assert_eq!(a, ChangeAction::Ignore);
    assert_eq!(c.stage(), ChangeStage::Fresh);
    let (c, _) = c.step(ChangeEvent::Parsed(true));
    let (c, a) = c.step(ChangeEvent::Parsed(true));
    assert_eq!(a, ChangeAction::Ignore);
    assert_eq!(c.stage(), ChangeStage::Clearing);
}

#[test]
fn parses_as_the_hotkey_facility_does() {
    let q = parse_shortcut("Ctrl+Q").unwrap();
    assert_eq!(parse_shortcut("control+KeyQ"), Some(q));
    assert_eq!(parse_shortcut(" ctrl + q "), Some(q));
    assert_ne!(parse_shortcut("Ctrl+W"), Some(q));
    assert_ne!(parse_shortcut("Alt+Q"), Some(q));
    assert_ne!(parse_shortcut("Q"), Some(q));
    assert_eq!(parse_shortcut(""), None);
    assert_eq!(parse_shortcut("Ctrl+"), None);
    assert_eq!(parse_shortcut("Ctrl+Q+W"), None);
    assert_eq!(parse_shortcut("Ctrl+NoSuchKey"), None);
    assert_eq!(parse_shortcut("Ctrl+Shift"), None);
}

#[test]
fn descriptor_holds_modifiers_and_key() {
    let h = HotKey::new(Some(Modifiers::CONTROL | Modifiers::SHIFT), Code::KeyT);
    let d = parse_shortcut("Ctrl+Shift+T").unwrap();
    assert_eq!(d.modifiers, h.mods.bits());
    assert_eq!(d.key, h.key as u32);
}

#[test]
fn formatted_shortcut_parses_to_the_same() {
    for s in ["Ctrl+Q", "alt+shift+F1", "Super+Space", "CmdOrCtrl+Alt+KeyK", "F12", "shift+control+alt+meta+Digit0"] {
        let parsed = parse_shortcut(s);
        assert!(parsed.is_some());
        let text = HotKey::from_str(s).unwrap().into_string();
        assert_eq!(parse_shortcut(&text), parsed);
        let again = HotKey::from_str(&text).unwrap().into_string();
        assert_eq!(again, text);
    }
}

#[test]
fn dispatch_parses_the_configured_text() {
    let q = parse_shortcut("Ctrl+Q").unwrap();
    assert!(dispatches(true, q, "Ctrl+Q"));
    assert!(dispatches(true, q, "control+q"));
    assert!(!dispatches(false, q, "Ctrl+Q"));
    assert!(!dispatches(true, q, "Ctrl+W"));
    assert!(!dispatches(true, q, "nonsense+"));
}

#[test]
fn begin_parses_the_new_shortcut() {
    let (c, a) = ShortcutChange::begin("Ctrl+Q".to_string(), "Alt+T".to_string());
    assert_eq!(a, ChangeAction::UnregisterAll);
    assert_eq!(c.stage(), ChangeStage::Clearing);
    let (c, a) = ShortcutChange::begin("Ctrl+Q".to_string(), "Alt+".to_string());
    assert_eq!(a, ChangeAction::Finish(Err(ShortcutError::InvalidShortcutFormat)));
    assert_eq!(c.stage(), ChangeStage::Finished);
    let (c, a) = ShortcutChange::begin("Ctrl+Q".to_string(), "Ctrl+Q".to_string());
    assert_eq!(a, ChangeAction::Finish(Ok(())));
    assert_eq!(c.stage(), ChangeStage::Finished);
}
