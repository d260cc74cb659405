use mouth_high::config::{HotkeyConfig, RecordingMode};
use mouth_high::hotkey::{
    hotkey_action, key_code_of_name, modifier_set, BindingRegistry, HotkeyAction, HotkeyBinding,
    HotkeyError, KeyCode, KeyEdge, ModifierSet, RecordingSession, SessionError,
};

fn config(mods: &[&str], key: &str) -> HotkeyConfig {
    HotkeyConfig { modifiers: mods.iter().map(|m| m.to_string()).collect(), key: key.to_string() }
}

fn binding(mods: &[&str], key: &str) -> HotkeyBinding {
    HotkeyBinding::from_config(&config(mods, key)).unwrap()
}

#[test]
fn key_names() {
    assert_eq!(key_code_of_name("a"), Some(KeyCode::Letter('a')));
    assert_eq!(key_code_of_name("7"), Some(KeyCode::Digit(7)));
    assert_eq!(key_code_of_name("f1"), Some(KeyCode::Function(1)));
    assert_eq!(key_code_of_name("f12"), Some(KeyCode::Function(12)));
    assert_eq!(key_code_of_name("f13"), None);
    assert_eq!(key_code_of_name("f0"), None);
    assert_eq!(key_code_of_name("esc"), Some(KeyCode::Escape));
    assert_eq!(key_code_of_name("escape"), Some(KeyCode::Escape));
    assert_eq!(key_code_of_name("pagedown"), Some(KeyCode::PageDown));
    assert_eq!(key_code_of_name("left"), Some(KeyCode::ArrowLeft));
    assert_eq!(key_code_of_name("A"), None);
    assert_eq!(key_code_of_name(""), None);
}

#[test]
fn binding_from_config_lowercases_key() {
    let b = binding(&["ctrl", "shift"], "R");
    assert_eq!(b.key, KeyCode::Letter('r'));
    assert_eq!(b.modifiers, ModifierSet { control: true, shift: true, alt: false, super_key: false });
    assert_eq!(b.label, "Ctrl + Shift + R");
    assert_eq!(binding(&[], "F5").key, KeyCode::Function(5));
    assert_eq!(binding(&[], "SPACE").key, KeyCode::Space);
}

#[test]
fn binding_from_config_rejects_unknown_key() {
    let e = HotkeyBinding::from_config(&config(&["ctrl"], "capslock")).unwrap_err();
    match &e {
        HotkeyError::UnsupportedKey { key } => assert_eq!(key, "capslock"),
    }
    assert_eq!(e.message(), "Unsupported key: capslock");
}

#[test]
fn modifiers_ignore_unknown_and_merge_duplicates() {
    let names: Vec<String> = ["cmd", "hyper", "super", "alt"].iter().map(|s| s.to_string()).collect();
    assert_eq!(
        modifier_set(&names),
        ModifierSet { control: false, shift: false, alt: true, super_key: true }
    );
    assert_eq!(
        modifier_set(&vec!["Ctrl".to_string()]),
        ModifierSet { control: false, shift: false, alt: false, super_key: false }
    );
}

#[test]
fn registry_generations() {
    let mut r = BindingRegistry::new();
    assert_eq!(r.generation(), 0);
    assert!(r.current().is_none());
    assert!(!r.is_current(0));
    let g = r.install(binding(&["ctrl"], "r"));
    assert_eq!(g, 1);
    assert!(r.is_current(1));
    assert_eq!(r.current().unwrap().label, "Ctrl + R");
    r.clear();
    assert!(!r.is_current(1));
    assert_eq!(r.generation(), 1);
}

#[test]
fn stale_handler_is_ignored_after_replacement() {
    let mut r = BindingRegistry::new();
    let session = RecordingSession::new(RecordingMode::Hold);
    let old = r.install(binding(&["ctrl", "shift"], "r"));
    assert_eq!(hotkey_action(&r, &session, old, KeyEdge::Pressed), HotkeyAction::Start);
    r.clear();
    assert_eq!(hotkey_action(&r, &session, old, KeyEdge::Pressed), HotkeyAction::Ignore);
    let new = r.install(binding(&["ctrl", "shift"], "r"));
    assert_eq!(hotkey_action(&r, &session, old, KeyEdge::Pressed), HotkeyAction::Ignore);
    assert_eq!(hotkey_action(&r, &session, old, KeyEdge::Released), HotkeyAction::Ignore);
    assert_eq!(hotkey_action(&r, &session, new, KeyEdge::Pressed), HotkeyAction::Start);
}

#[test]
fn hold_mode_transitions() {
    let mut s = RecordingSession::new(RecordingMode::Hold);
    assert_eq!(s.on_key(KeyEdge::Released), HotkeyAction::Ignore);
    assert_eq!(s.on_key(KeyEdge::Pressed), HotkeyAction::Start);
    assert!(s.begin(Some("com.example.editor".to_string())));
    assert!(s.active());
    assert_eq!(s.saved_focus(), None);
    assert_eq!(s.on_key(KeyEdge::Pressed), HotkeyAction::Ignore);
    assert!(!s.begin(None));
    assert_eq!(s.on_key(KeyEdge::Released), HotkeyAction::Stop);
    let plan = s.finish(Some("/tmp/a.wav".to_string())).unwrap();
    assert_eq!(plan.restore_focus, None);
    let job = plan.job.unwrap();
    assert_eq!(job.audio_path, "/tmp/a.wav");
    assert_eq!(job.refocus, None);
    assert!(!s.active());
    assert!(s.finish(None).is_none());
}

#[test]
fn toggle_mode_ignores_release() {
    let mut s = RecordingSession::new(RecordingMode::Toggle);
    assert_eq!(s.on_key(KeyEdge::Released), HotkeyAction::Ignore);
    assert_eq!(s.on_key(KeyEdge::Pressed), HotkeyAction::Start);
    s.begin(None);
    assert_eq!(s.on_key(KeyEdge::Released), HotkeyAction::Ignore);
    assert_eq!(s.on_key(KeyEdge::Pressed), HotkeyAction::Stop);
}

#[test]
fn stop_without_artifact_still_ends_session() {
    let mut s = RecordingSession::new(RecordingMode::Toggle);
    s.begin(Some("com.example.mail".to_string()));
    let plan = s.finish(None).unwrap();
    assert_eq!(plan.restore_focus.as_deref(), Some("com.example.mail"));
    assert!(plan.job.is_none());
    assert!(!s.active());
    assert_eq!(s.saved_focus(), None);
}

#[test]
fn manual_stop_requires_recording() {
    let mut s = RecordingSession::new(RecordingMode::Hold);
    assert_eq!(s.check_stoppable(), Err(SessionError::NotRecording));
    assert_eq!(SessionError::NotRecording.message(), "Not recording");
    s.begin(None);
    assert_eq!(s.check_stoppable(), Ok(()));
}

#[test]
fn mode_change_keeps_session() {
    let mut s = RecordingSession::new(RecordingMode::Hold);
    s.begin(None);
    s.set_mode(RecordingMode::Toggle);
    assert_eq!(s.mode(), RecordingMode::Toggle);
    assert!(s.active());
    assert_eq!(s.on_key(KeyEdge::Pressed), HotkeyAction::Stop);
}

#[test]
fn hold_stop_never_restores_focus_after_mode_switch() {
    let mut s = RecordingSession::new(RecordingMode::Toggle);
    s.begin(Some("com.example.editor".to_string()));
    s.set_mode(RecordingMode::Hold);
    let plan = s.finish(Some("/tmp/b.wav".to_string())).unwrap();
    assert_eq!(plan.restore_focus, None);
    assert_eq!(plan.job.unwrap().refocus, None);
    assert_eq!(s.saved_focus(), None);
}
