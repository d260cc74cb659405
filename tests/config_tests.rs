use mouth_high::config::{after_attempt, HotkeyConfig, OutputMode, RecordingMode, SetupStep};
use mouth_high::history::{
    prune_history, record_history, remove_history_item, retention_cutoff, HistoryItem,
    HistoryRetention, UsageStats,
};
use mouth_high::output::{output_text, KeyMotion, OutputStep, SimKey};

fn config(mods: &[&str], key: &str) -> HotkeyConfig {
    HotkeyConfig { modifiers: mods.iter().map(|m| m.to_string()).collect(), key: key.to_string() }
}

#[test]
fn display_string_labels_modifiers_and_uppercases_key() {
    assert_eq!(config(&["ctrl", "shift"], "r").to_display_string(), "Ctrl + Shift + R");
    assert_eq!(config(&["cmd", "alt"], "space").to_display_string(), "Cmd + Alt + SPACE");
    assert_eq!(config(&["super"], "f5").to_display_string(), "Cmd + F5");
}

#[test]
fn display_string_keeps_unknown_modifiers_and_handles_none() {
    assert_eq!(config(&["hyper"], "a").to_display_string(), "hyper + A");
    assert_eq!(config(&[], "f5").to_display_string(), "F5");
}

#[test]
fn default_hotkey_is_ctrl_shift_r() {
    let d = HotkeyConfig::default_hotkey();
    assert_eq!(d.modifiers, vec!["ctrl".to_string(), "shift".to_string()]);
    assert_eq!(d.key, "r");
}

#[test]
fn fallback_hotkeys_in_order() {
    let f = HotkeyConfig::fallback_hotkeys();
    let labels: Vec<String> = f.iter().map(|c| c.to_display_string()).collect();
    assert_eq!(
        labels,
        vec!["Ctrl + Shift + R", "Cmd + Shift + R", "Alt + Shift + R", "F5", "Ctrl + R", "Cmd + R"]
    );
}

#[test]
fn mode_defaults() {
    assert_eq!(OutputMode::default(), OutputMode::Keyboard);
    assert_eq!(RecordingMode::default(), RecordingMode::Hold);
    assert_eq!(HistoryRetention::default(), HistoryRetention::Forever);
}

fn item(id: &str, ts: i64) -> HistoryItem {
    HistoryItem::new(id.to_string(), format!("text {}", id), ts, "2024-01-01".to_string())
}

#[test]
fn history_item_counts_characters() {
    let it = HistoryItem::new("1".to_string(), "héllo".to_string(), 5, "d".to_string());
    assert_eq!(it.char_count, 5);
}

#[test]
fn retention_cutoffs() {
    let now = 1_700_000_000;
    assert_eq!(retention_cutoff(HistoryRetention::SevenDays, now), Some(now - 604_800));
    assert_eq!(retention_cutoff(HistoryRetention::ThirtyDays, now), Some(now - 2_592_000));
    assert_eq!(retention_cutoff(HistoryRetention::NinetyDays, now), Some(now - 7_776_000));
    assert_eq!(retention_cutoff(HistoryRetention::Forever, now), None);
}

#[test]
fn prune_keeps_recent_in_order() {
    let now = 1_700_000_000;
    let h = vec![item("a", now), item("b", now - 8 * 86400), item("c", now - 7 * 86400)];
    let kept: Vec<String> =
        prune_history(h, HistoryRetention::SevenDays, now).into_iter().map(|i| i.id).collect();
    assert_eq!(kept, vec!["a", "c"]);
}

#[test]
fn prune_forever_keeps_all() {
    let h = vec![item("a", 0), item("b", 1)];
    assert_eq!(prune_history(h, HistoryRetention::Forever, 1_700_000_000).len(), 2);
}

#[test]
fn record_history_inserts_at_front_and_prunes() {
    let now = 1_700_000_000;
    let h = vec![item("old", now - 31 * 86400), item("mid", now - 86400)];
    let r = record_history(h, item("new", now), HistoryRetention::ThirtyDays, now);
    let ids: Vec<String> = r.into_iter().map(|i| i.id).collect();
    assert_eq!(ids, vec!["new", "mid"]);
}

#[test]
fn remove_history_item_by_id() {
    let h = vec![item("a", 1), item("b", 2), item("a", 3)];
    let ids: Vec<String> = remove_history_item(h, "a").into_iter().map(|i| i.id).collect();
    assert_eq!(ids, vec!["b"]);
}

#[test]
fn usage_stats_same_day_accumulates() {
    let s = UsageStats {
        total_characters: 10,
        total_transcriptions: 2,
        today_characters: 4,
        today_date: "2024-05-01".to_string(),
    };
    assert!(s.can_record(5));
    let r = s.record(5, "2024-05-01");
    assert_eq!(r.total_characters, 15);
    assert_eq!(r.total_transcriptions, 3);
    assert_eq!(r.today_characters, 9);
}

#[test]
fn usage_stats_new_day_restarts_daily_count() {
    let s = UsageStats {
        total_characters: 10,
        total_transcriptions: 2,
        today_characters: 4,
        today_date: "2024-05-01".to_string(),
    };
    let r = s.clone().record(3, "2024-05-02");
    assert_eq!(r.today_characters, 3);
    assert_eq!(r.today_date, "2024-05-02");
    assert_eq!(r.total_characters, 13);
    let v = s.for_day("2024-05-03");
    assert_eq!(v.today_characters, 0);
    assert_eq!(v.total_characters, 10);
}

#[test]
fn usage_stats_refuses_overflow() {
    let s = UsageStats { total_characters: u64::MAX - 1, ..Default::default() };
    assert!(!s.can_record(2));
    assert!(s.can_record(1));
}

fn describe(steps: &[OutputStep]) -> Vec<String> {
    steps
        .iter()
        .map(|s| match s {
            OutputStep::Pause { ms } => format!("pause {}", ms),
            OutputStep::Connect => "connect".to_string(),
            OutputStep::TypeText { text } => format!("type {}", text),
            OutputStep::SetClipboard { text } => format!("clip {}", text),
            OutputStep::Key { key, motion } => format!("{:?} {:?}", key, motion),
        })
        .collect()
}

#[test]
fn output_text_keyboard_plan() {
    let steps = output_text("hello", OutputMode::Keyboard);
    assert_eq!(describe(&steps), vec!["pause 100", "connect", "pause 50", "type hello"]);
}

#[test]
fn output_text_clipboard_plan() {
    let steps = output_text("hi", OutputMode::Clipboard);
    assert_eq!(
        describe(&steps),
        vec!["clip hi", "connect", "pause 100", "Meta Press", "Char('v') Click", "Meta Release"]
    );
    assert!(matches!(steps[4], OutputStep::Key { key: SimKey::Char('v'), motion: KeyMotion::Click }));
}

#[test]
fn fallback_search_steps() {
    assert_eq!(after_attempt(0, true, 6), SetupStep::Done);
    assert_eq!(after_attempt(0, false, 6), SetupStep::Next { attempt: 1 });
    assert_eq!(after_attempt(3, true, 6), SetupStep::PersistAndDone { fallback: 2 });
    assert_eq!(after_attempt(5, false, 6), SetupStep::Next { attempt: 6 });
    assert_eq!(after_attempt(6, false, 6), SetupStep::GiveUp);
    assert_eq!(after_attempt(0, false, 0), SetupStep::GiveUp);
}

#[test]
fn record_history_near_epoch_keeps_everything() {
    let h = vec![item("past", -1_000_000)];
    let r = record_history(h, item("new", 0), HistoryRetention::SevenDays, 0);
    let ids: Vec<String> = r.into_iter().map(|i| i.id).collect();
    assert_eq!(ids, vec!["new", "past"]);
    let pruned = prune_history(vec![item("past", -1_000_000)], HistoryRetention::SevenDays, 0);
    assert!(pruned.is_empty());
}
