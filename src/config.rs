//! User-facing settings: output and recording modes, and the hotkey as it is
//! stored in the configuration file.
use vstd::prelude::*;

use crate::text::{join_with, joined, same_text, to_upper, uppercase_of, views_of};

verus! {

/// How a transcript reaches the focused application.
#[derive(Clone, Copy, Debug, PartialEq, Eq, Structural)]
pub enum OutputMode {
    /// Simulated typing.
    Keyboard,
    /// Copy to the clipboard, then simulate a paste.
    Clipboard,
}

impl Default for OutputMode {
    fn default() -> (r: Self)
        ensures
            r == OutputMode::Keyboard,
    {
        OutputMode::Keyboard
    }
}

/// How hotkey presses and releases map onto recording sessions.
#[derive(Clone, Copy, Debug, PartialEq, Eq, Structural)]
pub enum RecordingMode {
    /// Record while the hotkey is held down.
    Hold,
    /// One press starts recording, the next press stops it.
    Toggle,
}

impl Default for RecordingMode {
    fn default() -> (r: Self)
        ensures
            r == RecordingMode::Hold,
    {
        RecordingMode::Hold
    }
}

/// A hotkey as persisted: modifier names (`ctrl`, `shift`, `alt`, `cmd`,
/// `super`) in the user's order, and the name of the key.
#[derive(Clone, Debug, Default)]
pub struct HotkeyConfig {
    pub modifiers: Vec<String>,
    pub key: String,
}

/// The display label of one modifier name; unknown names are shown as written.
pub open spec fn modifier_label(m: Seq<char>) -> Seq<char> {
    if m == "ctrl"@ {
        "Ctrl"@
    } else if m == "shift"@ {
        "Shift"@
    } else if m == "alt"@ {
        "Alt"@
    } else if m == "cmd"@ || m == "super"@ {
        "Cmd"@
    } else {
        m
    }
}

/// The display string of a hotkey: modifier labels, then the upper-cased key,
/// joined with `" + "`.
pub open spec fn display_string(modifiers: Seq<Seq<char>>, key: Seq<char>) -> Seq<char> {
    joined(modifiers.map_values(|m: Seq<char>| modifier_label(m)).push(uppercase_of(key)), " + "@)
}

fn modifier_label_of(m: &str) -> (r: String)
    ensures
        r@ == modifier_label(m@),
{
    if same_text(m, "ctrl") {
        "Ctrl".to_string()
    } else if same_text(m, "shift") {
        "Shift".to_string()
    } else if same_text(m, "alt") {
        "Alt".to_string()
    } else if same_text(m, "cmd") || same_text(m, "super") {
        "Cmd".to_string()
    } else {
        m.to_string()
    }
}

impl HotkeyConfig {
    pub open spec fn modifiers_view(&self) -> Seq<Seq<char>> {
        views_of(self.modifiers@)
    }

    /// The human-readable label of this hotkey, such as `Ctrl + Shift + R`.
    pub fn to_display_string(&self) -> (r: String)
        ensures
            r@ == display_string(self.modifiers_view(), self.key@),
    {
        let mut parts: Vec<String> = Vec::new();
        let mut i: usize = 0;
        while i < self.modifiers.len()
            invariant
                i <= self.modifiers.len(),
                parts.len() == i,
                forall|j: int| 0 <= j < i ==> #[trigger] parts@[j]@ == modifier_label(self.modifiers@[j]@),
            decreases self.modifiers.len() - i,
        {
            let label = modifier_label_of(self.modifiers[i].as_str());
            parts.push(label);
            i = i + 1;
        }
        parts.push(to_upper(self.key.as_str()));
        assert(views_of(parts@) =~= self.modifiers_view().map_values(
            |m: Seq<char>| modifier_label(m),
        ).push(uppercase_of(self.key@)));
        join_with(&parts, " + ")
    }
}

/// A hotkey from its modifier names and key name.
fn hotkey(modifiers: &[&str], key: &str) -> (r: HotkeyConfig)
    ensures
        views_of(r.modifiers@) == modifiers@.map_values(|m: &str| m@),
        r.key@ == key@,
{
    let mut mods: Vec<String> = Vec::new();
    let mut i: usize = 0;
    while i < modifiers.len()
        invariant
            i <= modifiers.len(),
            mods.len() == i,
            forall|j: int| 0 <= j < i ==> #[trigger] mods@[j]@ == modifiers@[j]@,
        decreases modifiers.len() - i,
    {
        mods.push(modifiers[i].to_string());
        i = i + 1;
    }
    assert(views_of(mods@) =~= modifiers@.map_values(|m: &str| m@));
    HotkeyConfig { modifiers: mods, key: key.to_string() }
}

/// The hotkey used when none is configured: Ctrl+Shift+R.
pub open spec fn is_default_hotkey(c: HotkeyConfig) -> bool {
    views_of(c.modifiers@) == seq!["ctrl"@, "shift"@] && c.key@ == "r"@
}

/// The bindings tried in order when the configured one cannot be registered.
pub open spec fn fallback_hotkey_views() -> Seq<(Seq<Seq<char>>, Seq<char>)> {
    seq![
        (seq!["ctrl"@, "shift"@], "r"@),
        (seq!["cmd"@, "shift"@], "r"@),
        (seq!["alt"@, "shift"@], "r"@),
        (Seq::<Seq<char>>::empty(), "f5"@),
        (seq!["ctrl"@], "r"@),
        (seq!["cmd"@], "r"@),
    ]
}

impl HotkeyConfig {
    /// The hotkey used when none is configured: Ctrl+Shift+R.
    pub fn default_hotkey() -> (r: HotkeyConfig)
        ensures
            is_default_hotkey(r),
    {
        let r = hotkey(&["ctrl", "shift"], "r");
        assert(views_of(r.modifiers@) =~= seq!["ctrl"@, "shift"@]);
        r
    }

    /// The alternatives tried, in order, when the configured hotkey cannot be
    /// registered.
    pub fn fallback_hotkeys() -> (r: Vec<HotkeyConfig>)
        ensures
            r@.map_values(|c: HotkeyConfig| (views_of(c.modifiers@), c.key@))
                == fallback_hotkey_views(),
    {
        let mut r: Vec<HotkeyConfig> = Vec::new();
        let a = hotkey(&["ctrl", "shift"], "r");
        let b = hotkey(&["cmd", "shift"], "r");
        let c = hotkey(&["alt", "shift"], "r");
        let d = hotkey(&[], "f5");
        let e = hotkey(&["ctrl"], "r");
        let f = hotkey(&["cmd"], "r");
        assert(views_of(a.modifiers@) =~= seq!["ctrl"@, "shift"@]);
        assert(views_of(b.modifiers@) =~= seq!["cmd"@, "shift"@]);
        assert(views_of(c.modifiers@) =~= seq!["alt"@, "shift"@]);
        assert(views_of(d.modifiers@) =~= Seq::<Seq<char>>::empty());
        assert(views_of(e.modifiers@) =~= seq!["ctrl"@]);
        assert(views_of(f.modifiers@) =~= seq!["cmd"@]);
        r.push(a);
        r.push(b);
        r.push(c);
        r.push(d);
        r.push(e);
        r.push(f);
        assert(r@.map_values(|c: HotkeyConfig| (views_of(c.modifiers@), c.key@))
            =~= fallback_hotkey_views());
        r
    }
}

/// What registering the hotkey does next. Attempt 0 is the configured hotkey;
/// attempt `k` is fallback `k - 1`.
#[derive(Clone, Copy, Debug, PartialEq, Eq, Structural)]
pub enum SetupStep {
    /// The configured hotkey is registered.
    Done,
    /// A fallback is registered; it becomes the configured hotkey.
    PersistAndDone { fallback: usize },
    /// Try this attempt next.
    Next { attempt: usize },
    /// Every candidate was refused; the user must be told.
    GiveUp,
}

/// Decides the step after an attempt that `registered` or not, with
/// `fallbacks` alternatives in all.
pub fn after_attempt(attempt: usize, registered: bool, fallbacks: usize) -> (r: SetupStep)
    requires
        attempt <= fallbacks,
    ensures
        registered && attempt == 0 ==> r == SetupStep::Done,
        registered && attempt > 0 ==> r == (SetupStep::PersistAndDone { fallback: (attempt - 1) as usize }),
        !registered && attempt < fallbacks ==> r == (SetupStep::Next { attempt: (attempt + 1) as usize }),
        !registered && attempt == fallbacks ==> r == SetupStep::GiveUp,
{
    if registered {
        if attempt == 0 {
            SetupStep::Done
        } else {
            SetupStep::PersistAndDone { fallback: attempt - 1 }
        }
    } else if attempt < fallbacks {
        SetupStep::Next { attempt: attempt + 1 }
    } else {
        SetupStep::GiveUp
    }
}

} // verus!
