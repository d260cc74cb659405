//! The hotkey state machine: parsing a configured hotkey into a binding,
//! tracking which binding is current, and turning key events into recording
//! actions and the focus choreography around them.
use vstd::prelude::*;

use crate::config::{display_string, HotkeyConfig, RecordingMode};
use crate::sidecar::{SidecarError, TranscriptResult};
use crate::text::{lowercase_of, same_text, to_lower, views_of};

verus! {

/// A physical key a hotkey can be bound to.
#[derive(Clone, Copy, Debug, PartialEq, Eq, Structural)]
pub enum KeyCode {
    /// A letter key, named by its lowercase ASCII letter.
    Letter(char),
    /// A digit key of the main row, 0 to 9.
    Digit(u8),
    /// A function key, F1 to F12.
    Function(u8),
    Space,
    Enter,
    Tab,
    Escape,
    Backspace,
    Delete,
    Home,
    End,
    PageUp,
    PageDown,
    ArrowUp,
    ArrowDown,
    ArrowLeft,
    ArrowRight,
}

/// The modifier keys held with a hotkey.
#[derive(Clone, Copy, Debug, PartialEq, Eq, Structural)]
pub struct ModifierSet {
    pub control: bool,
    pub shift: bool,
    pub alt: bool,
    pub super_key: bool,
}

pub open spec fn is_ascii_lower(c: char) -> bool {
    'a' as u32 <= c as u32 <= 'z' as u32
}

pub open spec fn is_ascii_digit(c: char) -> bool {
    '0' as u32 <= c as u32 <= '9' as u32
}

pub open spec fn digit_value(c: char) -> u8 {
    (c as u32 - '0' as u32) as u8
}

/// The function key named `f1` to `f12`, if `n` is such a name.
pub open spec fn function_key_number(n: Seq<char>) -> Option<u8> {
    if n.len() == 2 && n[0] == 'f' && '1' as u32 <= n[1] as u32 <= '9' as u32 {
        Some(digit_value(n[1]))
    } else if n.len() == 3 && n[0] == 'f' && n[1] == '1' && '0' as u32 <= n[2] as u32
        <= '2' as u32 {
        Some((10 + digit_value(n[2])) as u8)
    } else {
        None
    }
}

/// The key that a lowercase key name denotes.
pub open spec fn key_of_name(n: Seq<char>) -> Option<KeyCode> {
    if n.len() == 1 && is_ascii_lower(n[0]) {
        Some(KeyCode::Letter(n[0]))
    } else if n.len() == 1 && is_ascii_digit(n[0]) {
        Some(KeyCode::Digit(digit_value(n[0])))
    } else if function_key_number(n) is Some {
        Some(KeyCode::Function(function_key_number(n)->Some_0))
    } else if n == "space"@ {
        Some(KeyCode::Space)
    } else if n == "enter"@ {
        Some(KeyCode::Enter)
    } else if n == "tab"@ {
        Some(KeyCode::Tab)
    } else if n == "escape"@ || n == "esc"@ {
        Some(KeyCode::Escape)
    } else if n == "backspace"@ {
        Some(KeyCode::Backspace)
    } else if n == "delete"@ {
        Some(KeyCode::Delete)
    } else if n == "home"@ {
        Some(KeyCode::Home)
    } else if n == "end"@ {
        Some(KeyCode::End)
    } else if n == "pageup"@ {
        Some(KeyCode::PageUp)
    } else if n == "pagedown"@ {
        Some(KeyCode::PageDown)
    } else if n == "up"@ {
        Some(KeyCode::ArrowUp)
    } else if n == "down"@ {
        Some(KeyCode::ArrowDown)
    } else if n == "left"@ {
        Some(KeyCode::ArrowLeft)
    } else if n == "right"@ {
        Some(KeyCode::ArrowRight)
    } else {
        None
    }
}

/// The modifiers a list of modifier names selects; unknown names select none.
pub open spec fn modifiers_of(names: Seq<Seq<char>>) -> ModifierSet {
    ModifierSet {
        control: names.contains("ctrl"@),
        shift: names.contains("shift"@),
        alt: names.contains("alt"@),
        super_key: names.contains("cmd"@) || names.contains("super"@),
    }
}

fn function_key_of(n: &str) -> (r: Option<u8>)
    ensures
        r == function_key_number(n@),
{
    let len = n.unicode_len();
    if len == 2 || len == 3 {
        if n.get_char(0) != 'f' {
            return None;
        }
        let c1 = n.get_char(1);
        if len == 2 {
            if '1' <= c1 && c1 <= '9' {
                return Some((c1 as u32 - '0' as u32) as u8);
            }
            return None;
        }
        let c2 = n.get_char(2);
        if c1 == '1' && '0' <= c2 && c2 <= '2' {
            return Some((10 + (c2 as u32 - '0' as u32)) as u8);
        }
    }
    None
}

/// The key a lowercase key name denotes, if any.
pub fn key_code_of_name(n: &str) -> (r: Option<KeyCode>)
    ensures
        r == key_of_name(n@),
{
    let len = n.unicode_len();
    if len == 1 {
        let c = n.get_char(0);
        if 'a' <= c && c <= 'z' {
            return Some(KeyCode::Letter(c));
        }
        if '0' <= c && c <= '9' {
            return Some(KeyCode::Digit((c as u32 - '0' as u32) as u8));
        }
    }
    if let Some(f) = function_key_of(n) {
        return Some(KeyCode::Function(f));
    }
    if same_text(n, "space") {
        Some(KeyCode::Space)
    } else if same_text(n, "enter") {
        Some(KeyCode::Enter)
    } else if same_text(n, "tab") {
        Some(KeyCode::Tab)
    } else if same_text(n, "escape") || same_text(n, "esc") {
        Some(KeyCode::Escape)
    } else if same_text(n, "backspace") {
        Some(KeyCode::Backspace)
    } else if same_text(n, "delete") {
        Some(KeyCode::Delete)
    } else if same_text(n, "home") {
        Some(KeyCode::Home)
    } else if same_text(n, "end") {
        Some(KeyCode::End)
    } else if same_text(n, "pageup") {
        Some(KeyCode::PageUp)
    } else if same_text(n, "pagedown") {
        Some(KeyCode::PageDown)
    } else if same_text(n, "up") {
        Some(KeyCode::ArrowUp)
    } else if same_text(n, "down") {
        Some(KeyCode::ArrowDown)
    } else if same_text(n, "left") {
        Some(KeyCode::ArrowLeft)
    } else if same_text(n, "right") {
        Some(KeyCode::ArrowRight)
    } else {
        None
    }
}

/// The modifiers selected by a list of modifier names.
pub fn modifier_set(names: &Vec<String>) -> (r: ModifierSet)
    ensures
        r == modifiers_of(views_of(names@)),
{
    let ghost v = views_of(names@);
    let mut set = ModifierSet { control: false, shift: false, alt: false, super_key: false };
    let mut i: usize = 0;
    while i < names.len()
        invariant
            i <= names.len(),
            v == views_of(names@),
            set == modifiers_of(v.subrange(0, i as int)),
        decreases names.len() - i,
    {
        let m = names[i].as_str();
        set.control = set.control || same_text(m, "ctrl");
        set.shift = set.shift || same_text(m, "shift");
        set.alt = set.alt || same_text(m, "alt");
        set.super_key = set.super_key || same_text(m, "cmd") || same_text(m, "super");
        proof {
            assert(v[i as int] == m@);
            let pre = v.subrange(0, i as int);
            let post = v.subrange(0, i + 1);
            assert(post =~= pre.push(v[i as int]));
            assert forall|s: Seq<char>| post.contains(s) <==> (pre.contains(s) || s == v[i as int]) by {
                if post.contains(s) {
                    let k = choose|k: int| 0 <= k < post.len() && post[k] == s;
                    if k < i {
                        assert(pre[k] == s);
                    }
                }
                if pre.contains(s) {
                    let k = choose|k: int| 0 <= k < pre.len() && pre[k] == s;
                    assert(post[k] == s);
                }
                if s == v[i as int] {
                    assert(post[i as int] == s);
                }
            }
        }
        i = i + 1;
    }
    assert(v.subrange(0, names.len() as int) =~= v);
    set
}

/// A hotkey in registrable form, with its display label.
#[derive(Clone, Debug)]
pub struct HotkeyBinding {
    pub modifiers: ModifierSet,
    pub key: KeyCode,
    pub label: String,
}

/// Why a configured hotkey cannot become a binding.
#[derive(Clone, Debug)]
pub enum HotkeyError {
    /// The key name denotes no supported key.
    UnsupportedKey { key: String },
}

impl HotkeyError {
    /// A sentence for logs and user notifications.
    pub fn message(&self) -> (r: String)
        ensures
            self matches HotkeyError::UnsupportedKey { key } && r@ == "Unsupported key: "@ + key@,
    {
        match self {
            HotkeyError::UnsupportedKey { key } => {
                let mut m = "Unsupported key: ".to_string();
                m.append(key.as_str());
                m
            },
        }
    }
}

impl HotkeyBinding {
    /// Parses a configured hotkey. The key name is matched case-insensitively;
    /// modifier names are matched exactly and unknown ones are ignored.
    pub fn from_config(config: &HotkeyConfig) -> (r: Result<HotkeyBinding, HotkeyError>)
        ensures
            key_of_name(lowercase_of(config.key@)) is None ==> (r matches Err(
                HotkeyError::UnsupportedKey { key },
            ) && key@ == config.key@),
            key_of_name(lowercase_of(config.key@)) matches Some(k) ==> (r matches Ok(b) && b.key
                == k && b.modifiers == modifiers_of(config.modifiers_view()) && b.label@
                == display_string(config.modifiers_view(), config.key@)),
    {
        let lower = to_lower(config.key.as_str());
        match key_code_of_name(lower.as_str()) {
            None => Err(HotkeyError::UnsupportedKey { key: config.key.clone() }),
            Some(key) => Ok(
                HotkeyBinding {
                    modifiers: modifier_set(&config.modifiers),
                    key,
                    label: config.to_display_string(),
                },
            ),
        }
    }
}

/// Which binding is current. Each installed binding gets a fresh generation;
/// a handler registered for an earlier generation is stale.
pub struct BindingRegistry {
    generation: u64,
    current: Option<HotkeyBinding>,
}

impl BindingRegistry {
    pub closed spec fn generation_spec(&self) -> u64 {
        self.generation
    }

    pub closed spec fn has_binding(&self) -> bool {
        self.current is Some
    }

    /// Whether a handler of generation `g` belongs to the current binding.
    pub open spec fn is_current_spec(&self, g: u64) -> bool {
        self.has_binding() && g == self.generation_spec()
    }

    /// A registry with no binding.
    pub fn new() -> (r: Self)
        ensures
            r.generation_spec() == 0,
            !r.has_binding(),
    {
        BindingRegistry { generation: 0, current: None }
    }

    /// The generation of the most recently installed binding.
    pub fn generation(&self) -> (r: u64)
        ensures
            r == self.generation_spec(),
    {
        self.generation
    }

    /// Whether more bindings can be installed.
    pub fn can_install(&self) -> (r: bool)
        ensures
            r == (self.generation_spec() < u64::MAX),
    {
        self.generation < u64::MAX
    }

    /// Makes `binding` the current one and returns the generation its
    /// handler must carry.
    pub fn install(&mut self, binding: HotkeyBinding) -> (g: u64)
        requires
            old(self).generation_spec() < u64::MAX,
        ensures
            g == old(self).generation_spec() + 1,
            final(self).generation_spec() == g,
            final(self).has_binding(),
            final(self).current_binding() == Some(binding),
    {
        self.generation = self.generation + 1;
        self.current = Some(binding);
        self.generation
    }

    /// Drops the current binding, so that every handler is stale.
    pub fn clear(&mut self)
        ensures
            final(self).generation_spec() == old(self).generation_spec(),
            !final(self).has_binding(),
    {
        self.current = None;
    }

    pub closed spec fn current_binding(&self) -> Option<HotkeyBinding> {
        self.current
    }

    /// The current binding, if any.
    pub fn current(&self) -> (r: Option<&HotkeyBinding>)
        ensures
            r matches Some(b) ==> self.current_binding() == Some(*b),
            r is None <==> !self.has_binding(),
    {
        match &self.current {
            Some(b) => Some(b),
            None => None,
        }
    }

    /// Whether a handler of generation `g` may act.
    pub fn is_current(&self, g: u64) -> (r: bool)
        ensures
            r == self.is_current_spec(g),
    {
        self.current.is_some() && g == self.generation
    }
}

/// A hotkey event edge.
#[derive(Clone, Copy, Debug, PartialEq, Eq, Structural)]
pub enum KeyEdge {
    Pressed,
    Released,
}

/// What a hotkey event asks of the recording session.
#[derive(Clone, Copy, Debug, PartialEq, Eq, Structural)]
pub enum HotkeyAction {
    Start,
    Stop,
    Ignore,
}

/// The action for an edge in a mode, given whether a recording is active.
pub open spec fn action_for(mode: RecordingMode, active: bool, edge: KeyEdge) -> HotkeyAction {
    match (mode, edge) {
        (RecordingMode::Hold, KeyEdge::Pressed) => if active {
            HotkeyAction::Ignore
        } else {
            HotkeyAction::Start
        },
        (RecordingMode::Hold, KeyEdge::Released) => if active {
            HotkeyAction::Stop
        } else {
            HotkeyAction::Ignore
        },
        (RecordingMode::Toggle, KeyEdge::Pressed) => if active {
            HotkeyAction::Stop
        } else {
            HotkeyAction::Start
        },
        (RecordingMode::Toggle, KeyEdge::Released) => HotkeyAction::Ignore,
    }
}

/// Why a session request was refused.
#[derive(Clone, Copy, Debug, PartialEq, Eq, Structural)]
pub enum SessionError {
    NotRecording,
}

impl SessionError {
    /// A sentence for logs and user notifications.
    pub fn message(&self) -> (r: String)
        ensures
            r@ == "Not recording"@,
    {
        match self {
            SessionError::NotRecording => "Not recording".to_string(),
        }
    }
}

/// The work left after a recording stopped with an audio file: transcribe it,
/// then act on the result.
#[derive(Clone, Debug)]
pub struct ProcessingJob {
    pub audio_path: String,
    /// The application to give focus back to once the transcript is ready.
    pub refocus: Option<String>,
}

/// What a stopped recording asks of the surroundings, in order: hide the
/// recording indicator, give focus back, then run the job, if any.
#[derive(Clone, Debug)]
pub struct StopPlan {
    pub restore_focus: Option<String>,
    pub job: Option<ProcessingJob>,
}

/// What a finished transcription asks of the surroundings. The audio file is
/// always discarded; the transcript, when there is one, is counted, kept in
/// the history and output after focus is given back.
#[derive(Clone, Debug)]
pub struct Completion {
    pub transcript: Option<TranscriptResult>,
    pub refocus: Option<String>,
    pub failure: Option<SidecarError>,
    pub discard: String,
}

impl ProcessingJob {
    /// Decides what follows a transcription attempt.
    pub fn complete(self, outcome: Result<TranscriptResult, SidecarError>) -> (r: Completion)
        ensures
            r.discard@ == self.audio_path@,
            outcome is Ok ==> r.transcript == Some(outcome->Ok_0) && r.refocus == self.refocus
                && r.failure is None,
            outcome is Err ==> r.transcript is None && r.refocus is None && r.failure == Some(
                outcome->Err_0,
            ),
    {
        match outcome {
            Ok(t) => Completion {
                transcript: Some(t),
                refocus: self.refocus,
                failure: None,
                discard: self.audio_path,
            },
            Err(e) => Completion {
                transcript: None,
                refocus: None,
                failure: Some(e),
                discard: self.audio_path,
            },
        }
    }
}

/// The job a stop plan carries for an audio file, if one was produced.
pub open spec fn plan_job_matches(
    job: Option<ProcessingJob>,
    artifact: Option<String>,
    focus: Option<String>,
) -> bool {
    match artifact {
        None => job is None,
        Some(p) => job matches Some(j) && j.audio_path == p && j.refocus == focus,
    }
}

/// The application a stop gives focus back to: the saved one in toggle mode,
/// none in hold mode.
pub open spec fn focus_to_restore(session: RecordingSession) -> Option<String> {
    match session.mode_spec() {
        RecordingMode::Toggle => session.saved_focus_spec(),
        RecordingMode::Hold => None,
    }
}

/// Whether a recording is under way, in which mode sessions run, and the
/// application that had focus when a toggle session began.
pub struct RecordingSession {
    active: bool,
    mode: RecordingMode,
    saved_focus: Option<String>,
}

impl RecordingSession {
    pub closed spec fn is_active(&self) -> bool {
        self.active
    }

    pub closed spec fn mode_spec(&self) -> RecordingMode {
        self.mode
    }

    pub closed spec fn saved_focus_spec(&self) -> Option<String> {
        self.saved_focus
    }

    /// An idle session in `mode`.
    pub fn new(mode: RecordingMode) -> (r: Self)
        ensures
            !r.is_active(),
            r.mode_spec() == mode,
            r.saved_focus_spec() is None,
    {
        RecordingSession { active: false, mode, saved_focus: None }
    }

    pub fn active(&self) -> (r: bool)
        ensures
            r == self.is_active(),
    {
        self.active
    }

    pub fn mode(&self) -> (r: RecordingMode)
        ensures
            r == self.mode_spec(),
    {
        self.mode
    }

    /// The application saved when the current toggle session began.
    pub fn saved_focus(&self) -> (r: Option<String>)
        ensures
            r == self.saved_focus_spec(),
    {
        match &self.saved_focus {
            Some(s) => Some(s.clone()),
            None => None,
        }
    }

    /// Changes the mode; a session under way keeps running.
    pub fn set_mode(&mut self, mode: RecordingMode)
        ensures
            final(self).mode_spec() == mode,
            final(self).is_active() == old(self).is_active(),
            final(self).saved_focus_spec() == old(self).saved_focus_spec(),
    {
        self.mode = mode;
    }

    /// The action a hotkey edge asks for.
    pub fn on_key(&self, edge: KeyEdge) -> (r: HotkeyAction)
        ensures
            r == action_for(self.mode_spec(), self.is_active(), edge),
    {
        match (self.mode, edge) {
            (RecordingMode::Hold, KeyEdge::Pressed) => if self.active {
                HotkeyAction::Ignore
            } else {
                HotkeyAction::Start
            },
            (RecordingMode::Hold, KeyEdge::Released) => if self.active {
                HotkeyAction::Stop
            } else {
                HotkeyAction::Ignore
            },
            (RecordingMode::Toggle, KeyEdge::Pressed) => if self.active {
                HotkeyAction::Stop
            } else {
                HotkeyAction::Start
            },
            (RecordingMode::Toggle, KeyEdge::Released) => HotkeyAction::Ignore,
        }
    }

    /// Marks a recording as begun once capture has started. A session already
    /// under way is left alone and `false` is returned. A toggle session keeps
    /// `frontmost`, the application that had focus, to give focus back later.
    pub fn begin(&mut self, frontmost: Option<String>) -> (started: bool)
        ensures
            started == !old(self).is_active(),
            final(self).is_active(),
            final(self).mode_spec() == old(self).mode_spec(),
            started ==> final(self).saved_focus_spec() == (if old(self).mode_spec()
                == RecordingMode::Toggle {
                frontmost
            } else {
                None
            }),
            !started ==> final(self).saved_focus_spec() == old(self).saved_focus_spec(),
    {
        if self.active {
            return false;
        }
        self.active = true;
        self.saved_focus = match self.mode {
            RecordingMode::Toggle => frontmost,
            RecordingMode::Hold => None,
        };
        true
    }

    /// Ends the recording under way. `artifact` is the audio file capture
    /// produced, if it produced one. In toggle mode the saved focus is handed
    /// to the plan, both for right away and for after transcription; in hold
    /// mode focus is never restored. The saved focus is cleared either way.
    /// With no recording under way nothing changes and `None` is returned.
    pub fn finish(&mut self, artifact: Option<String>) -> (r: Option<StopPlan>)
        ensures
            !final(self).is_active(),
            final(self).mode_spec() == old(self).mode_spec(),
            !old(self).is_active() ==> r is None && final(self).saved_focus_spec()
                == old(self).saved_focus_spec(),
            old(self).is_active() ==> final(self).saved_focus_spec() is None,
            old(self).is_active() ==> (r matches Some(plan) && plan.restore_focus == focus_to_restore(
                *old(self),
            ) && plan_job_matches(plan.job, artifact, focus_to_restore(*old(self)))),
    {
        if !self.active {
            return None;
        }
        self.active = false;
        let saved = self.saved_focus.take();
        let focus = match self.mode {
            RecordingMode::Toggle => saved,
            RecordingMode::Hold => None,
        };
        let job = match artifact {
            Some(p) => Some(
                ProcessingJob {
                    audio_path: p,
                    refocus: match &focus {
                        Some(f) => Some(f.clone()),
                        None => None,
                    },
                },
            ),
            None => None,
        };
        Some(StopPlan { restore_focus: focus, job })
    }

    /// A stop asked for from outside the hotkey path is allowed only while
    /// recording.
    pub fn check_stoppable(&self) -> (r: Result<(), SessionError>)
        ensures
            r is Ok <==> self.is_active(),
            r is Err ==> r == Err::<(), SessionError>(SessionError::NotRecording),
    {
        if self.active {
            Ok(())
        } else {
            Err(SessionError::NotRecording)
        }
    }
}

/// The action a handler of generation `g` takes on `edge`: none if its
/// binding is no longer current, else what the session asks for.
pub open spec fn handler_action(
    registry: BindingRegistry,
    session: RecordingSession,
    g: u64,
    edge: KeyEdge,
) -> HotkeyAction {
    if registry.is_current_spec(g) {
        action_for(session.mode_spec(), session.is_active(), edge)
    } else {
        HotkeyAction::Ignore
    }
}

/// Decides what a hotkey handler registered with generation `g` does.
pub fn hotkey_action(
    registry: &BindingRegistry,
    session: &RecordingSession,
    g: u64,
    edge: KeyEdge,
) -> (r: HotkeyAction)
    ensures
        r == handler_action(*registry, *session, g, edge),
{
    if registry.is_current(g) {
        session.on_key(edge)
    } else {
        HotkeyAction::Ignore
    }
}

/// A handler registered for a binding that has since been replaced never
/// triggers an action, whatever the session state and the edge.
pub proof fn stale_handler_never_acts(
    before: BindingRegistry,
    after: BindingRegistry,
    replacement: HotkeyBinding,
    g: u64,
    session: RecordingSession,
    edge: KeyEdge,
)
    requires
        g <= before.generation_spec(),
        before.generation_spec() < u64::MAX,
        after.generation_spec() == before.generation_spec() + 1,
        after.has_binding(),
    ensures
        handler_action(after, session, g, edge) == HotkeyAction::Ignore,
{
}

/// Clearing the registry, as done while a binding is being replaced, makes
/// every handler inert.
pub proof fn cleared_registry_never_acts(
    registry: BindingRegistry,
    g: u64,
    session: RecordingSession,
    edge: KeyEdge,
)
    requires
        !registry.has_binding(),
    ensures
        handler_action(registry, session, g, edge) == HotkeyAction::Ignore,
{
}

} // verus!
