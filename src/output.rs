//! How a transcript is delivered to the focused application, as an ordered
//! list of steps for the platform input layer to perform.
use vstd::prelude::*;

use crate::config::OutputMode;

verus! {

/// A key the input layer can simulate.
#[derive(Clone, Copy, Debug, PartialEq, Eq, Structural)]
pub enum SimKey {
    /// The command (meta) modifier.
    Meta,
    /// The key producing a character.
    Char(char),
}

/// What happens to a simulated key.
#[derive(Clone, Copy, Debug, PartialEq, Eq, Structural)]
pub enum KeyMotion {
    Press,
    Release,
    Click,
}

/// One step of delivering text.
#[derive(Clone, Debug)]
pub enum OutputStep {
    /// Wait for the system to settle.
    Pause { ms: u64 },
    /// Open the input-simulation connection; later key and typing steps use it.
    Connect,
    /// Type the text as keystrokes.
    TypeText { text: String },
    /// Put the text on the clipboard.
    SetClipboard { text: String },
    /// Simulate one key motion.
    Key { key: SimKey, motion: KeyMotion },
}

/// The steps' shape, with text by its characters.
pub enum StepView {
    Pause(u64),
    Connect,
    TypeText(Seq<char>),
    SetClipboard(Seq<char>),
    Key(SimKey, KeyMotion),
}

pub open spec fn step_view(s: OutputStep) -> StepView {
    match s {
        OutputStep::Pause { ms } => StepView::Pause(ms),
        OutputStep::Connect => StepView::Connect,
        OutputStep::TypeText { text } => StepView::TypeText(text@),
        OutputStep::SetClipboard { text } => StepView::SetClipboard(text@),
        OutputStep::Key { key, motion } => StepView::Key(key, motion),
    }
}

/// The delivery of `text` in `mode`. Typing waits for focus to settle, connects,
/// waits for the connection, then types. Pasting puts the text on the
/// clipboard, connects, waits, then presses Meta+V.
pub open spec fn output_plan(text: Seq<char>, mode: OutputMode) -> Seq<StepView> {
    match mode {
        OutputMode::Keyboard => seq![
            StepView::Pause(100),
            StepView::Connect,
            StepView::Pause(50),
            StepView::TypeText(text),
        ],
        OutputMode::Clipboard => seq![
            StepView::SetClipboard(text),
            StepView::Connect,
            StepView::Pause(100),
            StepView::Key(SimKey::Meta, KeyMotion::Press),
            StepView::Key(SimKey::Char('v'), KeyMotion::Click),
            StepView::Key(SimKey::Meta, KeyMotion::Release),
        ],
    }
}

/// The steps that deliver `text` in `mode`.
pub fn output_text(text: &str, mode: OutputMode) -> (r: Vec<OutputStep>)
    ensures
        r@.map_values(|s: OutputStep| step_view(s)) == output_plan(text@, mode),
{
    let mut steps: Vec<OutputStep> = Vec::new();
    match mode {
        OutputMode::Keyboard => {
            steps.push(OutputStep::Pause { ms: 100 });
            steps.push(OutputStep::Connect);
            steps.push(OutputStep::Pause { ms: 50 });
            steps.push(OutputStep::TypeText { text: text.to_string() });
        },
        OutputMode::Clipboard => {
            steps.push(OutputStep::SetClipboard { text: text.to_string() });
            steps.push(OutputStep::Connect);
            steps.push(OutputStep::Pause { ms: 100 });
            steps.push(OutputStep::Key { key: SimKey::Meta, motion: KeyMotion::Press });
            steps.push(OutputStep::Key { key: SimKey::Char('v'), motion: KeyMotion::Click });
            steps.push(OutputStep::Key { key: SimKey::Meta, motion: KeyMotion::Release });
        },
    }
    assert(steps@.map_values(|s: OutputStep| step_view(s)) =~= output_plan(text@, mode));
    steps
}

} // verus!
