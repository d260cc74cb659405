//! The line protocol spoken with the out-of-process transcription engine:
//! one path line out, one JSON line back, `quit` to shut it down.
use vstd::prelude::*;

verus! {

/// What the engine returns for one recording.
#[derive(Clone, Debug)]
pub struct TranscriptResult {
    pub text: String,
    pub language: Option<String>,
}

/// Why a transcription request failed.
#[derive(Clone, Debug)]
pub enum SidecarError {
    /// No engine process is tracked.
    NotRunning,
    /// The request path holds a line break and cannot be framed as one line.
    PathHasNewline,
    /// The engine's input or output pipe is gone.
    PipeClosed,
    /// Writing or flushing the request failed.
    WriteFailed { reason: String },
    /// Reading the reply failed.
    ReadFailed { reason: String },
    /// The engine closed its output before answering.
    EndOfStream,
    /// The reply line is not the expected JSON object.
    MalformedReply { reason: String },
}

/// The sentence describing an error.
pub open spec fn sidecar_error_text(e: SidecarError) -> Seq<char> {
    match e {
        SidecarError::NotRunning => "ASR service not running"@,
        SidecarError::PathHasNewline => "Audio path contains a line break"@,
        SidecarError::PipeClosed => "ASR service pipe is closed"@,
        SidecarError::WriteFailed { reason } => "Failed to write to ASR service: "@ + reason@,
        SidecarError::ReadFailed { reason } => "Failed to read from ASR service: "@ + reason@,
        SidecarError::EndOfStream => "ASR service closed its output before replying"@,
        SidecarError::MalformedReply { reason } => "Failed to parse ASR response: "@ + reason@,
    }
}

impl SidecarError {
    /// A sentence for logs and user notifications.
    pub fn message(&self) -> (r: String)
        ensures
            r@ == sidecar_error_text(*self),
    {
        match self {
            SidecarError::NotRunning => "ASR service not running".to_string(),
            SidecarError::PathHasNewline => "Audio path contains a line break".to_string(),
            SidecarError::PipeClosed => "ASR service pipe is closed".to_string(),
            SidecarError::WriteFailed { reason } => {
                let mut m = "Failed to write to ASR service: ".to_string();
                m.append(reason.as_str());
                m
            },
            SidecarError::ReadFailed { reason } => {
                let mut m = "Failed to read from ASR service: ".to_string();
                m.append(reason.as_str());
                m
            },
            SidecarError::EndOfStream => "ASR service closed its output before replying".to_string(),
            SidecarError::MalformedReply { reason } => {
                let mut m = "Failed to parse ASR response: ".to_string();
                m.append(reason.as_str());
                m
            },
        }
    }
}

/// The line sent to ask the engine to exit.
pub open spec fn quit_line() -> Seq<char> {
    "quit\n"@
}

/// The request line for an audio path.
pub open spec fn request_line_of(path: Seq<char>) -> Seq<char> {
    path.push('\n')
}

/// A reply as read from the engine with its line terminator removed.
pub open spec fn reply_text_of(raw: Seq<char>) -> Seq<char> {
    if raw.len() > 0 && raw.last() == '\n' {
        if raw.len() > 1 && raw[raw.len() - 2] == '\r' {
            raw.subrange(0, raw.len() - 2)
        } else {
            raw.drop_last()
        }
    } else {
        raw
    }
}

/// How the engine is launched, given what is installed.
#[derive(Clone, Copy, Debug, PartialEq, Eq, Structural)]
pub enum EngineLaunch {
    /// The engine script is missing: keep the manager without starting it.
    Deferred,
    /// Start the script with the project's virtual-environment interpreter.
    VirtualEnv,
    /// Start the script with the system `python3`.
    SystemPython,
}

/// Chooses how to launch the engine.
pub fn launch_choice(script_exists: bool, venv_exists: bool) -> (r: EngineLaunch)
    ensures
        !script_exists ==> r == EngineLaunch::Deferred,
        script_exists && venv_exists ==> r == EngineLaunch::VirtualEnv,
        script_exists && !venv_exists ==> r == EngineLaunch::SystemPython,
{
    if !script_exists {
        EngineLaunch::Deferred
    } else if venv_exists {
        EngineLaunch::VirtualEnv
    } else {
        EngineLaunch::SystemPython
    }
}

/// Lifecycle of the single engine process, as far as the protocol sees it.
pub struct SidecarChannel {
    running: bool,
}

impl SidecarChannel {
    pub closed spec fn is_running(&self) -> bool {
        self.running
    }

    /// A channel with no engine process.
    pub fn new() -> (r: Self)
        ensures
            !r.is_running(),
    {
        SidecarChannel { running: false }
    }

    /// Whether an engine process is tracked.
    pub fn running(&self) -> (r: bool)
        ensures
            r == self.is_running(),
    {
        self.running
    }

    /// Starting is idempotent: returns whether a process must be spawned,
    /// which is the case only when none is tracked.
    pub fn start(&self) -> (spawn: bool)
        ensures
            spawn == !self.is_running(),
    {
        !self.running
    }

    /// Records that the engine process was spawned.
    pub fn spawned(&mut self)
        ensures
            final(self).is_running(),
    {
        self.running = true;
    }

    /// Frames the request for `path`. With no engine running, or with a path
    /// that cannot be one line, it fails and nothing is to be written.
    pub fn request_line(&self, path: &str) -> (r: Result<String, SidecarError>)
        ensures
            !self.is_running() ==> r matches Err(SidecarError::NotRunning),
            self.is_running() && path@.contains('\n') ==> r matches Err(
                SidecarError::PathHasNewline,
            ),
            self.is_running() && !path@.contains('\n') ==> (r matches Ok(line) && line@
                == request_line_of(path@)),
    {
        if !self.running {
            return Err(SidecarError::NotRunning);
        }
        let n = path.unicode_len();
        let mut i: usize = 0;
        while i < n
            invariant
                self.running,
                n == path@.len(),
                i <= n,
                forall|j: int| 0 <= j < i ==> path@[j] != '\n',
            decreases n - i,
        {
            if path.get_char(i) == '\n' {
                return Err(SidecarError::PathHasNewline);
            }
            i = i + 1;
        }
        let mut line = path.to_string();
        line.append("\n");
        proof {
            reveal_strlit("\n");
        }
        assert(line@ =~= request_line_of(path@));
        Ok(line)
    }

    /// Interprets what one line read from the engine produced: nothing at all
    /// means the engine closed its output; otherwise the line without its
    /// terminator is the reply.
    pub fn reply_text(raw: &str) -> (r: Result<String, SidecarError>)
        ensures
            raw@.len() == 0 ==> r matches Err(SidecarError::EndOfStream),
            raw@.len() > 0 ==> (r matches Ok(t) && t@ == reply_text_of(raw@)),
    {
        let n = raw.unicode_len();
        if n == 0 {
            return Err(SidecarError::EndOfStream);
        }
        let mut end = n;
        if raw.get_char(n - 1) == '\n' {
            end = n - 1;
            if n > 1 && raw.get_char(n - 2) == '\r' {
                end = n - 2;
            }
        }
        let t = raw.substring_char(0, end).to_string();
        assert(t@ =~= reply_text_of(raw@));
        Ok(t)
    }

    /// Stops tracking the engine. When one was running, returns the
    /// sentinel line to send before it is terminated.
    pub fn stop(&mut self) -> (r: Option<String>)
        ensures
            !final(self).is_running(),
            old(self).is_running() ==> (r matches Some(l) && l@ == quit_line()),
            !old(self).is_running() ==> r is None,
    {
        if self.running {
            self.running = false;
            let l = "quit\n".to_string();
            proof {
                reveal_strlit("quit\n");
            }
            Some(l)
        } else {
            None
        }
    }
}

} // verus!
