//! Error taxonomy: startup failures are fatal (log, then exit nonzero);
//! per-frame draw/present failures are recoverable (log, then continue to
//! the next iteration); everything else is ignorable.

use vstd::prelude::*;
use vstd::string::*;
use crate::dispatch::LoopState;

verus! {

/// The process exit status used for every fatal startup failure.
pub const FATAL_EXIT_CODE: i32 = -1;

/// A failure detected at startup, before the render loop begins. All of
/// these are fatal: the process logs the message and exits nonzero.
#[derive(Clone, Debug, PartialEq, Eq)]
pub enum StartupError {
    /// The host reported no primary monitor; no window can be placed.
    NoMonitor,
    /// The window or its graphics context could not be created; the field
    /// is the host's description of the cause.
    WindowCreationFailed(String),
    /// The shader program did not compile; the field is the compiler's
    /// diagnostic.
    ShaderCompileFailed(String),
    /// The log file could not be created; the field is the cause.
    LogFileCreationFailed(String),
}

/// A failure while producing a single frame. These are recoverable: the
/// loop reports them and continues with the next iteration.
#[derive(Clone, Debug, PartialEq, Eq)]
pub enum FrameError {
    /// The device rejected the draw call; the field is its description.
    DrawFailed(String),
    /// The finished frame could not be presented to the window.
    PresentFailed(String),
}

/// The human-readable message logged for a startup failure, as a sequence
/// of characters. For causes carried in the error, the cause is appended
/// verbatim, so the logged line always includes it.
pub open spec fn startup_message_spec(e: StartupError) -> Seq<char> {
    match e {
        StartupError::NoMonitor => "No monitor available! Launch cannot proceed."@,
        StartupError::WindowCreationFailed(d) => "Failed to create window! Error: "@ + d@,
        StartupError::ShaderCompileFailed(d) => "Failed to compile shader! Error: "@ + d@,
        StartupError::LogFileCreationFailed(d) => (
            "Failed to create log file! The application will now exit. Error: "@ + d@
        ),
    }
}

/// The message logged for a per-frame failure.
pub open spec fn frame_message_spec(e: FrameError) -> Seq<char> {
    match e {
        FrameError::DrawFailed(d) => "Failed to draw frame! Error: "@ + d@,
        FrameError::PresentFailed(d) => "Failed to swap buffers! Error: "@ + d@,
    }
}

impl StartupError {
    /// Every startup failure terminates the process with the same
    /// distinguished negative status.
    pub fn exit_code(&self) -> (r: i32)
        ensures
            r == FATAL_EXIT_CODE,
            r < 0,
    {
        FATAL_EXIT_CODE
    }

    /// The message to log before exiting.
    pub fn message(&self) -> (r: String)
        ensures
            r@ == startup_message_spec(*self),
    {
        match self {
            StartupError::NoMonitor => {
                String::from_str("No monitor available! Launch cannot proceed.")
            },
            StartupError::WindowCreationFailed(d) => {
                String::from_str("Failed to create window! Error: ").concat(d.as_str())
            },
            StartupError::ShaderCompileFailed(d) => {
                String::from_str("Failed to compile shader! Error: ").concat(d.as_str())
            },
            StartupError::LogFileCreationFailed(d) => {
                String::from_str(
                    "Failed to create log file! The application will now exit. Error: ",
                ).concat(d.as_str())
            },
        }
    }
}

impl FrameError {
    /// The message to log before the loop moves on.
    pub fn message(&self) -> (r: String)
        ensures
            r@ == frame_message_spec(*self),
    {
        match self {
            FrameError::DrawFailed(d) => {
                String::from_str("Failed to draw frame! Error: ").concat(d.as_str())
            },
            FrameError::PresentFailed(d) => {
                String::from_str("Failed to swap buffers! Error: ").concat(d.as_str())
            },
        }
    }
}

/// A per-frame failure never ends the loop: after reporting it, the loop
/// is still running and proceeds to its next iteration.
pub fn state_after_frame_failure(e: &FrameError) -> (r: LoopState)
    ensures
        r is Running,
{
    let _ = e;
    LoopState::Running
}

/// The logged message for a failed shader compilation ends with the
/// compiler's diagnostic itself, so the diagnostic is always part of the
/// logged line.
pub proof fn lemma_shader_message_includes_diagnostic(d: String)
    ensures
        startup_message_spec(StartupError::ShaderCompileFailed(d)).len() >= d@.len(),
        startup_message_spec(StartupError::ShaderCompileFailed(d)).skip(
            startup_message_spec(StartupError::ShaderCompileFailed(d)).len() - d@.len(),
        ) == d@,
{
    let msg = startup_message_spec(StartupError::ShaderCompileFailed(d));
    assert(msg.skip(msg.len() - d@.len()) =~= d@);
}

} // verus!
