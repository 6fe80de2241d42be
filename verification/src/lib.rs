//! Core of a minimal real-time rendering host: a window centered on the
//! primary display, a compiled shader program, and a fixed-cadence render
//! loop that animates one triangle until the window closes or Escape is
//! pressed.
//!
//! This crate holds the verified parts: window geometry, frame pacing, the
//! event-dispatch state machine, the error taxonomy, log-file naming, and
//! elapsed-time bookkeeping. The host process around it owns the actual
//! window, graphics context and log sink.

pub mod dispatch;
pub mod errors;
pub mod geometry;
pub mod logname;
pub mod pacing;
pub mod shader;
pub mod timing;

pub use dispatch::ControlFlowState;
pub use dispatch::Event;
pub use dispatch::FrameDirective;
pub use dispatch::Key;
pub use dispatch::LoopState;
pub use dispatch::StepOutcome;
pub use dispatch::step;

pub use errors::FATAL_EXIT_CODE;
pub use errors::FrameError;
pub use errors::StartupError;
pub use errors::state_after_frame_failure;

pub use geometry::MonitorInfo;
pub use geometry::WINDOW_HEIGHT;
pub use geometry::WINDOW_WIDTH;
pub use geometry::WindowGeometry;
pub use geometry::center_position;
pub use geometry::plan_window;

pub use logname::ClockFields;
pub use logname::current_log_file_name;
pub use logname::log_file_name;

pub use pacing::FRAME_BUDGET_NS;
pub use pacing::NANOS_PER_SECOND;
pub use pacing::TARGET_FPS;
pub use pacing::frame_budget_ns;
pub use pacing::next_frame_deadline;

pub use shader::animation_uniform_name;
pub use shader::fragment_shader_source;
pub use shader::vertex_shader_source;

pub use timing::FrameClock;
pub use timing::elapsed_millis;
pub use timing::read_frame_clock;
pub use timing::session_start_millis;
