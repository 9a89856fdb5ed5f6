//! A bridge from a structured event-logging framework to a telemetry sink.
//!
//! Every event handed to the bridge is reformatted into a single
//! human-readable line annotated with its originating call-context chain,
//! tagged with a severity level the sink understands, and forwarded to a
//! named text-log channel of the sink.

use vstd::prelude::*;

pub mod event;
pub mod layer;
pub mod level;
pub mod text;

pub use event::Field;
pub use event::FieldValue;
pub use event::LogEvent;
pub use event::format_event;
pub use event::render_context;
pub use layer::RerunLayer;
pub use layer::render_record;
pub use level::Severity;
pub use level::SinkLevel;
pub use level::to_rerun_log_level;

verus! {

} // verus!
