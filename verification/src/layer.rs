//! The forwarder: per event, render the context chain and the fields into
//! one message, map the severity, and submit one text-log record to the
//! sink's channel.

use vstd::prelude::*;

use crate::event::LogEvent;
use crate::event::context_text;
use crate::event::format_event;
use crate::event::frame_views;
use crate::event::message_text;
use crate::event::render_context;
use crate::level::SinkLevel;
use crate::level::level_map;
use crate::level::to_rerun_log_level;

verus! {

/// `re_sdk::RecordingStream` carries the connection to the sink. The
/// bridge only submits records through it and never closes it.
#[verifier::external_type_specification]
#[verifier::external_body]
pub struct ExRecordingStream(re_sdk::RecordingStream);

/// Relies on `re_types::archetypes::TextLog` and
/// `re_sdk::RecordingStream::log`: builds one sink-native text record from
/// the message and the severity label and submits it to the channel at
/// `path`. A delivery error is discarded, never returned or raised.
#[verifier::external_body]
fn submit_text(rec: &re_sdk::RecordingStream, path: &str, message: String, level: &str) {
    let record = re_types::archetypes::TextLog::new(message).with_level(level);
    let _ = rec.log(path, &record);
}

/// Compute the record one event is forwarded as: the whole message line
/// (context prefix, target, field values) and the sink severity.
pub fn render_record(event: &LogEvent, chain: &Vec<String>) -> (r: (String, SinkLevel))
    ensures
        r.0@ == message_text(context_text(frame_views(chain@)), event@.target, event@.fields),
        r.1 == level_map(event@.level),
{
    let prefix = render_context(chain);
    let message = format_event(prefix.as_str(), event.target.as_str(), &event.fields);
    let level = to_rerun_log_level(&event.level);
    (message, level)
}

/// Send every event of the source framework to the sink as one text-log
/// record under the channel at `path`.
pub struct RerunLayer {
    pub rec: re_sdk::RecordingStream,
    pub path: String,
}

impl RerunLayer {
    /// Forward one event, given the snapshot of the call-context chain
    /// active when it fired (innermost frame first; empty when no context
    /// is active): exactly one record, carrying the formatted message and
    /// the mapped severity, is submitted to the channel. A delivery
    /// failure is swallowed; the caller always gets a normal return.
    pub fn forward(&self, event: &LogEvent, chain: &Vec<String>) {
        let (message, level) = render_record(event, chain);
        submit_text(&self.rec, self.path.as_str(), message, level.label());
    }
}

} // verus!
