//! The input and output records of the hook protocol.
//!
//! A hook reads one JSON input record describing an event, decides, and
//! answers with one output record. The records here are plain data: the
//! reading, writing and process plumbing live with the caller. Builder
//! methods pin every field they set and leave.

use vstd::prelude::*;

use crate::json::JsonField;

verus! {

/// The decision a hook hands back: approve the operation, or block it and
/// explain why.
#[derive(Debug, Clone, PartialEq)]
pub enum Decision {
    Approve,
    Block,
}

/// Fields common to every hook input.
#[derive(Debug, Clone)]
pub struct CommonInput {
    pub session_id: String,
    pub transcript_path: String,
}

/// Input of a hook that runs before a tool call.
#[derive(Debug, Clone)]
pub struct PreToolUse {
    pub session_id: String,
    pub transcript_path: String,
    pub tool_name: String,
    pub tool_input: Vec<JsonField>,
}

/// Input of a hook that runs before a tool call.
#[derive(Debug, Clone)]
pub struct PreToolUseInput {
    pub session_id: String,
    pub transcript_path: String,
    pub tool_name: String,
    pub tool_input: Vec<JsonField>,
}

/// Input of a hook that runs after a tool call.
#[derive(Debug, Clone)]
pub struct PostToolUse {
    pub session_id: String,
    pub transcript_path: String,
    pub tool_name: String,
    pub tool_input: Vec<JsonField>,
    pub tool_response: Vec<JsonField>,
}

/// Input of a hook that runs after a tool call.
#[derive(Debug, Clone)]
pub struct PostToolUseInput {
    pub session_id: String,
    pub transcript_path: String,
    pub tool_name: String,
    pub tool_input: Vec<JsonField>,
    pub tool_response: Vec<JsonField>,
}

/// Input of a hook that runs when a notification is sent.
#[derive(Debug, Clone)]
pub struct Notification {
    pub session_id: String,
    pub transcript_path: String,
    pub message: String,
    pub hook_event_name: String,
}

/// Input of a hook that runs when a notification is sent.
#[derive(Debug, Clone)]
pub struct NotificationInput {
    pub session_id: String,
    pub transcript_path: String,
    pub message: String,
    pub title: String,
}

/// Input of a hook that runs when the agent wants to stop.
#[derive(Debug, Clone)]
pub struct Stop {
    pub session_id: String,
    pub transcript_path: String,
    pub stop_hook_active: bool,
}

/// Input of a hook that runs when the agent wants to stop.
#[derive(Debug, Clone)]
pub struct StopInput {
    pub session_id: String,
    pub transcript_path: String,
    pub stop_hook_active: bool,
}

/// Input of a hook that runs when a subagent wants to stop.
#[derive(Debug, Clone)]
pub struct SubagentStop {
    pub session_id: String,
    pub transcript_path: String,
    pub stop_hook_active: bool,
}

/// Output of a hook that runs before a tool call.
#[derive(Debug, Clone)]
pub struct PreToolUseOutput {
    pub decision: Option<Decision>,
    pub reason: Option<String>,
    pub continue_: Option<bool>,
    pub stop_reason: Option<String>,
    pub suppress_output: Option<bool>,
}

/// Output of a hook that runs after a tool call.
#[derive(Debug, Clone)]
pub struct PostToolUseOutput {
    pub decision: Option<Decision>,
    pub reason: Option<String>,
    pub continue_: Option<bool>,
    pub stop_reason: Option<String>,
    pub suppress_output: Option<bool>,
}

/// Output of a hook that runs when a notification is sent.
#[derive(Debug, Clone)]
pub struct NotificationOutput {
    pub continue_: Option<bool>,
    pub stop_reason: Option<String>,
    pub suppress_output: Option<bool>,
}

/// Output of a hook that runs when the agent wants to stop.
#[derive(Debug, Clone)]
pub struct StopOutput {
    pub decision: Option<Decision>,
    pub reason: Option<String>,
    pub continue_: Option<bool>,
    pub stop_reason: Option<String>,
    pub suppress_output: Option<bool>,
}

/// Output of a hook that runs when a subagent wants to stop.
#[derive(Debug, Clone)]
pub struct SubagentStopOutput {
    pub decision: Option<Decision>,
    pub reason: Option<String>,
    pub continue_: Option<bool>,
    pub stop_reason: Option<String>,
    pub suppress_output: Option<bool>,
}

impl PreToolUseOutput {
    /// An approval that bypasses the permission flow, with a reason shown to
    /// the user.
    pub fn approve(reason: &str) -> (r: Self)
        ensures
            r.decision == Some(Decision::Approve),
            r.reason.deep_view() == Some(reason@),
            r.continue_ is None,
            r.stop_reason is None,
            r.suppress_output is None,
    {
        PreToolUseOutput {
            decision: Some(Decision::Approve),
            reason: Some(reason.to_owned()),
            continue_: None,
            stop_reason: None,
            suppress_output: None,
        }
    }

    /// A block that prevents the tool call, with a reason fed back to the
    /// agent.
    pub fn block(reason: &str) -> (r: Self)
        ensures
            r.decision == Some(Decision::Block),
            r.reason.deep_view() == Some(reason@),
            r.continue_ is None,
            r.stop_reason is None,
            r.suppress_output is None,
    {
        PreToolUseOutput {
            decision: Some(Decision::Block),
            reason: Some(reason.to_owned()),
            continue_: None,
            stop_reason: None,
            suppress_output: None,
        }
    }

    /// No decision: the regular permission flow applies.
    pub fn passthrough() -> (r: Self)
        ensures
            r.decision is None,
            r.reason is None,
            r.continue_ is None,
            r.stop_reason is None,
            r.suppress_output is None,
    {
        PreToolUseOutput {
            decision: None,
            reason: None,
            continue_: None,
            stop_reason: None,
            suppress_output: None,
        }
    }

    /// Additionally stops processing, with a reason shown to the user.
    pub fn and_stop(self, reason: &str) -> (r: Self)
        ensures
            r.decision == self.decision,
            r.reason.deep_view() == self.reason.deep_view(),
            r.continue_ == Some(false),
            r.stop_reason.deep_view() == Some(reason@),
            r.suppress_output == self.suppress_output,
    {
        PreToolUseOutput {
            continue_: Some(false),
            stop_reason: Some(reason.to_owned()),
            ..self
        }
    }

    /// Sets whether transcript display suppresses the output.
    pub fn and_suppress_output(self, suppress: bool) -> (r: Self)
        ensures
            r.decision == self.decision,
            r.reason.deep_view() == self.reason.deep_view(),
            r.continue_ == self.continue_,
            r.stop_reason.deep_view() == self.stop_reason.deep_view(),
            r.suppress_output == Some(suppress),
    {
        PreToolUseOutput { suppress_output: Some(suppress), ..self }
    }
}

impl PostToolUseOutput {
    /// A block that replaces the tool result the agent sees with the reason.
    pub fn block(reason: &str) -> (r: Self)
        ensures
            r.decision == Some(Decision::Block),
            r.reason.deep_view() == Some(reason@),
            r.continue_ is None,
            r.stop_reason is None,
            r.suppress_output is None,
    {
        PostToolUseOutput {
            decision: Some(Decision::Block),
            reason: Some(reason.to_owned()),
            continue_: None,
            stop_reason: None,
            suppress_output: None,
        }
    }

    /// No decision: the tool result passes through unchanged.
    pub fn passthrough() -> (r: Self)
        ensures
            r.decision is None,
            r.reason is None,
            r.continue_ is None,
            r.stop_reason is None,
            r.suppress_output is None,
    {
        PostToolUseOutput {
            decision: None,
            reason: None,
            continue_: None,
            stop_reason: None,
            suppress_output: None,
        }
    }

    /// Clears the continue flag and records a stop reason.
    pub fn stop(self, reason: &str) -> (r: Self)
        ensures
            r.decision == self.decision,
            r.reason.deep_view() == self.reason.deep_view(),
            r.continue_ == Some(false),
            r.stop_reason.deep_view() == Some(reason@),
            r.suppress_output == self.suppress_output,
    {
        PostToolUseOutput {
            continue_: Some(false),
            stop_reason: Some(reason.to_owned()),
            ..self
        }
    }

    /// Clears the continue flag and records a stop reason.
    pub fn and_stop(self, reason: &str) -> (r: Self)
        ensures
            r.decision == self.decision,
            r.reason.deep_view() == self.reason.deep_view(),
            r.continue_ == Some(false),
            r.stop_reason.deep_view() == Some(reason@),
            r.suppress_output == self.suppress_output,
    {
        self.stop(reason)
    }

    /// Sets whether transcript display suppresses the output.
    pub fn suppress_output(self, suppress: bool) -> (r: Self)
        ensures
            r.decision == self.decision,
            r.reason.deep_view() == self.reason.deep_view(),
            r.continue_ == self.continue_,
            r.stop_reason.deep_view() == self.stop_reason.deep_view(),
            r.suppress_output == Some(suppress),
    {
        PostToolUseOutput { suppress_output: Some(suppress), ..self }
    }

    /// Sets whether transcript display suppresses the output.
    pub fn and_suppress_output(self, suppress: bool) -> (r: Self)
        ensures
            r.decision == self.decision,
            r.reason.deep_view() == self.reason.deep_view(),
            r.continue_ == self.continue_,
            r.stop_reason.deep_view() == self.stop_reason.deep_view(),
            r.suppress_output == Some(suppress),
    {
        self.suppress_output(suppress)
    }

    /// Replaces the reason.
    pub fn with_reason(self, reason: &str) -> (r: Self)
        ensures
            r.decision == self.decision,
            r.reason.deep_view() == Some(reason@),
            r.continue_ == self.continue_,
            r.stop_reason.deep_view() == self.stop_reason.deep_view(),
            r.suppress_output == self.suppress_output,
    {
        PostToolUseOutput { reason: Some(reason.to_owned()), ..self }
    }

    /// Clears the reason.
    pub fn without_reason(self) -> (r: Self)
        ensures
            r.decision == self.decision,
            r.reason is None,
            r.continue_ == self.continue_,
            r.stop_reason.deep_view() == self.stop_reason.deep_view(),
            r.suppress_output == self.suppress_output,
    {
        PostToolUseOutput { reason: None, ..self }
    }
}

impl NotificationOutput {
    /// A response that changes nothing: the notification shows normally.
    pub fn passthrough() -> (r: Self)
        ensures
            r.continue_ is None,
            r.stop_reason is None,
            r.suppress_output is None,
    {
        NotificationOutput { continue_: None, stop_reason: None, suppress_output: None }
    }

    /// Clears the continue flag and records a stop reason.
    pub fn stop(self, reason: &str) -> (r: Self)
        ensures
            r.continue_ == Some(false),
            r.stop_reason.deep_view() == Some(reason@),
            r.suppress_output == self.suppress_output,
    {
        NotificationOutput {
            continue_: Some(false),
            stop_reason: Some(reason.to_owned()),
            ..self
        }
    }

    /// Clears the continue flag and records a stop reason.
    pub fn and_stop(self, reason: &str) -> (r: Self)
        ensures
            r.continue_ == Some(false),
            r.stop_reason.deep_view() == Some(reason@),
            r.suppress_output == self.suppress_output,
    {
        self.stop(reason)
    }

    /// Sets whether transcript display suppresses the output.
    pub fn suppress_output(self, suppress: bool) -> (r: Self)
        ensures
            r.continue_ == self.continue_,
            r.stop_reason.deep_view() == self.stop_reason.deep_view(),
            r.suppress_output == Some(suppress),
    {
        NotificationOutput { suppress_output: Some(suppress), ..self }
    }

    /// Sets whether transcript display suppresses the output.
    pub fn and_suppress_output(self, suppress: bool) -> (r: Self)
        ensures
            r.continue_ == self.continue_,
            r.stop_reason.deep_view() == self.stop_reason.deep_view(),
            r.suppress_output == Some(suppress),
    {
        self.suppress_output(suppress)
    }
}

impl StopOutput {
    /// A block that keeps the agent going, with a reason telling it how.
    pub fn block(reason: &str) -> (r: Self)
        ensures
            r.decision == Some(Decision::Block),
            r.reason.deep_view() == Some(reason@),
            r.continue_ is None,
            r.stop_reason is None,
            r.suppress_output is None,
    {
        StopOutput {
            decision: Some(Decision::Block),
            reason: Some(reason.to_owned()),
            continue_: None,
            stop_reason: None,
            suppress_output: None,
        }
    }

    /// No decision: the agent may stop normally.
    pub fn allow() -> (r: Self)
        ensures
            r.decision is None,
            r.reason is None,
            r.continue_ is None,
            r.stop_reason is None,
            r.suppress_output is None,
    {
        StopOutput {
            decision: None,
            reason: None,
            continue_: None,
            stop_reason: None,
            suppress_output: None,
        }
    }

    /// Clears the continue flag and records a stop reason.
    pub fn stop(self, reason: &str) -> (r: Self)
        ensures
            r.decision == self.decision,
            r.reason.deep_view() == self.reason.deep_view(),
            r.continue_ == Some(false),
            r.stop_reason.deep_view() == Some(reason@),
            r.suppress_output == self.suppress_output,
    {
        StopOutput {
            continue_: Some(false),
            stop_reason: Some(reason.to_owned()),
            ..self
        }
    }

    /// Clears the continue flag and records a stop reason.
    pub fn and_stop(self, reason: &str) -> (r: Self)
        ensures
            r.decision == self.decision,
            r.reason.deep_view() == self.reason.deep_view(),
            r.continue_ == Some(false),
            r.stop_reason.deep_view() == Some(reason@),
            r.suppress_output == self.suppress_output,
    {
        self.stop(reason)
    }

    /// Sets whether transcript display suppresses the output.
    pub fn suppress_output(self, suppress: bool) -> (r: Self)
        ensures
            r.decision == self.decision,
            r.reason.deep_view() == self.reason.deep_view(),
            r.continue_ == self.continue_,
            r.stop_reason.deep_view() == self.stop_reason.deep_view(),
            r.suppress_output == Some(suppress),
    {
        StopOutput { suppress_output: Some(suppress), ..self }
    }

    /// Sets whether transcript display suppresses the output.
    pub fn and_suppress_output(self, suppress: bool) -> (r: Self)
        ensures
            r.decision == self.decision,
            r.reason.deep_view() == self.reason.deep_view(),
            r.continue_ == self.continue_,
            r.stop_reason.deep_view() == self.stop_reason.deep_view(),
            r.suppress_output == Some(suppress),
    {
        self.suppress_output(suppress)
    }
}

impl SubagentStopOutput {
    /// A block that keeps the subagent going, with a reason telling it how.
    pub fn block(reason: &str) -> (r: Self)
        ensures
            r.decision == Some(Decision::Block),
            r.reason.deep_view() == Some(reason@),
            r.continue_ is None,
            r.stop_reason is None,
            r.suppress_output is None,
    {
        SubagentStopOutput {
            decision: Some(Decision::Block),
            reason: Some(reason.to_owned()),
            continue_: None,
            stop_reason: None,
            suppress_output: None,
        }
    }

    /// No decision: the subagent may stop normally.
    pub fn allow() -> (r: Self)
        ensures
            r.decision is None,
            r.reason is None,
            r.continue_ is None,
            r.stop_reason is None,
            r.suppress_output is None,
    {
        SubagentStopOutput {
            decision: None,
            reason: None,
            continue_: None,
            stop_reason: None,
            suppress_output: None,
        }
    }

    /// Clears the continue flag and records a stop reason.
    pub fn and_stop(self, reason: &str) -> (r: Self)
        ensures
            r.decision == self.decision,
            r.reason.deep_view() == self.reason.deep_view(),
            r.continue_ == Some(false),
            r.stop_reason.deep_view() == Some(reason@),
            r.suppress_output == self.suppress_output,
    {
        SubagentStopOutput {
            continue_: Some(false),
            stop_reason: Some(reason.to_owned()),
            ..self
        }
    }

    /// Sets whether transcript display suppresses the output.
    pub fn and_suppress_output(self, suppress: bool) -> (r: Self)
        ensures
            r.decision == self.decision,
            r.reason.deep_view() == self.reason.deep_view(),
            r.continue_ == self.continue_,
            r.stop_reason.deep_view() == self.stop_reason.deep_view(),
            r.suppress_output == Some(suppress),
    {
        SubagentStopOutput { suppress_output: Some(suppress), ..self }
    }
}

impl PreToolUse {
    /// An approval that bypasses the permission flow.
    pub fn approve(&self, reason: &str) -> (r: PreToolUseOutput)
        ensures
            r.decision == Some(Decision::Approve),
            r.reason.deep_view() == Some(reason@),
            r.continue_ is None,
            r.stop_reason is None,
            r.suppress_output is None,
    {
        PreToolUseOutput::approve(reason)
    }

    /// A block that prevents the tool call.
    pub fn block(&self, reason: &str) -> (r: PreToolUseOutput)
        ensures
            r.decision == Some(Decision::Block),
            r.reason.deep_view() == Some(reason@),
            r.continue_ is None,
            r.stop_reason is None,
            r.suppress_output is None,
    {
        PreToolUseOutput::block(reason)
    }

    /// No decision: the regular permission flow applies.
    pub fn passthrough(&self) -> (r: PreToolUseOutput)
        ensures
            r.decision is None,
            r.reason is None,
            r.continue_ is None,
            r.stop_reason is None,
            r.suppress_output is None,
    {
        PreToolUseOutput::passthrough()
    }
}

impl PostToolUse {
    /// A block that replaces the tool result the agent sees.
    pub fn block(&self, reason: &str) -> (r: PostToolUseOutput)
        ensures
            r.decision == Some(Decision::Block),
            r.reason.deep_view() == Some(reason@),
            r.continue_ is None,
            r.stop_reason is None,
            r.suppress_output is None,
    {
        PostToolUseOutput::block(reason)
    }

    /// No decision: the tool result passes through unchanged.
    pub fn passthrough(&self) -> (r: PostToolUseOutput)
        ensures
            r.decision is None,
            r.reason is None,
            r.continue_ is None,
            r.stop_reason is None,
            r.suppress_output is None,
    {
        PostToolUseOutput::passthrough()
    }
}

impl Notification {
    /// A response that changes nothing.
    pub fn passthrough() -> (r: NotificationOutput)
        ensures
            r.continue_ is None,
            r.stop_reason is None,
            r.suppress_output is None,
    {
        NotificationOutput::passthrough()
    }

    /// A response that stops processing after the notification.
    pub fn stop(&self, reason: &str) -> (r: NotificationOutput)
        ensures
            r.continue_ == Some(false),
            r.stop_reason.deep_view() == Some(reason@),
            r.suppress_output is None,
    {
        NotificationOutput::passthrough().stop(reason)
    }
}

impl Stop {
    /// A block that keeps the agent going.
    pub fn block(&self, reason: &str) -> (r: StopOutput)
        ensures
            r.decision == Some(Decision::Block),
            r.reason.deep_view() == Some(reason@),
            r.continue_ is None,
            r.stop_reason is None,
            r.suppress_output is None,
    {
        StopOutput::block(reason)
    }

    /// A response that lets the agent stop normally.
    pub fn allow(&self) -> (r: StopOutput)
        ensures
            r.decision is None,
            r.reason is None,
            r.continue_ is None,
            r.stop_reason is None,
            r.suppress_output is None,
    {
        StopOutput::allow()
    }

    /// A response that stops the agent at once, with a reason shown to the
    /// user.
    pub fn stop(&self, reason: &str) -> (r: StopOutput)
        ensures
            r.decision is None,
            r.reason is None,
            r.continue_ == Some(false),
            r.stop_reason.deep_view() == Some(reason@),
            r.suppress_output is None,
    {
        StopOutput::allow().and_stop(reason)
    }
}

impl SubagentStop {
    /// A block that keeps the subagent going.
    pub fn block(&self, reason: &str) -> (r: SubagentStopOutput)
        ensures
            r.decision == Some(Decision::Block),
            r.reason.deep_view() == Some(reason@),
            r.continue_ is None,
            r.stop_reason is None,
            r.suppress_output is None,
    {
        SubagentStopOutput::block(reason)
    }

    /// A response that lets the subagent stop normally.
    pub fn allow(&self) -> (r: SubagentStopOutput)
        ensures
            r.decision is None,
            r.reason is None,
            r.continue_ is None,
            r.stop_reason is None,
            r.suppress_output is None,
    {
        SubagentStopOutput::allow()
    }

    /// A response that stops the subagent at once.
    pub fn stop(&self, reason: &str) -> (r: SubagentStopOutput)
        ensures
            r.decision is None,
            r.reason is None,
            r.continue_ == Some(false),
            r.stop_reason.deep_view() == Some(reason@),
            r.suppress_output is None,
    {
        SubagentStopOutput::allow().and_stop(reason)
    }
}


impl Default for PreToolUseOutput {
    /// The empty output: no decision, no reason, nothing set.
    fn default() -> (r: Self)
        ensures
            r.decision is None,
            r.reason is None,
            r.continue_ is None,
            r.stop_reason is None,
            r.suppress_output is None,
    {
        PreToolUseOutput::passthrough()
    }
}

impl Default for PostToolUseOutput {
    /// The empty output: no decision, no reason, nothing set.
    fn default() -> (r: Self)
        ensures
            r.decision is None,
            r.reason is None,
            r.continue_ is None,
            r.stop_reason is None,
            r.suppress_output is None,
    {
        PostToolUseOutput::passthrough()
    }
}

impl Default for NotificationOutput {
    /// The empty output: nothing set.
    fn default() -> (r: Self)
        ensures
            r.continue_ is None,
            r.stop_reason is None,
            r.suppress_output is None,
    {
        NotificationOutput::passthrough()
    }
}

impl Default for StopOutput {
    /// The empty output: no decision, no reason, nothing set.
    fn default() -> (r: Self)
        ensures
            r.decision is None,
            r.reason is None,
            r.continue_ is None,
            r.stop_reason is None,
            r.suppress_output is None,
    {
        StopOutput::allow()
    }
}

impl Default for SubagentStopOutput {
    /// The empty output: no decision, no reason, nothing set.
    fn default() -> (r: Self)
        ensures
            r.decision is None,
            r.reason is None,
            r.continue_ is None,
            r.stop_reason is None,
            r.suppress_output is None,
    {
        SubagentStopOutput::allow()
    }
}

} // verus!
