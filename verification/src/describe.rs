//! Short human-readable classifications of entries, for diagnostic display.

use vstd::prelude::*;

use crate::num::dec_u128;
use crate::num::spec_u64_digits;
use crate::transcript::MessageContent;
use crate::transcript::SpecEntry;
use crate::transcript::TranscriptEntry;
use crate::transcript::TranscriptMessage;
use crate::transcript::spec_content_text;
use crate::transcript::spec_message_code_count;
use crate::transcript::spec_message_content;
use crate::transcript::spec_message_thinking;
use crate::transcript::spec_message_tool_count;

verus! {

/// How many characters of a user message's text the description shows before
/// an ellipsis.
pub const PREVIEW_CHARS: usize = 50;

/// The description of an entry.
///
/// * `system` entries show their severity level, or `unknown` when none was
///   recorded.
/// * `user` entries show the first [`PREVIEW_CHARS`] characters of their flat
///   content text, with a trailing ellipsis when text was dropped, or a
///   placeholder when there is no content.
/// * `assistant` entries list, in order and each only when applicable: the
///   presence of internal reasoning, the number of tool uses (the dedicated
///   list plus tool-use blocks inside the content), and the number of code
///   outputs.
/// * `summary` entries show their summary text.
pub open spec fn spec_description(e: SpecEntry) -> Seq<char> {
    match e {
        SpecEntry::System(s) => "System["@ + (match s.level {
            Some(l) => l,
            None => "unknown"@,
        }) + "]"@,
        SpecEntry::User(u) => "User: "@ + (match spec_message_content(u.message) {
            None => "No content"@,
            Some(c) => {
                let t = spec_content_text(c);
                if t.len() > PREVIEW_CHARS {
                    t.take(PREVIEW_CHARS as int) + "..."@
                } else {
                    t
                }
            },
        }),
        SpecEntry::Assistant(a) => {
            let tools = spec_message_tool_count(a.message);
            let code = spec_message_code_count(a.message);
            "Assistant"@ + (if spec_message_thinking(a.message) is Some {
                ": with thinking"@
            } else {
                Seq::empty()
            }) + (if tools > 0 {
                ": "@ + spec_u64_digits(tools) + " tool uses"@
            } else {
                Seq::empty()
            }) + (if code > 0 {
                ": "@ + spec_u64_digits(code) + " code outputs"@
            } else {
                Seq::empty()
            })
        },
        SpecEntry::Summary(s) => "Summary: "@ + s.summary,
    }
}

/// The identity of the entry, where the schema gives it one.
pub open spec fn spec_entry_uuid(e: SpecEntry) -> Option<Seq<char>> {
    match e {
        SpecEntry::User(u) => Some(u.uuid),
        SpecEntry::Assistant(a) => Some(a.uuid),
        SpecEntry::System(s) => Some(s.uuid),
        SpecEntry::Summary(_) => None,
    }
}

/// The timestamp of the entry, where the schema gives it one.
pub open spec fn spec_entry_timestamp(e: SpecEntry) -> Option<Seq<char>> {
    match e {
        SpecEntry::User(u) => Some(u.timestamp),
        SpecEntry::Assistant(a) => Some(a.timestamp),
        SpecEntry::System(s) => Some(s.timestamp),
        SpecEntry::Summary(_) => None,
    }
}

impl TranscriptEntry {
    /// A brief description of the entry for diagnostic display.
    pub fn description(&self) -> (r: String)
        ensures
            r@ == spec_description(self.deep_view()),
    {
        match self {
            TranscriptEntry::System(e) => {
                let mut s = String::from_str("System[");
                match &e.level {
                    Some(l) => s.append(l.as_str()),
                    None => s.append("unknown"),
                }
                s.append("]");
                proof {
                    assert(s@ =~= spec_description(self.deep_view()));
                }
                s
            },
            TranscriptEntry::User(e) => {
                let mut s = String::from_str("User: ");
                match e.message.content() {
                    None => s.append("No content"),
                    Some(c) => {
                        let t = c.as_text();
                        let n = t.as_str().unicode_len();
                        if n > PREVIEW_CHARS {
                            s.append(t.as_str().substring_char(0, PREVIEW_CHARS));
                            s.append("...");
                        } else {
                            s.append(t.as_str());
                        }
                    },
                }
                proof {
                    assert(s@ =~= spec_description(self.deep_view()));
                }
                s
            },
            TranscriptEntry::Assistant(e) => {
                let mut s = String::from_str("Assistant");
                let (has_thinking, list_count, content_opt, code_count): (
                    bool,
                    usize,
                    Option<&MessageContent>,
                    usize,
                ) = match &e.message {
                    TranscriptMessage::User { content } => (false, 0, content.as_ref(), 0),
                    TranscriptMessage::Assistant {
                        thinking,
                        tool_uses,
                        code_outputs,
                        content,
                        ..
                    } => (
                        thinking.is_some(),
                        match tool_uses {
                            Some(ts) => ts.len(),
                            None => 0,
                        },
                        content.as_ref(),
                        match code_outputs {
                            Some(cs) => cs.len(),
                            None => 0,
                        },
                    ),
                };
                let content_count: usize = match content_opt {
                    Some(c) => c.count_tool_uses(),
                    None => 0,
                };
                let tools: u128 = list_count as u128 + content_count as u128;
                let ghost m = e.message.deep_view();
                proof {
                    assert(tools as int == spec_message_tool_count(m));
                    assert(code_count as int == spec_message_code_count(m));
                    assert(has_thinking == (spec_message_thinking(m) is Some));
                }
                if has_thinking {
                    s.append(": with thinking");
                }
                if tools > 0 {
                    s.append(": ");
                    let d = dec_u128(tools);
                    s.append(d.as_str());
                    s.append(" tool uses");
                }
                if code_count > 0 {
                    s.append(": ");
                    let d = dec_u128(code_count as u128);
                    s.append(d.as_str());
                    s.append(" code outputs");
                }
                proof {
                    assert(s@ =~= spec_description(self.deep_view()));
                }
                s
            },
            TranscriptEntry::Summary(e) => {
                let mut s = String::from_str("Summary: ");
                s.append(e.summary.as_str());
                proof {
                    assert(s@ =~= spec_description(self.deep_view()));
                }
                s
            },
        }
    }

    /// The UUID of the entry, if its kind carries one.
    pub fn uuid(&self) -> (r: Option<&str>)
        ensures
            r.deep_view() == spec_entry_uuid(self.deep_view()),
    {
        match self {
            TranscriptEntry::User(e) => Some(e.uuid.as_str()),
            TranscriptEntry::Assistant(e) => Some(e.uuid.as_str()),
            TranscriptEntry::System(e) => Some(e.uuid.as_str()),
            TranscriptEntry::Summary(_) => None,
        }
    }

    /// The timestamp of the entry, if its kind carries one.
    pub fn timestamp(&self) -> (r: Option<&str>)
        ensures
            r.deep_view() == spec_entry_timestamp(self.deep_view()),
    {
        match self {
            TranscriptEntry::User(e) => Some(e.timestamp.as_str()),
            TranscriptEntry::Assistant(e) => Some(e.timestamp.as_str()),
            TranscriptEntry::System(e) => Some(e.timestamp.as_str()),
            TranscriptEntry::Summary(_) => None,
        }
    }
}

} // verus!
