//! Recognising Rust source files and edits to them in a transcript.

use vstd::prelude::*;

use crate::json::JsonValue;
use crate::json::SpecJson;
use crate::json::lookup;
use crate::json::obj_get;
use crate::json::str_eq;
use crate::transcript::SpecEntry;
use crate::transcript::SpecMessage;
use crate::transcript::SpecToolUse;
use crate::transcript::ToolUse;
use crate::transcript::TranscriptEntry;
use crate::transcript::TranscriptMessage;

verus! {

/// Whether the path names a Rust source file: it ends in `.rs`.
pub open spec fn spec_is_rust_file(s: Seq<char>) -> bool {
    s.len() >= 3 && s[s.len() - 3] == '.' && s[s.len() - 2] == 'r' && s[s.len() - 1] == 's'
}

/// Whether the provided path refers to a Rust source file.
pub fn is_rust_file(file_path: &str) -> (r: bool)
    ensures
        r == spec_is_rust_file(file_path@),
{
    let n = file_path.unicode_len();
    if n < 3 {
        return false;
    }
    file_path.get_char(n - 3) == '.' && file_path.get_char(n - 2) == 'r' && file_path.get_char(
        n - 1,
    ) == 's'
}

/// Whether one recorded tool invocation edits a Rust source file: an `Edit`
/// or `MultiEdit` call whose input carries a `file_path` ending in `.rs`.
pub open spec fn spec_tool_use_edits_rust(t: SpecToolUse) -> bool {
    (t.tool_name == "Edit"@ || t.tool_name == "MultiEdit"@) && match t.tool_input {
        SpecJson::Obj(fs) => match obj_get(fs, "file_path"@) {
            Some(SpecJson::Str(p)) => spec_is_rust_file(p),
            _ => false,
        },
        _ => false,
    }
}

/// Whether any invocation of the list records an edit to a Rust source
/// file.
pub open spec fn spec_tool_uses_edit_rust(ts: Seq<SpecToolUse>) -> bool {
    exists|i: int| 0 <= i < ts.len() && #[trigger] spec_tool_use_edits_rust(ts[i])
}

/// Whether a message's optional tool-use list records such an edit.
pub open spec fn spec_opt_tool_uses_edit_rust(tu: Option<Seq<SpecToolUse>>) -> bool {
    match tu {
        Some(ts) => spec_tool_uses_edit_rust(ts),
        None => false,
    }
}

/// Whether a message records an edit to a Rust source file.
pub open spec fn spec_message_edits_rust(m: SpecMessage) -> bool {
    match m {
        SpecMessage::Assistant { tool_uses, .. } => spec_opt_tool_uses_edit_rust(tool_uses),
        SpecMessage::User { .. } => false,
    }
}

/// Whether an entry records an edit to a Rust source file.
pub open spec fn spec_entry_edits_rust(e: SpecEntry) -> bool {
    match e {
        SpecEntry::Assistant(a) => spec_message_edits_rust(a.message),
        _ => false,
    }
}

/// Whether any entry of the transcript records an edit to a Rust source
/// file.
pub open spec fn spec_has_rust_edits(es: Seq<SpecEntry>) -> bool {
    exists|i: int| 0 <= i < es.len() && #[trigger] spec_entry_edits_rust(es[i])
}

/// Whether one recorded tool invocation edits a Rust source file.
fn tool_use_edits_rust(t: &ToolUse) -> (r: bool)
    ensures
        r == spec_tool_use_edits_rust(t.deep_view()),
{
    if !(str_eq(t.tool_name.as_str(), "Edit") || str_eq(t.tool_name.as_str(), "MultiEdit")) {
        return false;
    }
    match &t.tool_input {
        JsonValue::Obj(fs) => match lookup(fs, "file_path") {
            Some(JsonValue::Str(p)) => is_rust_file(p.as_str()),
            _ => false,
        },
        _ => false,
    }
}

/// Whether a message records an edit to a Rust source file.
fn message_edits_rust(m: &TranscriptMessage) -> (r: bool)
    ensures
        r == spec_message_edits_rust(m.deep_view()),
{
    match m {
        TranscriptMessage::Assistant { tool_uses, .. } => match tool_uses {
            Some(ts) => {
                let ghost gts = ts.deep_view();
                proof {
                    assert(m.deep_view() matches SpecMessage::Assistant { tool_uses: tu, .. }
                        && tu == Some(gts));
                    assert(spec_message_edits_rust(m.deep_view()) == spec_tool_uses_edit_rust(
                        gts,
                    ));
                }
                let n = ts.len();
                for i in 0..n
                    invariant
                        n == ts.len(),
                        gts == ts.deep_view(),
                        gts.len() == n,
                        spec_message_edits_rust(m.deep_view()) == spec_tool_uses_edit_rust(gts),
                        forall|j: int| 0 <= j < i ==> !spec_tool_use_edits_rust(gts[j]),
                {
                    if tool_use_edits_rust(&ts[i]) {
                        proof {
                            assert(spec_tool_use_edits_rust(gts[i as int]));
                        }
                        return true;
                    }
                }
                false
            },
            None => false,
        },
        TranscriptMessage::User { .. } => false,
    }
}

/// Whether an entry records an edit to a Rust source file.
fn entry_edits_rust(e: &TranscriptEntry) -> (r: bool)
    ensures
        r == spec_entry_edits_rust(e.deep_view()),
{
    match e {
        TranscriptEntry::Assistant(a) => message_edits_rust(&a.message),
        _ => false,
    }
}

/// Whether any entry of the transcript records an edit to a Rust source
/// file, as a stop hook checks before letting the agent go.
pub fn has_edited_rust_files(entries: &Vec<TranscriptEntry>) -> (r: bool)
    ensures
        r == spec_has_rust_edits(entries.deep_view()),
{
    let ghost ges = entries.deep_view();
    let n = entries.len();
    for i in 0..n
        invariant
            n == entries.len(),
            ges == entries.deep_view(),
            ges.len() == n,
            forall|j: int| 0 <= j < i ==> !spec_entry_edits_rust(ges[j]),
    {
        if entry_edits_rust(&entries[i]) {
            proof {
                assert(spec_entry_edits_rust(ges[i as int]));
            }
            return true;
        }
    }
    false
}

} // verus!
