//! Decoding a JSON tree into a typed transcript entry.
//!
//! Decoding dispatches on the wire field `type` and, inside a message, on
//! `role`. A required field that is absent, a field of the wrong shape, or an
//! unrecognised discriminant value is a decode failure; keys the model does
//! not know are ignored. Every decoder is pinned to a spec-level counterpart.

use vstd::prelude::*;

use crate::json::JsonField;
use crate::json::JsonValue;
use crate::json::str_eq;
use crate::json::SpecJson;
use crate::json::lookup;
use crate::json::obj_get;
use crate::json::spec_json_obj;
use crate::num::parse_u64;
use crate::num::spec_parse_u64;
use crate::transcript::AssistantEntry;
use crate::transcript::CodeOutput;
use crate::transcript::ContentBlock;
use crate::transcript::MessageContent;
use crate::transcript::SpecAssistantEntry;
use crate::transcript::SpecBlock;
use crate::transcript::SpecCodeOutput;
use crate::transcript::SpecEntry;
use crate::transcript::SpecMessage;
use crate::transcript::SpecSummaryEntry;
use crate::transcript::SpecSystemEntry;
use crate::transcript::SpecToolUse;
use crate::transcript::SpecUserEntry;
use crate::transcript::SummaryEntry;
use crate::transcript::SystemEntry;
use crate::transcript::ToolResultContent;
use crate::transcript::ToolResultItem;
use crate::transcript::ToolUse;
use crate::transcript::TranscriptEntry;
use crate::transcript::TranscriptMessage;
use crate::transcript::UsageInfo;
use crate::transcript::UserEntry;
use crate::transcript::SpecContent;
use crate::transcript::SpecToolResultContent;
use crate::transcript::SpecToolResultItem;
use crate::transcript::SpecUsage;

verus! {

/// Why a JSON tree does not decode to a transcript entry.
#[derive(Debug, Clone, PartialEq)]
pub enum EntryDecodeError {
    /// The tree is not a JSON object.
    NotAnObject,
    /// A required key is absent; the name is the wire name of the key.
    MissingField(String),
    /// A key is present with an unusable shape or value.
    WrongType(String),
    /// The entry discriminant `type` holds this unrecognised value.
    UnknownEntryKind(String),
    /// The message discriminant `role` holds this unrecognised value.
    UnknownRole(String),
    /// The block discriminant `type` holds this unrecognised value.
    UnknownBlockKind(String),
}

/// Model of an [`EntryDecodeError`].
#[verifier::ext_equal]
pub enum SpecDecodeError {
    NotAnObject,
    MissingField(Seq<char>),
    WrongType(Seq<char>),
    UnknownEntryKind(Seq<char>),
    UnknownRole(Seq<char>),
    UnknownBlockKind(Seq<char>),
}

impl DeepView for EntryDecodeError {
    type V = SpecDecodeError;

    open spec fn deep_view(&self) -> SpecDecodeError {
        match self {
            EntryDecodeError::NotAnObject => SpecDecodeError::NotAnObject,
            EntryDecodeError::MissingField(k) => SpecDecodeError::MissingField(k@),
            EntryDecodeError::WrongType(k) => SpecDecodeError::WrongType(k@),
            EntryDecodeError::UnknownEntryKind(t) => SpecDecodeError::UnknownEntryKind(t@),
            EntryDecodeError::UnknownRole(t) => SpecDecodeError::UnknownRole(t@),
            EntryDecodeError::UnknownBlockKind(t) => SpecDecodeError::UnknownBlockKind(t@),
        }
    }
}

/// The deep view of a `Result`, both sides viewed.
pub open spec fn dv_res<T: DeepView, E: DeepView>(r: Result<T, E>) -> Result<T::V, E::V> {
    match r {
        Ok(t) => Ok(t.deep_view()),
        Err(e) => Err(e.deep_view()),
    }
}

/// Decodes the optional content field of a message.
pub open spec fn spec_opt_content(fs: Seq<(Seq<char>, SpecJson)>) -> Result<
    Option<SpecContent>,
    SpecDecodeError,
> {
    let c = spec_opt_json(fs, "content"@);
    match c {
        None => Ok(None),
        Some(v) => match spec_decode_content(v) {
            Err(e) => Err(e),
            Ok(cv) => Ok(Some(cv)),
        },
    }
}

/// A required string field.
pub open spec fn spec_req_str(fs: Seq<(Seq<char>, SpecJson)>, k: Seq<char>) -> Result<
    Seq<char>,
    SpecDecodeError,
> {
    match obj_get(fs, k) {
        None => Err(SpecDecodeError::MissingField(k)),
        Some(SpecJson::Str(s)) => Ok(s),
        Some(_) => Err(SpecDecodeError::WrongType(k)),
    }
}

/// An optional string field: absent or null means none.
pub open spec fn spec_opt_str(fs: Seq<(Seq<char>, SpecJson)>, k: Seq<char>) -> Result<
    Option<Seq<char>>,
    SpecDecodeError,
> {
    match obj_get(fs, k) {
        None => Ok(None),
        Some(SpecJson::Null) => Ok(None),
        Some(SpecJson::Str(s)) => Ok(Some(s)),
        Some(_) => Err(SpecDecodeError::WrongType(k)),
    }
}

/// A required boolean field.
pub open spec fn spec_req_bool(fs: Seq<(Seq<char>, SpecJson)>, k: Seq<char>) -> Result<
    bool,
    SpecDecodeError,
> {
    match obj_get(fs, k) {
        None => Err(SpecDecodeError::MissingField(k)),
        Some(SpecJson::Bool(b)) => Ok(b),
        Some(_) => Err(SpecDecodeError::WrongType(k)),
    }
}

/// An optional boolean field: absent or null means none.
pub open spec fn spec_opt_bool(fs: Seq<(Seq<char>, SpecJson)>, k: Seq<char>) -> Result<
    Option<bool>,
    SpecDecodeError,
> {
    match obj_get(fs, k) {
        None => Ok(None),
        Some(SpecJson::Null) => Ok(None),
        Some(SpecJson::Bool(b)) => Ok(Some(b)),
        Some(_) => Err(SpecDecodeError::WrongType(k)),
    }
}

/// An optional unsigned count field: absent or null means none; a number
/// whose text is not an unsigned 64-bit decimal is unusable.
pub open spec fn spec_opt_u64(fs: Seq<(Seq<char>, SpecJson)>, k: Seq<char>) -> Result<
    Option<u64>,
    SpecDecodeError,
> {
    match obj_get(fs, k) {
        None => Ok(None),
        Some(SpecJson::Null) => Ok(None),
        Some(SpecJson::Num(t)) => match spec_parse_u64(t) {
            Some(n) => Ok(Some(n)),
            None => Err(SpecDecodeError::WrongType(k)),
        },
        Some(_) => Err(SpecDecodeError::WrongType(k)),
    }
}

/// An optional raw payload field: absent or null means none; any other tree
/// is kept as it stands.
pub open spec fn spec_opt_json(fs: Seq<(Seq<char>, SpecJson)>, k: Seq<char>) -> Option<SpecJson> {
    match obj_get(fs, k) {
        None => None,
        Some(SpecJson::Null) => None,
        Some(v) => Some(v),
    }
}

/// A required raw payload field, kept as it stands.
pub open spec fn spec_req_json(fs: Seq<(Seq<char>, SpecJson)>, k: Seq<char>) -> Result<
    SpecJson,
    SpecDecodeError,
> {
    match obj_get(fs, k) {
        None => Err(SpecDecodeError::MissingField(k)),
        Some(v) => Ok(v),
    }
}

/// Reads a required string field.
fn get_req_str(fs: &Vec<JsonField>, k: &str) -> (r: Result<String, EntryDecodeError>)
    ensures
        dv_res(r) == spec_req_str(spec_json_obj(fs@), k@),
{
    match lookup(fs, k) {
        Some(JsonValue::Str(s)) => Ok(s.clone()),
        Some(_) => Err(EntryDecodeError::WrongType(k.to_owned())),
        None => Err(EntryDecodeError::MissingField(k.to_owned())),
    }
}

/// Reads an optional string field.
fn get_opt_str(fs: &Vec<JsonField>, k: &str) -> (r: Result<Option<String>, EntryDecodeError>)
    ensures
        dv_res(r) == spec_opt_str(spec_json_obj(fs@), k@),
{
    match lookup(fs, k) {
        None => Ok(None),
        Some(JsonValue::Null) => Ok(None),
        Some(JsonValue::Str(s)) => Ok(Some(s.clone())),
        Some(_) => Err(EntryDecodeError::WrongType(k.to_owned())),
    }
}

/// Reads a required boolean field.
fn get_req_bool(fs: &Vec<JsonField>, k: &str) -> (r: Result<bool, EntryDecodeError>)
    ensures
        dv_res(r) == spec_req_bool(spec_json_obj(fs@), k@),
{
    match lookup(fs, k) {
        None => Err(EntryDecodeError::MissingField(k.to_owned())),
        Some(JsonValue::Bool(b)) => Ok(*b),
        Some(_) => Err(EntryDecodeError::WrongType(k.to_owned())),
    }
}

/// Reads an optional boolean field.
fn get_opt_bool(fs: &Vec<JsonField>, k: &str) -> (r: Result<Option<bool>, EntryDecodeError>)
    ensures
        dv_res(r) == spec_opt_bool(spec_json_obj(fs@), k@),
{
    match lookup(fs, k) {
        None => Ok(None),
        Some(JsonValue::Null) => Ok(None),
        Some(JsonValue::Bool(b)) => Ok(Some(*b)),
        Some(_) => Err(EntryDecodeError::WrongType(k.to_owned())),
    }
}

/// Reads an optional unsigned count field.
fn get_opt_u64(fs: &Vec<JsonField>, k: &str) -> (r: Result<Option<u64>, EntryDecodeError>)
    ensures
        dv_res(r) == spec_opt_u64(spec_json_obj(fs@), k@),
{
    match lookup(fs, k) {
        None => Ok(None),
        Some(JsonValue::Null) => Ok(None),
        Some(JsonValue::Num(t)) => match parse_u64(t.as_str()) {
            Some(n) => Ok(Some(n)),
            None => Err(EntryDecodeError::WrongType(k.to_owned())),
        },
        Some(_) => Err(EntryDecodeError::WrongType(k.to_owned())),
    }
}

/// Reads an optional raw payload field.
fn get_opt_json(fs: &Vec<JsonField>, k: &str) -> (r: Option<JsonValue>)
    ensures
        r.deep_view() == spec_opt_json(spec_json_obj(fs@), k@),
{
    match lookup(fs, k) {
        None => None,
        Some(JsonValue::Null) => None,
        Some(v) => Some(v.clone()),
    }
}

/// Reads a required raw payload field.
fn get_req_json(fs: &Vec<JsonField>, k: &str) -> (r: Result<JsonValue, EntryDecodeError>)
    ensures
        dv_res(r) == spec_req_json(spec_json_obj(fs@), k@),
{
    match lookup(fs, k) {
        None => Err(EntryDecodeError::MissingField(k.to_owned())),
        Some(v) => Ok(v.clone()),
    }
}


/// Decodes token counts and cache statistics; every field is optional.
pub open spec fn spec_decode_usage(fs: Seq<(Seq<char>, SpecJson)>) -> Result<
    SpecUsage,
    SpecDecodeError,
> {
    let c1 = spec_opt_u64(fs, "cache_creation_input_tokens"@);
    let c2 = spec_opt_u64(fs, "cache_read_input_tokens"@);
    let it = spec_opt_u64(fs, "input_tokens"@);
    let ot = spec_opt_u64(fs, "output_tokens"@);
    let st = spec_opt_str(fs, "service_tier"@);
    if c1 is Err {
        Err(c1->Err_0)
    } else if c2 is Err {
        Err(c2->Err_0)
    } else if it is Err {
        Err(it->Err_0)
    } else if ot is Err {
        Err(ot->Err_0)
    } else if st is Err {
        Err(st->Err_0)
    } else {
        Ok(SpecUsage {
            cache_creation_input_tokens: c1->Ok_0,
            cache_read_input_tokens: c2->Ok_0,
            input_tokens: it->Ok_0,
            output_tokens: ot->Ok_0,
            service_tier: st->Ok_0,
        })
    }
}

/// Decodes one item of a structured tool result.
pub open spec fn spec_decode_item(v: SpecJson) -> Result<SpecToolResultItem, SpecDecodeError> {
    match v {
        SpecJson::Obj(fs) => {
            let it = spec_req_str(fs, "type"@);
            let tx = spec_req_str(fs, "text"@);
            if it is Err {
                Err(it->Err_0)
            } else if tx is Err {
                Err(tx->Err_0)
            } else {
                Ok(SpecToolResultItem { item_type: it->Ok_0, text: tx->Ok_0 })
            }
        },
        _ => Err(SpecDecodeError::NotAnObject),
    }
}

/// Decodes a list of tool-result items; the first failure wins.
pub open spec fn spec_decode_items(xs: Seq<SpecJson>) -> Result<
    Seq<SpecToolResultItem>,
    SpecDecodeError,
>
    decreases xs.len(),
{
    if xs.len() == 0 {
        Ok(Seq::empty())
    } else {
        match spec_decode_items(xs.drop_last()) {
            Err(e) => Err(e),
            Ok(rest) => match spec_decode_item(xs.last()) {
                Err(e) => Err(e),
                Ok(it) => Ok(rest.push(it)),
            },
        }
    }
}

/// Decodes the content of a tool result: a bare string or a list of items.
pub open spec fn spec_decode_tool_result_content(v: SpecJson) -> Result<
    SpecToolResultContent,
    SpecDecodeError,
> {
    match v {
        SpecJson::Str(t) => Ok(SpecToolResultContent::Text(t)),
        SpecJson::Arr(xs) => match spec_decode_items(xs) {
            Err(e) => Err(e),
            Ok(items) => Ok(SpecToolResultContent::Array(items)),
        },
        _ => Err(SpecDecodeError::WrongType("content"@)),
    }
}

/// Decodes one content block, dispatching on the wire field `type`.
pub open spec fn spec_decode_block(v: SpecJson) -> Result<SpecBlock, SpecDecodeError> {
    match v {
        SpecJson::Obj(fs) => match obj_get(fs, "type"@) {
            None => Err(SpecDecodeError::MissingField("type"@)),
            Some(SpecJson::Str(t)) => if t == "text"@ {
                match spec_req_str(fs, "text"@) {
                    Err(e) => Err(e),
                    Ok(text) => Ok(SpecBlock::Text { text }),
                }
            } else if t == "tool_use"@ {
                let id = spec_req_str(fs, "id"@);
                let name = spec_req_str(fs, "name"@);
                let input = spec_req_json(fs, "input"@);
                if id is Err {
                    Err(id->Err_0)
                } else if name is Err {
                    Err(name->Err_0)
                } else if input is Err {
                    Err(input->Err_0)
                } else {
                    Ok(SpecBlock::ToolUse { id: id->Ok_0, name: name->Ok_0, input: input->Ok_0 })
                }
            } else if t == "tool_result"@ {
                let tid = spec_req_str(fs, "tool_use_id"@);
                let content = match obj_get(fs, "content"@) {
                    None => Err(SpecDecodeError::MissingField("content"@)),
                    Some(cv) => spec_decode_tool_result_content(cv),
                };
                let is_error = spec_opt_bool(fs, "is_error"@);
                if tid is Err {
                    Err(tid->Err_0)
                } else if content is Err {
                    Err(content->Err_0)
                } else if is_error is Err {
                    Err(is_error->Err_0)
                } else {
                    Ok(SpecBlock::ToolResult {
                        tool_use_id: tid->Ok_0,
                        content: content->Ok_0,
                        is_error: is_error->Ok_0,
                    })
                }
            } else if t == "thinking"@ {
                let thinking = spec_req_str(fs, "thinking"@);
                let signature = spec_opt_str(fs, "signature"@);
                if thinking is Err {
                    Err(thinking->Err_0)
                } else if signature is Err {
                    Err(signature->Err_0)
                } else {
                    Ok(SpecBlock::Thinking { thinking: thinking->Ok_0, signature: signature->Ok_0 })
                }
            } else {
                Err(SpecDecodeError::UnknownBlockKind(t))
            },
            Some(_) => Err(SpecDecodeError::WrongType("type"@)),
        },
        _ => Err(SpecDecodeError::NotAnObject),
    }
}

/// Decodes a list of content blocks; the first failure wins.
pub open spec fn spec_decode_blocks(xs: Seq<SpecJson>) -> Result<Seq<SpecBlock>, SpecDecodeError>
    decreases xs.len(),
{
    if xs.len() == 0 {
        Ok(Seq::empty())
    } else {
        match spec_decode_blocks(xs.drop_last()) {
            Err(e) => Err(e),
            Ok(rest) => match spec_decode_block(xs.last()) {
                Err(e) => Err(e),
                Ok(b) => Ok(rest.push(b)),
            },
        }
    }
}

/// Decodes message content: a bare string or an array of blocks.
pub open spec fn spec_decode_content(v: SpecJson) -> Result<SpecContent, SpecDecodeError> {
    match v {
        SpecJson::Str(t) => Ok(SpecContent::Text(t)),
        SpecJson::Arr(xs) => match spec_decode_blocks(xs) {
            Err(e) => Err(e),
            Ok(bs) => Ok(SpecContent::Blocks(bs)),
        },
        _ => Err(SpecDecodeError::WrongType("content"@)),
    }
}


/// Decodes one recorded tool invocation.
pub open spec fn spec_decode_tool_use(v: SpecJson) -> Result<SpecToolUse, SpecDecodeError> {
    match v {
        SpecJson::Obj(fs) => {
            let name = spec_req_str(fs, "toolName"@);
            let input = spec_req_json(fs, "toolInput"@);
            if name is Err {
                Err(name->Err_0)
            } else if input is Err {
                Err(input->Err_0)
            } else {
                Ok(SpecToolUse {
                    tool_name: name->Ok_0,
                    tool_input: input->Ok_0,
                    tool_output: spec_opt_json(fs, "toolOutput"@),
                })
            }
        },
        _ => Err(SpecDecodeError::NotAnObject),
    }
}

/// Decodes a list of recorded tool invocations; the first failure wins.
pub open spec fn spec_decode_tool_uses(xs: Seq<SpecJson>) -> Result<Seq<SpecToolUse>, SpecDecodeError>
    decreases xs.len(),
{
    if xs.len() == 0 {
        Ok(Seq::empty())
    } else {
        match spec_decode_tool_uses(xs.drop_last()) {
            Err(e) => Err(e),
            Ok(rest) => match spec_decode_tool_use(xs.last()) {
                Err(e) => Err(e),
                Ok(t) => Ok(rest.push(t)),
            },
        }
    }
}

/// Decodes one recorded code execution.
pub open spec fn spec_decode_code_output(v: SpecJson) -> Result<SpecCodeOutput, SpecDecodeError> {
    match v {
        SpecJson::Obj(fs) => {
            let code = spec_req_str(fs, "code"@);
            let output = spec_opt_str(fs, "output"@);
            let language = spec_opt_str(fs, "language"@);
            if code is Err {
                Err(code->Err_0)
            } else if output is Err {
                Err(output->Err_0)
            } else if language is Err {
                Err(language->Err_0)
            } else {
                Ok(SpecCodeOutput {
                    code: code->Ok_0,
                    output: output->Ok_0,
                    language: language->Ok_0,
                })
            }
        },
        _ => Err(SpecDecodeError::NotAnObject),
    }
}

/// Decodes a list of recorded code executions; the first failure wins.
pub open spec fn spec_decode_code_outputs(xs: Seq<SpecJson>) -> Result<
    Seq<SpecCodeOutput>,
    SpecDecodeError,
>
    decreases xs.len(),
{
    if xs.len() == 0 {
        Ok(Seq::empty())
    } else {
        match spec_decode_code_outputs(xs.drop_last()) {
            Err(e) => Err(e),
            Ok(rest) => match spec_decode_code_output(xs.last()) {
                Err(e) => Err(e),
                Ok(c) => Ok(rest.push(c)),
            },
        }
    }
}

/// Decodes the optional tool-use list of an assistant message.
pub open spec fn spec_opt_tool_uses(fs: Seq<(Seq<char>, SpecJson)>) -> Result<
    Option<Seq<SpecToolUse>>,
    SpecDecodeError,
> {
    let v = spec_opt_json(fs, "tool_uses"@);
    match v {
        None => Ok(None),
        Some(SpecJson::Arr(xs)) => match spec_decode_tool_uses(xs) {
            Err(e) => Err(e),
            Ok(ts) => Ok(Some(ts)),
        },
        Some(_) => Err(SpecDecodeError::WrongType("tool_uses"@)),
    }
}

/// Decodes the optional code-output list of an assistant message.
pub open spec fn spec_opt_code_outputs(fs: Seq<(Seq<char>, SpecJson)>) -> Result<
    Option<Seq<SpecCodeOutput>>,
    SpecDecodeError,
> {
    let v = spec_opt_json(fs, "code_outputs"@);
    match v {
        None => Ok(None),
        Some(SpecJson::Arr(xs)) => match spec_decode_code_outputs(xs) {
            Err(e) => Err(e),
            Ok(cs) => Ok(Some(cs)),
        },
        Some(_) => Err(SpecDecodeError::WrongType("code_outputs"@)),
    }
}

/// Decodes the mandatory usage record of an assistant message.
pub open spec fn spec_req_usage(fs: Seq<(Seq<char>, SpecJson)>) -> Result<
    SpecUsage,
    SpecDecodeError,
> {
    let v = obj_get(fs, "usage"@);
    match v {
        None => Err(SpecDecodeError::MissingField("usage"@)),
        Some(SpecJson::Obj(ufs)) => spec_decode_usage(ufs),
        Some(_) => Err(SpecDecodeError::WrongType("usage"@)),
    }
}

/// Decodes a message object, dispatching on the wire field `role`.
pub open spec fn spec_decode_message(fs: Seq<(Seq<char>, SpecJson)>) -> Result<
    SpecMessage,
    SpecDecodeError,
> {
    let role = spec_req_str(fs, "role"@);
    if role is Err {
        Err(role->Err_0)
    } else if role->Ok_0 == "user"@ {
        match spec_opt_content(fs) {
            Err(e) => Err(e),
            Ok(content) => Ok(SpecMessage::User { content }),
        }
    } else if role->Ok_0 == "assistant"@ {
        let id = spec_req_str(fs, "id"@);
        let message_type = spec_req_str(fs, "type"@);
        let model = spec_req_str(fs, "model"@);
        let content = spec_opt_content(fs);
        let thinking = spec_opt_str(fs, "thinking"@);
        let tool_uses = spec_opt_tool_uses(fs);
        let code_outputs = spec_opt_code_outputs(fs);
        let stop_reason = spec_opt_str(fs, "stop_reason"@);
        let stop_sequence = spec_opt_str(fs, "stop_sequence"@);
        let usage = spec_req_usage(fs);
        if id is Err {
            Err(id->Err_0)
        } else if message_type is Err {
            Err(message_type->Err_0)
        } else if model is Err {
            Err(model->Err_0)
        } else if content is Err {
            Err(content->Err_0)
        } else if thinking is Err {
            Err(thinking->Err_0)
        } else if tool_uses is Err {
            Err(tool_uses->Err_0)
        } else if code_outputs is Err {
            Err(code_outputs->Err_0)
        } else if stop_reason is Err {
            Err(stop_reason->Err_0)
        } else if stop_sequence is Err {
            Err(stop_sequence->Err_0)
        } else if usage is Err {
            Err(usage->Err_0)
        } else {
            Ok(SpecMessage::Assistant {
                id: id->Ok_0,
                message_type: message_type->Ok_0,
                model: model->Ok_0,
                content: content->Ok_0,
                thinking: thinking->Ok_0,
                tool_uses: tool_uses->Ok_0,
                code_outputs: code_outputs->Ok_0,
                stop_reason: stop_reason->Ok_0,
                stop_sequence: stop_sequence->Ok_0,
                usage: usage->Ok_0,
            })
        }
    } else {
        Err(SpecDecodeError::UnknownRole(role->Ok_0))
    }
}

/// Decodes the mandatory message field of a user or assistant entry.
pub open spec fn spec_req_message(fs: Seq<(Seq<char>, SpecJson)>) -> Result<
    SpecMessage,
    SpecDecodeError,
> {
    let v = obj_get(fs, "message"@);
    match v {
        None => Err(SpecDecodeError::MissingField("message"@)),
        Some(SpecJson::Obj(mfs)) => spec_decode_message(mfs),
        Some(_) => Err(SpecDecodeError::WrongType("message"@)),
    }
}

/// Decodes the fields of a user entry.
pub open spec fn spec_decode_user(fs: Seq<(Seq<char>, SpecJson)>) -> Result<
    SpecUserEntry,
    SpecDecodeError,
> {
    let uuid = spec_req_str(fs, "uuid"@);
    let timestamp = spec_req_str(fs, "timestamp"@);
    let message = spec_req_message(fs);
    let cwd = spec_req_str(fs, "cwd"@);
    let session_id = spec_req_str(fs, "sessionId"@);
    let version = spec_req_str(fs, "version"@);
    let user_type = spec_req_str(fs, "userType"@);
    let is_sidechain = spec_req_bool(fs, "isSidechain"@);
    let parent_uuid = spec_opt_str(fs, "parentUuid"@);
    if uuid is Err {
        Err(uuid->Err_0)
    } else if timestamp is Err {
        Err(timestamp->Err_0)
    } else if message is Err {
        Err(message->Err_0)
    } else if cwd is Err {
        Err(cwd->Err_0)
    } else if session_id is Err {
        Err(session_id->Err_0)
    } else if version is Err {
        Err(version->Err_0)
    } else if user_type is Err {
        Err(user_type->Err_0)
    } else if is_sidechain is Err {
        Err(is_sidechain->Err_0)
    } else if parent_uuid is Err {
        Err(parent_uuid->Err_0)
    } else {
        Ok(SpecUserEntry {
            uuid: uuid->Ok_0,
            timestamp: timestamp->Ok_0,
            message: message->Ok_0,
            cwd: cwd->Ok_0,
            session_id: session_id->Ok_0,
            version: version->Ok_0,
            user_type: user_type->Ok_0,
            is_sidechain: is_sidechain->Ok_0,
            parent_uuid: parent_uuid->Ok_0,
            tool_use_result: spec_opt_json(fs, "toolUseResult"@),
        })
    }
}

/// Decodes the fields of an assistant entry.
pub open spec fn spec_decode_assistant(fs: Seq<(Seq<char>, SpecJson)>) -> Result<
    SpecAssistantEntry,
    SpecDecodeError,
> {
    let uuid = spec_req_str(fs, "uuid"@);
    let timestamp = spec_req_str(fs, "timestamp"@);
    let message = spec_req_message(fs);
    let cwd = spec_req_str(fs, "cwd"@);
    let session_id = spec_req_str(fs, "sessionId"@);
    let version = spec_req_str(fs, "version"@);
    let user_type = spec_req_str(fs, "userType"@);
    let is_sidechain = spec_req_bool(fs, "isSidechain"@);
    let parent_uuid = spec_req_str(fs, "parentUuid"@);
    let request_id = spec_opt_str(fs, "requestId"@);
    let is_api_error = spec_opt_bool(fs, "isApiErrorMessage"@);
    if uuid is Err {
        Err(uuid->Err_0)
    } else if timestamp is Err {
        Err(timestamp->Err_0)
    } else if message is Err {
        Err(message->Err_0)
    } else if cwd is Err {
        Err(cwd->Err_0)
    } else if session_id is Err {
        Err(session_id->Err_0)
    } else if version is Err {
        Err(version->Err_0)
    } else if user_type is Err {
        Err(user_type->Err_0)
    } else if is_sidechain is Err {
        Err(is_sidechain->Err_0)
    } else if parent_uuid is Err {
        Err(parent_uuid->Err_0)
    } else if request_id is Err {
        Err(request_id->Err_0)
    } else if is_api_error is Err {
        Err(is_api_error->Err_0)
    } else {
        Ok(SpecAssistantEntry {
            uuid: uuid->Ok_0,
            timestamp: timestamp->Ok_0,
            message: message->Ok_0,
            cwd: cwd->Ok_0,
            session_id: session_id->Ok_0,
            version: version->Ok_0,
            user_type: user_type->Ok_0,
            is_sidechain: is_sidechain->Ok_0,
            parent_uuid: parent_uuid->Ok_0,
            request_id: request_id->Ok_0,
            is_api_error_message: is_api_error->Ok_0,
        })
    }
}

/// Decodes the fields of a summary entry.
pub open spec fn spec_decode_summary(fs: Seq<(Seq<char>, SpecJson)>) -> Result<
    SpecSummaryEntry,
    SpecDecodeError,
> {
    let summary = spec_req_str(fs, "summary"@);
    let leaf_uuid = spec_req_str(fs, "leafUuid"@);
    if summary is Err {
        Err(summary->Err_0)
    } else if leaf_uuid is Err {
        Err(leaf_uuid->Err_0)
    } else {
        Ok(SpecSummaryEntry { summary: summary->Ok_0, leaf_uuid: leaf_uuid->Ok_0 })
    }
}

/// Decodes the fields of a system entry.
pub open spec fn spec_decode_system(fs: Seq<(Seq<char>, SpecJson)>) -> Result<
    SpecSystemEntry,
    SpecDecodeError,
> {
    let uuid = spec_req_str(fs, "uuid"@);
    let timestamp = spec_req_str(fs, "timestamp"@);
    let content = spec_req_str(fs, "content"@);
    let cwd = spec_req_str(fs, "cwd"@);
    let session_id = spec_req_str(fs, "sessionId"@);
    let version = spec_req_str(fs, "version"@);
    let user_type = spec_req_str(fs, "userType"@);
    let is_sidechain = spec_req_bool(fs, "isSidechain"@);
    let parent_uuid = spec_req_str(fs, "parentUuid"@);
    let is_meta = spec_req_bool(fs, "isMeta"@);
    let level = spec_opt_str(fs, "level"@);
    let tool_use_id = spec_opt_str(fs, "toolUseID"@);
    if uuid is Err {
        Err(uuid->Err_0)
    } else if timestamp is Err {
        Err(timestamp->Err_0)
    } else if content is Err {
        Err(content->Err_0)
    } else if cwd is Err {
        Err(cwd->Err_0)
    } else if session_id is Err {
        Err(session_id->Err_0)
    } else if version is Err {
        Err(version->Err_0)
    } else if user_type is Err {
        Err(user_type->Err_0)
    } else if is_sidechain is Err {
        Err(is_sidechain->Err_0)
    } else if parent_uuid is Err {
        Err(parent_uuid->Err_0)
    } else if is_meta is Err {
        Err(is_meta->Err_0)
    } else if level is Err {
        Err(level->Err_0)
    } else if tool_use_id is Err {
        Err(tool_use_id->Err_0)
    } else {
        Ok(SpecSystemEntry {
            uuid: uuid->Ok_0,
            timestamp: timestamp->Ok_0,
            content: content->Ok_0,
            cwd: cwd->Ok_0,
            session_id: session_id->Ok_0,
            version: version->Ok_0,
            user_type: user_type->Ok_0,
            is_sidechain: is_sidechain->Ok_0,
            parent_uuid: parent_uuid->Ok_0,
            is_meta: is_meta->Ok_0,
            level: level->Ok_0,
            tool_use_id: tool_use_id->Ok_0,
        })
    }
}

/// Decodes a whole entry, dispatching on the wire field `type`.
pub open spec fn spec_decode_entry(v: SpecJson) -> Result<SpecEntry, SpecDecodeError> {
    match v {
        SpecJson::Obj(fs) => {
            let t = obj_get(fs, "type"@);
            match t {
                None => Err(SpecDecodeError::MissingField("type"@)),
                Some(SpecJson::Str(tag)) => spec_decode_tagged(fs, tag),
                Some(_) => Err(SpecDecodeError::WrongType("type"@)),
            }
        },
        _ => Err(SpecDecodeError::NotAnObject),
    }
}

/// Decodes an entry whose discriminant value is `tag`.
pub open spec fn spec_decode_tagged(fs: Seq<(Seq<char>, SpecJson)>, tag: Seq<char>) -> Result<
    SpecEntry,
    SpecDecodeError,
> {
    if tag == "user"@ {
        match spec_decode_user(fs) {
            Err(e) => Err(e),
            Ok(u) => Ok(SpecEntry::User(u)),
        }
    } else if tag == "assistant"@ {
        match spec_decode_assistant(fs) {
            Err(e) => Err(e),
            Ok(a) => Ok(SpecEntry::Assistant(a)),
        }
    } else if tag == "summary"@ {
        match spec_decode_summary(fs) {
            Err(e) => Err(e),
            Ok(s) => Ok(SpecEntry::Summary(s)),
        }
    } else if tag == "system"@ {
        match spec_decode_system(fs) {
            Err(e) => Err(e),
            Ok(s) => Ok(SpecEntry::System(s)),
        }
    } else {
        Err(SpecDecodeError::UnknownEntryKind(tag))
    }
}


/// A failing prefix decides the whole item list.
proof fn lemma_decode_items_err(xs: Seq<SpecJson>, j: int)
    requires
        0 <= j <= xs.len(),
        spec_decode_items(xs.take(j)) is Err,
    ensures
        spec_decode_items(xs) == spec_decode_items(xs.take(j)),
    decreases xs.len() - j,
{
    if j < xs.len() {
        assert(xs.take(j + 1).drop_last() =~= xs.take(j));
        lemma_decode_items_err(xs, j + 1);
    } else {
        assert(xs.take(j) =~= xs);
    }
}

/// A failing prefix decides the whole block list.
proof fn lemma_decode_blocks_err(xs: Seq<SpecJson>, j: int)
    requires
        0 <= j <= xs.len(),
        spec_decode_blocks(xs.take(j)) is Err,
    ensures
        spec_decode_blocks(xs) == spec_decode_blocks(xs.take(j)),
    decreases xs.len() - j,
{
    if j < xs.len() {
        assert(xs.take(j + 1).drop_last() =~= xs.take(j));
        lemma_decode_blocks_err(xs, j + 1);
    } else {
        assert(xs.take(j) =~= xs);
    }
}

/// A failing prefix decides the whole tool-use list.
proof fn lemma_decode_tool_uses_err(xs: Seq<SpecJson>, j: int)
    requires
        0 <= j <= xs.len(),
        spec_decode_tool_uses(xs.take(j)) is Err,
    ensures
        spec_decode_tool_uses(xs) == spec_decode_tool_uses(xs.take(j)),
    decreases xs.len() - j,
{
    if j < xs.len() {
        assert(xs.take(j + 1).drop_last() =~= xs.take(j));
        lemma_decode_tool_uses_err(xs, j + 1);
    } else {
        assert(xs.take(j) =~= xs);
    }
}

/// A failing prefix decides the whole code-output list.
proof fn lemma_decode_code_outputs_err(xs: Seq<SpecJson>, j: int)
    requires
        0 <= j <= xs.len(),
        spec_decode_code_outputs(xs.take(j)) is Err,
    ensures
        spec_decode_code_outputs(xs) == spec_decode_code_outputs(xs.take(j)),
    decreases xs.len() - j,
{
    if j < xs.len() {
        assert(xs.take(j + 1).drop_last() =~= xs.take(j));
        lemma_decode_code_outputs_err(xs, j + 1);
    } else {
        assert(xs.take(j) =~= xs);
    }
}

/// Decodes one item of a structured tool result.
fn decode_item(v: &JsonValue) -> (r: Result<ToolResultItem, EntryDecodeError>)
    ensures
        dv_res(r) == spec_decode_item(v.deep_view()),
{
    match v {
        JsonValue::Obj(fs) => {
            let item_type = match get_req_str(fs, "type") {
                Ok(s) => s,
                Err(e) => return Err(e),
            };
            let text = match get_req_str(fs, "text") {
                Ok(s) => s,
                Err(e) => return Err(e),
            };
            Ok(ToolResultItem { item_type, text })
        },
        _ => Err(EntryDecodeError::NotAnObject),
    }
}

/// Decodes a list of tool-result items; the first failure wins.
fn decode_items(xs: &Vec<JsonValue>) -> (r: Result<Vec<ToolResultItem>, EntryDecodeError>)
    ensures
        dv_res(r) == spec_decode_items(crate::json::spec_json_arr(xs@)),
{
    let ghost gxs = crate::json::spec_json_arr(xs@);
    proof {
        crate::json::lemma_spec_json_arr(xs@);
    }
    let mut out: Vec<ToolResultItem> = Vec::new();
    let n = xs.len();
    proof {
        assert(gxs.take(0) =~= Seq::<SpecJson>::empty());
        assert(out.deep_view() =~= Seq::<SpecToolResultItem>::empty());
    }
    for i in 0..n
        invariant
            n == xs.len(),
            gxs == crate::json::spec_json_arr(xs@),
            gxs.len() == n,
            forall|j: int| 0 <= j < n ==> gxs[j] == crate::json::spec_json_of(xs@[j]),
            spec_decode_items(gxs.take(i as int)) == Ok::<_, SpecDecodeError>(out.deep_view()),
    {
        let ghost prev = out.deep_view();
        match decode_item(&xs[i]) {
            Ok(it) => {
                let ghost git = it.deep_view();
                out.push(it);
                proof {
                    assert(gxs.take(i + 1).drop_last() =~= gxs.take(i as int));
                    assert(gxs.take(i + 1).last() == gxs[i as int]);
                    assert(out.deep_view() =~= prev.push(git));
                }
            },
            Err(e) => {
                proof {
                    assert(gxs.take(i + 1).drop_last() =~= gxs.take(i as int));
                    assert(gxs.take(i + 1).last() == gxs[i as int]);
                    assert(spec_decode_items(gxs.take(i + 1)) == Err::<Seq<SpecToolResultItem>, _>(
                        e.deep_view(),
                    ));
                    lemma_decode_items_err(gxs, i + 1);
                }
                return Err(e);
            },
        }
    }
    proof {
        assert(gxs.take(n as int) =~= gxs);
    }
    Ok(out)
}

/// Decodes the content of a tool result.
fn decode_tool_result_content(v: &JsonValue) -> (r: Result<ToolResultContent, EntryDecodeError>)
    ensures
        dv_res(r) == spec_decode_tool_result_content(v.deep_view()),
{
    match v {
        JsonValue::Str(t) => Ok(ToolResultContent::Text(t.clone())),
        JsonValue::Arr(xs) => match decode_items(xs) {
            Ok(items) => Ok(ToolResultContent::Array(items)),
            Err(e) => Err(e),
        },
        _ => Err(EntryDecodeError::WrongType("content".to_owned())),
    }
}

/// Decodes one content block.
fn decode_block(v: &JsonValue) -> (r: Result<ContentBlock, EntryDecodeError>)
    ensures
        dv_res(r) == spec_decode_block(v.deep_view()),
{
    match v {
        JsonValue::Obj(fs) => {
            let tag = match lookup(fs, "type") {
                None => return Err(EntryDecodeError::MissingField("type".to_owned())),
                Some(JsonValue::Str(t)) => t,
                Some(_) => return Err(EntryDecodeError::WrongType("type".to_owned())),
            };
            if str_eq(tag.as_str(), "text") {
                let text = match get_req_str(fs, "text") {
                    Ok(s) => s,
                    Err(e) => return Err(e),
                };
                Ok(ContentBlock::Text { text })
            } else if str_eq(tag.as_str(), "tool_use") {
                let id = match get_req_str(fs, "id") {
                    Ok(s) => s,
                    Err(e) => return Err(e),
                };
                let name = match get_req_str(fs, "name") {
                    Ok(s) => s,
                    Err(e) => return Err(e),
                };
                let input = match get_req_json(fs, "input") {
                    Ok(j) => j,
                    Err(e) => return Err(e),
                };
                Ok(ContentBlock::ToolUse { id, name, input })
            } else if str_eq(tag.as_str(), "tool_result") {
                let tool_use_id = match get_req_str(fs, "tool_use_id") {
                    Ok(s) => s,
                    Err(e) => return Err(e),
                };
                let content = match lookup(fs, "content") {
                    None => return Err(EntryDecodeError::MissingField("content".to_owned())),
                    Some(cv) => match decode_tool_result_content(cv) {
                        Ok(c) => c,
                        Err(e) => return Err(e),
                    },
                };
                let is_error = match get_opt_bool(fs, "is_error") {
                    Ok(b) => b,
                    Err(e) => return Err(e),
                };
                Ok(ContentBlock::ToolResult { tool_use_id, content, is_error })
            } else if str_eq(tag.as_str(), "thinking") {
                let thinking = match get_req_str(fs, "thinking") {
                    Ok(s) => s,
                    Err(e) => return Err(e),
                };
                let signature = match get_opt_str(fs, "signature") {
                    Ok(s) => s,
                    Err(e) => return Err(e),
                };
                Ok(ContentBlock::Thinking { thinking, signature })
            } else {
                Err(EntryDecodeError::UnknownBlockKind(tag.clone()))
            }
        },
        _ => Err(EntryDecodeError::NotAnObject),
    }
}

/// Decodes a list of content blocks; the first failure wins.
fn decode_blocks(xs: &Vec<JsonValue>) -> (r: Result<Vec<ContentBlock>, EntryDecodeError>)
    ensures
        dv_res(r) == spec_decode_blocks(crate::json::spec_json_arr(xs@)),
{
    let ghost gxs = crate::json::spec_json_arr(xs@);
    proof {
        crate::json::lemma_spec_json_arr(xs@);
    }
    let mut out: Vec<ContentBlock> = Vec::new();
    let n = xs.len();
    proof {
        assert(gxs.take(0) =~= Seq::<SpecJson>::empty());
        assert(out.deep_view() =~= Seq::<SpecBlock>::empty());
    }
    for i in 0..n
        invariant
            n == xs.len(),
            gxs == crate::json::spec_json_arr(xs@),
            gxs.len() == n,
            forall|j: int| 0 <= j < n ==> gxs[j] == crate::json::spec_json_of(xs@[j]),
            spec_decode_blocks(gxs.take(i as int)) == Ok::<_, SpecDecodeError>(out.deep_view()),
    {
        let ghost prev = out.deep_view();
        match decode_block(&xs[i]) {
            Ok(b) => {
                let ghost gb = b.deep_view();
                out.push(b);
                proof {
                    assert(gxs.take(i + 1).drop_last() =~= gxs.take(i as int));
                    assert(gxs.take(i + 1).last() == gxs[i as int]);
                    assert(out.deep_view() =~= prev.push(gb));
                }
            },
            Err(e) => {
                proof {
                    assert(gxs.take(i + 1).drop_last() =~= gxs.take(i as int));
                    assert(gxs.take(i + 1).last() == gxs[i as int]);
                    assert(spec_decode_blocks(gxs.take(i + 1)) == Err::<Seq<SpecBlock>, _>(
                        e.deep_view(),
                    ));
                    lemma_decode_blocks_err(gxs, i + 1);
                }
                return Err(e);
            },
        }
    }
    proof {
        assert(gxs.take(n as int) =~= gxs);
    }
    Ok(out)
}

/// Decodes message content.
fn decode_content(v: &JsonValue) -> (r: Result<MessageContent, EntryDecodeError>)
    ensures
        dv_res(r) == spec_decode_content(v.deep_view()),
{
    match v {
        JsonValue::Str(t) => Ok(MessageContent::Text(t.clone())),
        JsonValue::Arr(xs) => match decode_blocks(xs) {
            Ok(bs) => Ok(MessageContent::Blocks(bs)),
            Err(e) => Err(e),
        },
        _ => Err(EntryDecodeError::WrongType("content".to_owned())),
    }
}

/// Reads and decodes the optional content field of a message.
fn dec_opt_content(fs: &Vec<JsonField>) -> (r: Result<Option<MessageContent>, EntryDecodeError>)
    ensures
        dv_res(r) == spec_opt_content(spec_json_obj(fs@)),
{
    match lookup(fs, "content") {
        None => Ok(None),
        Some(JsonValue::Null) => Ok(None),
        Some(v) => match decode_content(v) {
            Ok(c) => Ok(Some(c)),
            Err(e) => Err(e),
        },
    }
}

/// Decodes one recorded tool invocation.
fn decode_tool_use(v: &JsonValue) -> (r: Result<ToolUse, EntryDecodeError>)
    ensures
        dv_res(r) == spec_decode_tool_use(v.deep_view()),
{
    match v {
        JsonValue::Obj(fs) => {
            let tool_name = match get_req_str(fs, "toolName") {
                Ok(s) => s,
                Err(e) => return Err(e),
            };
            let tool_input = match get_req_json(fs, "toolInput") {
                Ok(j) => j,
                Err(e) => return Err(e),
            };
            let tool_output = get_opt_json(fs, "toolOutput");
            Ok(ToolUse { tool_name, tool_input, tool_output })
        },
        _ => Err(EntryDecodeError::NotAnObject),
    }
}

/// Decodes a list of recorded tool invocations; the first failure wins.
fn decode_tool_uses(xs: &Vec<JsonValue>) -> (r: Result<Vec<ToolUse>, EntryDecodeError>)
    ensures
        dv_res(r) == spec_decode_tool_uses(crate::json::spec_json_arr(xs@)),
{
    let ghost gxs = crate::json::spec_json_arr(xs@);
    proof {
        crate::json::lemma_spec_json_arr(xs@);
    }
    let mut out: Vec<ToolUse> = Vec::new();
    let n = xs.len();
    proof {
        assert(gxs.take(0) =~= Seq::<SpecJson>::empty());
        assert(out.deep_view() =~= Seq::<SpecToolUse>::empty());
    }
    for i in 0..n
        invariant
            n == xs.len(),
            gxs == crate::json::spec_json_arr(xs@),
            gxs.len() == n,
            forall|j: int| 0 <= j < n ==> gxs[j] == crate::json::spec_json_of(xs@[j]),
            spec_decode_tool_uses(gxs.take(i as int)) == Ok::<_, SpecDecodeError>(out.deep_view()),
    {
        let ghost prev = out.deep_view();
        match decode_tool_use(&xs[i]) {
            Ok(t) => {
                let ghost gt = t.deep_view();
                out.push(t);
                proof {
                    assert(gxs.take(i + 1).drop_last() =~= gxs.take(i as int));
                    assert(gxs.take(i + 1).last() == gxs[i as int]);
                    assert(out.deep_view() =~= prev.push(gt));
                }
            },
            Err(e) => {
                proof {
                    assert(gxs.take(i + 1).drop_last() =~= gxs.take(i as int));
                    assert(gxs.take(i + 1).last() == gxs[i as int]);
                    assert(spec_decode_tool_uses(gxs.take(i + 1)) == Err::<Seq<SpecToolUse>, _>(
                        e.deep_view(),
                    ));
                    lemma_decode_tool_uses_err(gxs, i + 1);
                }
                return Err(e);
            },
        }
    }
    proof {
        assert(gxs.take(n as int) =~= gxs);
    }
    Ok(out)
}

/// Reads and decodes the optional tool-use list of an assistant message.
fn dec_opt_tool_uses(fs: &Vec<JsonField>) -> (r: Result<Option<Vec<ToolUse>>, EntryDecodeError>)
    ensures
        dv_res(r) == spec_opt_tool_uses(spec_json_obj(fs@)),
{
    match lookup(fs, "tool_uses") {
        None => Ok(None),
        Some(JsonValue::Null) => Ok(None),
        Some(JsonValue::Arr(xs)) => match decode_tool_uses(xs) {
            Ok(ts) => Ok(Some(ts)),
            Err(e) => Err(e),
        },
        Some(_) => Err(EntryDecodeError::WrongType("tool_uses".to_owned())),
    }
}

/// Decodes one recorded code execution.
fn decode_code_output(v: &JsonValue) -> (r: Result<CodeOutput, EntryDecodeError>)
    ensures
        dv_res(r) == spec_decode_code_output(v.deep_view()),
{
    match v {
        JsonValue::Obj(fs) => {
            let code = match get_req_str(fs, "code") {
                Ok(s) => s,
                Err(e) => return Err(e),
            };
            let output = match get_opt_str(fs, "output") {
                Ok(s) => s,
                Err(e) => return Err(e),
            };
            let language = match get_opt_str(fs, "language") {
                Ok(s) => s,
                Err(e) => return Err(e),
            };
            Ok(CodeOutput { code, output, language })
        },
        _ => Err(EntryDecodeError::NotAnObject),
    }
}

/// Decodes a list of recorded code executions; the first failure wins.
fn decode_code_outputs(xs: &Vec<JsonValue>) -> (r: Result<Vec<CodeOutput>, EntryDecodeError>)
    ensures
        dv_res(r) == spec_decode_code_outputs(crate::json::spec_json_arr(xs@)),
{
    let ghost gxs = crate::json::spec_json_arr(xs@);
    proof {
        crate::json::lemma_spec_json_arr(xs@);
    }
    let mut out: Vec<CodeOutput> = Vec::new();
    let n = xs.len();
    proof {
        assert(gxs.take(0) =~= Seq::<SpecJson>::empty());
        assert(out.deep_view() =~= Seq::<SpecCodeOutput>::empty());
    }
    for i in 0..n
        invariant
            n == xs.len(),
            gxs == crate::json::spec_json_arr(xs@),
            gxs.len() == n,
            forall|j: int| 0 <= j < n ==> gxs[j] == crate::json::spec_json_of(xs@[j]),
            spec_decode_code_outputs(gxs.take(i as int)) == Ok::<_, SpecDecodeError>(
                out.deep_view(),
            ),
    {
        let ghost prev = out.deep_view();
        match decode_code_output(&xs[i]) {
            Ok(c) => {
                let ghost gc = c.deep_view();
                out.push(c);
                proof {
                    assert(gxs.take(i + 1).drop_last() =~= gxs.take(i as int));
                    assert(gxs.take(i + 1).last() == gxs[i as int]);
                    assert(out.deep_view() =~= prev.push(gc));
                }
            },
            Err(e) => {
                proof {
                    assert(gxs.take(i + 1).drop_last() =~= gxs.take(i as int));
                    assert(gxs.take(i + 1).last() == gxs[i as int]);
                    assert(spec_decode_code_outputs(gxs.take(i + 1)) == Err::<
                        Seq<SpecCodeOutput>,
                        _,
                    >(e.deep_view()));
                    lemma_decode_code_outputs_err(gxs, i + 1);
                }
                return Err(e);
            },
        }
    }
    proof {
        assert(gxs.take(n as int) =~= gxs);
    }
    Ok(out)
}

/// Reads and decodes the optional code-output list of an assistant message.
fn dec_opt_code_outputs(fs: &Vec<JsonField>) -> (r: Result<
    Option<Vec<CodeOutput>>,
    EntryDecodeError,
>)
    ensures
        dv_res(r) == spec_opt_code_outputs(spec_json_obj(fs@)),
{
    match lookup(fs, "code_outputs") {
        None => Ok(None),
        Some(JsonValue::Null) => Ok(None),
        Some(JsonValue::Arr(xs)) => match decode_code_outputs(xs) {
            Ok(cs) => Ok(Some(cs)),
            Err(e) => Err(e),
        },
        Some(_) => Err(EntryDecodeError::WrongType("code_outputs".to_owned())),
    }
}

/// Decodes token counts and cache statistics.
fn decode_usage(fs: &Vec<JsonField>) -> (r: Result<UsageInfo, EntryDecodeError>)
    ensures
        dv_res(r) == spec_decode_usage(spec_json_obj(fs@)),
{
    let cache_creation_input_tokens = match get_opt_u64(fs, "cache_creation_input_tokens") {
        Ok(v) => v,
        Err(e) => return Err(e),
    };
    let cache_read_input_tokens = match get_opt_u64(fs, "cache_read_input_tokens") {
        Ok(v) => v,
        Err(e) => return Err(e),
    };
    let input_tokens = match get_opt_u64(fs, "input_tokens") {
        Ok(v) => v,
        Err(e) => return Err(e),
    };
    let output_tokens = match get_opt_u64(fs, "output_tokens") {
        Ok(v) => v,
        Err(e) => return Err(e),
    };
    let service_tier = match get_opt_str(fs, "service_tier") {
        Ok(v) => v,
        Err(e) => return Err(e),
    };
    Ok(UsageInfo {
        cache_creation_input_tokens,
        cache_read_input_tokens,
        input_tokens,
        output_tokens,
        service_tier,
    })
}

/// Reads and decodes the mandatory usage record of an assistant message.
fn dec_req_usage(fs: &Vec<JsonField>) -> (r: Result<UsageInfo, EntryDecodeError>)
    ensures
        dv_res(r) == spec_req_usage(spec_json_obj(fs@)),
{
    match lookup(fs, "usage") {
        None => Err(EntryDecodeError::MissingField("usage".to_owned())),
        Some(JsonValue::Obj(ufs)) => decode_usage(ufs),
        Some(_) => Err(EntryDecodeError::WrongType("usage".to_owned())),
    }
}

/// Decodes a message object, dispatching on the wire field `role`.
fn decode_message(fs: &Vec<JsonField>) -> (r: Result<TranscriptMessage, EntryDecodeError>)
    ensures
        dv_res(r) == spec_decode_message(spec_json_obj(fs@)),
{
    let role = match get_req_str(fs, "role") {
        Ok(s) => s,
        Err(e) => return Err(e),
    };
    if str_eq(role.as_str(), "user") {
        let content = match dec_opt_content(fs) {
            Ok(c) => c,
            Err(e) => return Err(e),
        };
        Ok(TranscriptMessage::User { content })
    } else if str_eq(role.as_str(), "assistant") {
        let id = match get_req_str(fs, "id") {
            Ok(s) => s,
            Err(e) => return Err(e),
        };
        let message_type = match get_req_str(fs, "type") {
            Ok(s) => s,
            Err(e) => return Err(e),
        };
        let model = match get_req_str(fs, "model") {
            Ok(s) => s,
            Err(e) => return Err(e),
        };
        let content = match dec_opt_content(fs) {
            Ok(c) => c,
            Err(e) => return Err(e),
        };
        let thinking = match get_opt_str(fs, "thinking") {
            Ok(s) => s,
            Err(e) => return Err(e),
        };
        let tool_uses = match dec_opt_tool_uses(fs) {
            Ok(t) => t,
            Err(e) => return Err(e),
        };
        let code_outputs = match dec_opt_code_outputs(fs) {
            Ok(c) => c,
            Err(e) => return Err(e),
        };
        let stop_reason = match get_opt_str(fs, "stop_reason") {
            Ok(s) => s,
            Err(e) => return Err(e),
        };
        let stop_sequence = match get_opt_str(fs, "stop_sequence") {
            Ok(s) => s,
            Err(e) => return Err(e),
        };
        let usage = match dec_req_usage(fs) {
            Ok(u) => u,
            Err(e) => return Err(e),
        };
        Ok(TranscriptMessage::Assistant {
            id,
            message_type,
            model,
            content,
            thinking,
            tool_uses,
            code_outputs,
            stop_reason,
            stop_sequence,
            usage,
        })
    } else {
        Err(EntryDecodeError::UnknownRole(role))
    }
}

/// Reads and decodes the mandatory message field of an entry.
fn dec_req_message(fs: &Vec<JsonField>) -> (r: Result<TranscriptMessage, EntryDecodeError>)
    ensures
        dv_res(r) == spec_req_message(spec_json_obj(fs@)),
{
    match lookup(fs, "message") {
        None => Err(EntryDecodeError::MissingField("message".to_owned())),
        Some(JsonValue::Obj(mfs)) => decode_message(mfs),
        Some(_) => Err(EntryDecodeError::WrongType("message".to_owned())),
    }
}

/// Decodes the fields of a user entry.
fn decode_user(fs: &Vec<JsonField>) -> (r: Result<UserEntry, EntryDecodeError>)
    ensures
        dv_res(r) == spec_decode_user(spec_json_obj(fs@)),
{
    let uuid = match get_req_str(fs, "uuid") {
        Ok(s) => s,
        Err(e) => return Err(e),
    };
    let timestamp = match get_req_str(fs, "timestamp") {
        Ok(s) => s,
        Err(e) => return Err(e),
    };
    let message = match dec_req_message(fs) {
        Ok(m) => m,
        Err(e) => return Err(e),
    };
    let cwd = match get_req_str(fs, "cwd") {
        Ok(s) => s,
        Err(e) => return Err(e),
    };
    let session_id = match get_req_str(fs, "sessionId") {
        Ok(s) => s,
        Err(e) => return Err(e),
    };
    let version = match get_req_str(fs, "version") {
        Ok(s) => s,
        Err(e) => return Err(e),
    };
    let user_type = match get_req_str(fs, "userType") {
        Ok(s) => s,
        Err(e) => return Err(e),
    };
    let is_sidechain = match get_req_bool(fs, "isSidechain") {
        Ok(b) => b,
        Err(e) => return Err(e),
    };
    let parent_uuid = match get_opt_str(fs, "parentUuid") {
        Ok(s) => s,
        Err(e) => return Err(e),
    };
    let tool_use_result = get_opt_json(fs, "toolUseResult");
    Ok(UserEntry {
        uuid,
        timestamp,
        message,
        cwd,
        session_id,
        version,
        user_type,
        is_sidechain,
        parent_uuid,
        tool_use_result,
    })
}

/// Decodes the fields of an assistant entry.
fn decode_assistant(fs: &Vec<JsonField>) -> (r: Result<AssistantEntry, EntryDecodeError>)
    ensures
        dv_res(r) == spec_decode_assistant(spec_json_obj(fs@)),
{
    let uuid = match get_req_str(fs, "uuid") {
        Ok(s) => s,
        Err(e) => return Err(e),
    };
    let timestamp = match get_req_str(fs, "timestamp") {
        Ok(s) => s,
        Err(e) => return Err(e),
    };
    let message = match dec_req_message(fs) {
        Ok(m) => m,
        Err(e) => return Err(e),
    };
    let cwd = match get_req_str(fs, "cwd") {
        Ok(s) => s,
        Err(e) => return Err(e),
    };
    let session_id = match get_req_str(fs, "sessionId") {
        Ok(s) => s,
        Err(e) => return Err(e),
    };
    let version = match get_req_str(fs, "version") {
        Ok(s) => s,
        Err(e) => return Err(e),
    };
    let user_type = match get_req_str(fs, "userType") {
        Ok(s) => s,
        Err(e) => return Err(e),
    };
    let is_sidechain = match get_req_bool(fs, "isSidechain") {
        Ok(b) => b,
        Err(e) => return Err(e),
    };
    let parent_uuid = match get_req_str(fs, "parentUuid") {
        Ok(s) => s,
        Err(e) => return Err(e),
    };
    let request_id = match get_opt_str(fs, "requestId") {
        Ok(s) => s,
        Err(e) => return Err(e),
    };
    let is_api_error_message = match get_opt_bool(fs, "isApiErrorMessage") {
        Ok(b) => b,
        Err(e) => return Err(e),
    };
    Ok(AssistantEntry {
        uuid,
        timestamp,
        message,
        cwd,
        session_id,
        version,
        user_type,
        is_sidechain,
        parent_uuid,
        request_id,
        is_api_error_message,
    })
}

/// Decodes the fields of a summary entry.
fn decode_summary(fs: &Vec<JsonField>) -> (r: Result<SummaryEntry, EntryDecodeError>)
    ensures
        dv_res(r) == spec_decode_summary(spec_json_obj(fs@)),
{
    let summary = match get_req_str(fs, "summary") {
        Ok(s) => s,
        Err(e) => return Err(e),
    };
    let leaf_uuid = match get_req_str(fs, "leafUuid") {
        Ok(s) => s,
        Err(e) => return Err(e),
    };
    Ok(SummaryEntry { summary, leaf_uuid })
}

/// Decodes the fields of a system entry.
fn decode_system(fs: &Vec<JsonField>) -> (r: Result<SystemEntry, EntryDecodeError>)
    ensures
        dv_res(r) == spec_decode_system(spec_json_obj(fs@)),
{
    let uuid = match get_req_str(fs, "uuid") {
        Ok(s) => s,
        Err(e) => return Err(e),
    };
    let timestamp = match get_req_str(fs, "timestamp") {
        Ok(s) => s,
        Err(e) => return Err(e),
    };
    let content = match get_req_str(fs, "content") {
        Ok(s) => s,
        Err(e) => return Err(e),
    };
    let cwd = match get_req_str(fs, "cwd") {
        Ok(s) => s,
        Err(e) => return Err(e),
    };
    let session_id = match get_req_str(fs, "sessionId") {
        Ok(s) => s,
        Err(e) => return Err(e),
    };
    let version = match get_req_str(fs, "version") {
        Ok(s) => s,
        Err(e) => return Err(e),
    };
    let user_type = match get_req_str(fs, "userType") {
        Ok(s) => s,
        Err(e) => return Err(e),
    };
    let is_sidechain = match get_req_bool(fs, "isSidechain") {
        Ok(b) => b,
        Err(e) => return Err(e),
    };
    let parent_uuid = match get_req_str(fs, "parentUuid") {
        Ok(s) => s,
        Err(e) => return Err(e),
    };
    let is_meta = match get_req_bool(fs, "isMeta") {
        Ok(b) => b,
        Err(e) => return Err(e),
    };
    let level = match get_opt_str(fs, "level") {
        Ok(s) => s,
        Err(e) => return Err(e),
    };
    let tool_use_id = match get_opt_str(fs, "toolUseID") {
        Ok(s) => s,
        Err(e) => return Err(e),
    };
    Ok(SystemEntry {
        uuid,
        timestamp,
        content,
        cwd,
        session_id,
        version,
        user_type,
        is_sidechain,
        parent_uuid,
        is_meta,
        level,
        tool_use_id,
    })
}

/// Decodes a JSON tree into a typed transcript entry.
///
/// The entry kind is the value of the wire field `type`; every field of the
/// chosen kind is then read as [`spec_decode_entry`] lays down. Keys the
/// model does not know are ignored.
pub fn decode_entry(v: &JsonValue) -> (r: Result<TranscriptEntry, EntryDecodeError>)
    ensures
        dv_res(r) == spec_decode_entry(v.deep_view()),
{
    match v {
        JsonValue::Obj(fs) => {
            let tag = match lookup(fs, "type") {
                None => return Err(EntryDecodeError::MissingField("type".to_owned())),
                Some(JsonValue::Str(t)) => t,
                Some(_) => return Err(EntryDecodeError::WrongType("type".to_owned())),
            };
            if str_eq(tag.as_str(), "user") {
                match decode_user(fs) {
                    Ok(u) => Ok(TranscriptEntry::User(u)),
                    Err(e) => Err(e),
                }
            } else if str_eq(tag.as_str(), "assistant") {
                match decode_assistant(fs) {
                    Ok(a) => Ok(TranscriptEntry::Assistant(a)),
                    Err(e) => Err(e),
                }
            } else if str_eq(tag.as_str(), "summary") {
                match decode_summary(fs) {
                    Ok(s) => Ok(TranscriptEntry::Summary(s)),
                    Err(e) => Err(e),
                }
            } else if str_eq(tag.as_str(), "system") {
                match decode_system(fs) {
                    Ok(s) => Ok(TranscriptEntry::System(s)),
                    Err(e) => Err(e),
                }
            } else {
                Err(EntryDecodeError::UnknownEntryKind(tag.clone()))
            }
        },
        _ => Err(EntryDecodeError::NotAnObject),
    }
}

} // verus!
