//! Re-serialising a typed entry back to a JSON tree.
//!
//! The round trip writes the discriminant first and then the fields in
//! declaration order. An optional field that would carry nothing is written
//! as `null` where every schema revision sends the key, and omitted where the
//! wire format drops the key; the coverage validator leans on exactly this
//! shape.

use vstd::prelude::*;

use crate::json::JsonField;
use crate::json::JsonValue;
use crate::json::SpecJson;
use crate::json::lemma_spec_json_obj;
use crate::json::spec_json_arr;
use crate::json::spec_json_obj;
use crate::num::dec_u64;
use crate::num::spec_u64_digits;
use crate::transcript::CodeOutput;
use crate::transcript::ContentBlock;
use crate::transcript::MessageContent;
use crate::transcript::SpecBlock;
use crate::transcript::SpecCodeOutput;
use crate::transcript::SpecContent;
use crate::transcript::SpecEntry;
use crate::transcript::SpecMessage;
use crate::transcript::SpecToolResultContent;
use crate::transcript::SpecToolResultItem;
use crate::transcript::SpecToolUse;
use crate::transcript::SpecUsage;
use crate::transcript::ToolResultContent;
use crate::transcript::ToolResultItem;
use crate::transcript::ToolUse;
use crate::transcript::TranscriptEntry;
use crate::transcript::TranscriptMessage;
use crate::transcript::UsageInfo;

verus! {

/// A field written only when it has a value.
pub open spec fn opt_field(k: Seq<char>, v: Option<SpecJson>) -> Seq<(Seq<char>, SpecJson)> {
    match v {
        None => Seq::empty(),
        Some(x) => seq![(k, x)],
    }
}

/// An optional string field, omitted when empty.
pub open spec fn opt_str_field(k: Seq<char>, v: Option<Seq<char>>) -> Seq<(Seq<char>, SpecJson)> {
    match v {
        None => Seq::empty(),
        Some(s) => seq![(k, SpecJson::Str(s))],
    }
}

/// An optional boolean field, omitted when empty.
pub open spec fn opt_bool_field(k: Seq<char>, v: Option<bool>) -> Seq<(Seq<char>, SpecJson)> {
    match v {
        None => Seq::empty(),
        Some(b) => seq![(k, SpecJson::Bool(b))],
    }
}

/// An optional count field, omitted when empty.
pub open spec fn opt_num_field(k: Seq<char>, v: Option<u64>) -> Seq<(Seq<char>, SpecJson)> {
    match v {
        None => Seq::empty(),
        Some(n) => seq![(k, SpecJson::Num(spec_u64_digits(n as int)))],
    }
}

/// A string field that is written as `null` when it has no value.
pub open spec fn nullable_str_field(k: Seq<char>, v: Option<Seq<char>>) -> Seq<
    (Seq<char>, SpecJson),
> {
    match v {
        None => seq![(k, SpecJson::Null)],
        Some(s) => seq![(k, SpecJson::Str(s))],
    }
}

/// The wire form of a usage record.
pub open spec fn spec_encode_usage(u: SpecUsage) -> SpecJson {
    SpecJson::Obj(
        opt_num_field("cache_creation_input_tokens"@, u.cache_creation_input_tokens)
            + opt_num_field("cache_read_input_tokens"@, u.cache_read_input_tokens) + opt_num_field(
            "input_tokens"@,
            u.input_tokens,
        ) + opt_num_field("output_tokens"@, u.output_tokens) + opt_str_field(
            "service_tier"@,
            u.service_tier,
        ),
    )
}

/// The wire form of one tool-result item.
pub open spec fn spec_encode_item(it: SpecToolResultItem) -> SpecJson {
    SpecJson::Obj(seq![("type"@, SpecJson::Str(it.item_type)), ("text"@, SpecJson::Str(it.text))])
}

/// The wire form of a tool result's content.
pub open spec fn spec_encode_tool_result_content(c: SpecToolResultContent) -> SpecJson {
    match c {
        SpecToolResultContent::Text(t) => SpecJson::Str(t),
        SpecToolResultContent::Array(items) => SpecJson::Arr(
            items.map_values(|it: SpecToolResultItem| spec_encode_item(it)),
        ),
    }
}

/// The wire form of one content block.
pub open spec fn spec_encode_block(b: SpecBlock) -> SpecJson {
    match b {
        SpecBlock::Text { text } => SpecJson::Obj(
            seq![("type"@, SpecJson::Str("text"@)), ("text"@, SpecJson::Str(text))],
        ),
        SpecBlock::ToolUse { id, name, input } => SpecJson::Obj(
            seq![
                ("type"@, SpecJson::Str("tool_use"@)),
                ("id"@, SpecJson::Str(id)),
                ("name"@, SpecJson::Str(name)),
                ("input"@, input),
            ],
        ),
        SpecBlock::ToolResult { tool_use_id, content, is_error } => SpecJson::Obj(
            seq![
                ("type"@, SpecJson::Str("tool_result"@)),
                ("tool_use_id"@, SpecJson::Str(tool_use_id)),
                ("content"@, spec_encode_tool_result_content(content)),
            ] + opt_bool_field("is_error"@, is_error),
        ),
        SpecBlock::Thinking { thinking, signature } => SpecJson::Obj(
            seq![
                ("type"@, SpecJson::Str("thinking"@)),
                ("thinking"@, SpecJson::Str(thinking)),
            ] + opt_str_field("signature"@, signature),
        ),
    }
}

/// The wire form of message content.
pub open spec fn spec_encode_content(c: SpecContent) -> SpecJson {
    match c {
        SpecContent::Text(t) => SpecJson::Str(t),
        SpecContent::Blocks(bs) => SpecJson::Arr(
            bs.map_values(|b: SpecBlock| spec_encode_block(b)),
        ),
    }
}

/// The optional content field of a message.
pub open spec fn opt_content_field(v: Option<SpecContent>) -> Seq<(Seq<char>, SpecJson)> {
    match v {
        None => Seq::empty(),
        Some(c) => seq![("content"@, spec_encode_content(c))],
    }
}

/// The wire form of one recorded tool invocation.
pub open spec fn spec_encode_tool_use(t: SpecToolUse) -> SpecJson {
    SpecJson::Obj(
        seq![("toolName"@, SpecJson::Str(t.tool_name)), ("toolInput"@, t.tool_input)] + opt_field(
            "toolOutput"@,
            t.tool_output,
        ),
    )
}

/// The optional tool-use list of an assistant message.
pub open spec fn opt_tool_uses_field(v: Option<Seq<SpecToolUse>>) -> Seq<(Seq<char>, SpecJson)> {
    match v {
        None => Seq::empty(),
        Some(ts) => seq![
            ("tool_uses"@, SpecJson::Arr(ts.map_values(|t: SpecToolUse| spec_encode_tool_use(t)))),
        ],
    }
}

/// The wire form of one recorded code execution.
pub open spec fn spec_encode_code_output(c: SpecCodeOutput) -> SpecJson {
    SpecJson::Obj(
        seq![("code"@, SpecJson::Str(c.code))] + opt_str_field("output"@, c.output)
            + opt_str_field("language"@, c.language),
    )
}

/// The optional code-output list of an assistant message.
pub open spec fn opt_code_outputs_field(v: Option<Seq<SpecCodeOutput>>) -> Seq<
    (Seq<char>, SpecJson),
> {
    match v {
        None => Seq::empty(),
        Some(cs) => seq![
            (
                "code_outputs"@,
                SpecJson::Arr(cs.map_values(|c: SpecCodeOutput| spec_encode_code_output(c))),
            ),
        ],
    }
}

/// The wire form of a message.
pub open spec fn spec_encode_message(m: SpecMessage) -> SpecJson {
    match m {
        SpecMessage::User { content } => SpecJson::Obj(
            seq![("role"@, SpecJson::Str("user"@))] + opt_content_field(content),
        ),
        SpecMessage::Assistant {
            id,
            message_type,
            model,
            content,
            thinking,
            tool_uses,
            code_outputs,
            stop_reason,
            stop_sequence,
            usage,
        } => SpecJson::Obj(
            seq![
                ("role"@, SpecJson::Str("assistant"@)),
                ("id"@, SpecJson::Str(id)),
                ("type"@, SpecJson::Str(message_type)),
                ("model"@, SpecJson::Str(model)),
            ] + opt_content_field(content) + opt_str_field("thinking"@, thinking)
                + opt_tool_uses_field(tool_uses) + opt_code_outputs_field(code_outputs)
                + nullable_str_field("stop_reason"@, stop_reason) + nullable_str_field(
                "stop_sequence"@,
                stop_sequence,
            ) + seq![("usage"@, spec_encode_usage(usage))],
        ),
    }
}

/// The wire form of a whole entry: the discriminant first, then the fields in
/// declaration order.
pub open spec fn spec_encode_entry(e: SpecEntry) -> SpecJson {
    match e {
        SpecEntry::User(u) => SpecJson::Obj(
            seq![
                ("type"@, SpecJson::Str("user"@)),
                ("uuid"@, SpecJson::Str(u.uuid)),
                ("timestamp"@, SpecJson::Str(u.timestamp)),
                ("message"@, spec_encode_message(u.message)),
                ("cwd"@, SpecJson::Str(u.cwd)),
                ("sessionId"@, SpecJson::Str(u.session_id)),
                ("version"@, SpecJson::Str(u.version)),
                ("userType"@, SpecJson::Str(u.user_type)),
                ("isSidechain"@, SpecJson::Bool(u.is_sidechain)),
            ] + nullable_str_field("parentUuid"@, u.parent_uuid) + opt_field(
                "toolUseResult"@,
                u.tool_use_result,
            ),
        ),
        SpecEntry::Assistant(a) => SpecJson::Obj(
            seq![
                ("type"@, SpecJson::Str("assistant"@)),
                ("uuid"@, SpecJson::Str(a.uuid)),
                ("timestamp"@, SpecJson::Str(a.timestamp)),
                ("message"@, spec_encode_message(a.message)),
                ("cwd"@, SpecJson::Str(a.cwd)),
                ("sessionId"@, SpecJson::Str(a.session_id)),
                ("version"@, SpecJson::Str(a.version)),
                ("userType"@, SpecJson::Str(a.user_type)),
                ("isSidechain"@, SpecJson::Bool(a.is_sidechain)),
                ("parentUuid"@, SpecJson::Str(a.parent_uuid)),
            ] + opt_str_field("requestId"@, a.request_id) + opt_bool_field(
                "isApiErrorMessage"@,
                a.is_api_error_message,
            ),
        ),
        SpecEntry::Summary(s) => SpecJson::Obj(
            seq![
                ("type"@, SpecJson::Str("summary"@)),
                ("summary"@, SpecJson::Str(s.summary)),
                ("leafUuid"@, SpecJson::Str(s.leaf_uuid)),
            ],
        ),
        SpecEntry::System(s) => SpecJson::Obj(
            seq![
                ("type"@, SpecJson::Str("system"@)),
                ("uuid"@, SpecJson::Str(s.uuid)),
                ("timestamp"@, SpecJson::Str(s.timestamp)),
                ("content"@, SpecJson::Str(s.content)),
                ("cwd"@, SpecJson::Str(s.cwd)),
                ("sessionId"@, SpecJson::Str(s.session_id)),
                ("version"@, SpecJson::Str(s.version)),
                ("userType"@, SpecJson::Str(s.user_type)),
                ("isSidechain"@, SpecJson::Bool(s.is_sidechain)),
                ("parentUuid"@, SpecJson::Str(s.parent_uuid)),
                ("isMeta"@, SpecJson::Bool(s.is_meta)),
            ] + opt_str_field("level"@, s.level) + opt_str_field("toolUseID"@, s.tool_use_id),
        ),
    }
}

/// Appends a field, extending the object's model by one entry.
fn push_field(fields: &mut Vec<JsonField>, k: &str, v: JsonValue)
    ensures
        spec_json_obj(final(fields)@) == spec_json_obj(old(fields)@).push(
            (k@, crate::json::spec_json_of(v)),
        ),
{
    let ghost gv = crate::json::spec_json_of(v);
    fields.push(JsonField { key: k.to_owned(), value: v });
    proof {
        lemma_spec_json_obj(fields@);
        lemma_spec_json_obj(old(fields)@);
        assert(spec_json_obj(fields@) =~= spec_json_obj(old(fields)@).push((k@, gv)));
    }
}

/// Appends a string field.
fn push_str_field(fields: &mut Vec<JsonField>, k: &str, v: &String)
    ensures
        spec_json_obj(final(fields)@) == spec_json_obj(old(fields)@).push(
            (k@, SpecJson::Str(v@)),
        ),
{
    push_field(fields, k, JsonValue::Str(v.clone()));
}

/// Appends an optional string field, or nothing.
fn push_opt_str_field(fields: &mut Vec<JsonField>, k: &str, v: &Option<String>)
    ensures
        spec_json_obj(final(fields)@) == spec_json_obj(old(fields)@) + opt_str_field(
            k@,
            v.deep_view(),
        ),
{
    match v {
        None => {
            proof {
                assert(spec_json_obj(fields@) =~= spec_json_obj(fields@) + opt_str_field(
                    k@,
                    None,
                ));
            }
        },
        Some(s) => {
            push_str_field(fields, k, s);
            proof {
                assert(spec_json_obj(fields@) =~= spec_json_obj(old(fields)@) + opt_str_field(
                    k@,
                    Some(s@),
                ));
            }
        },
    }
}

/// Appends an optional boolean field, or nothing.
fn push_opt_bool_field(fields: &mut Vec<JsonField>, k: &str, v: &Option<bool>)
    ensures
        spec_json_obj(final(fields)@) == spec_json_obj(old(fields)@) + opt_bool_field(k@, *v),
{
    match v {
        None => {
            proof {
                assert(spec_json_obj(fields@) =~= spec_json_obj(fields@) + opt_bool_field(
                    k@,
                    None,
                ));
            }
        },
        Some(b) => {
            push_field(fields, k, JsonValue::Bool(*b));
            proof {
                assert(spec_json_obj(fields@) =~= spec_json_obj(old(fields)@) + opt_bool_field(
                    k@,
                    Some(*b),
                ));
            }
        },
    }
}

/// Appends an optional count field, or nothing.
fn push_opt_num_field(fields: &mut Vec<JsonField>, k: &str, v: &Option<u64>)
    ensures
        spec_json_obj(final(fields)@) == spec_json_obj(old(fields)@) + opt_num_field(k@, *v),
{
    match v {
        None => {
            proof {
                assert(spec_json_obj(fields@) =~= spec_json_obj(fields@) + opt_num_field(
                    k@,
                    None,
                ));
            }
        },
        Some(n) => {
            push_field(fields, k, JsonValue::Num(dec_u64(*n)));
            proof {
                assert(spec_json_obj(fields@) =~= spec_json_obj(old(fields)@) + opt_num_field(
                    k@,
                    Some(*n),
                ));
            }
        },
    }
}

/// Appends an optional raw payload field, or nothing.
fn push_opt_json_field(fields: &mut Vec<JsonField>, k: &str, v: &Option<JsonValue>)
    ensures
        spec_json_obj(final(fields)@) == spec_json_obj(old(fields)@) + opt_field(
            k@,
            v.deep_view(),
        ),
{
    match v {
        None => {
            proof {
                assert(spec_json_obj(fields@) =~= spec_json_obj(fields@) + opt_field(k@, None));
            }
        },
        Some(j) => {
            push_field(fields, k, j.clone());
            proof {
                assert(spec_json_obj(fields@) =~= spec_json_obj(old(fields)@) + opt_field(
                    k@,
                    Some(j.deep_view()),
                ));
            }
        },
    }
}

/// Appends a string field that is written as `null` when it has no value.
fn push_nullable_str_field(fields: &mut Vec<JsonField>, k: &str, v: &Option<String>)
    ensures
        spec_json_obj(final(fields)@) == spec_json_obj(old(fields)@) + nullable_str_field(
            k@,
            v.deep_view(),
        ),
{
    match v {
        None => {
            push_field(fields, k, JsonValue::Null);
            proof {
                assert(spec_json_obj(fields@) =~= spec_json_obj(old(fields)@)
                    + nullable_str_field(k@, None));
            }
        },
        Some(s) => {
            push_str_field(fields, k, s);
            proof {
                assert(spec_json_obj(fields@) =~= spec_json_obj(old(fields)@)
                    + nullable_str_field(k@, Some(s@)));
            }
        },
    }
}

/// Writes a usage record back to its wire form.
fn encode_usage(u: &UsageInfo) -> (r: JsonValue)
    ensures
        r.deep_view() == spec_encode_usage(u.deep_view()),
{
    let mut fields: Vec<JsonField> = Vec::new();
    proof {
        assert(spec_json_obj(fields@) =~= Seq::<(Seq<char>, SpecJson)>::empty());
    }
    push_opt_num_field(&mut fields, "cache_creation_input_tokens", &u.cache_creation_input_tokens);
    push_opt_num_field(&mut fields, "cache_read_input_tokens", &u.cache_read_input_tokens);
    push_opt_num_field(&mut fields, "input_tokens", &u.input_tokens);
    push_opt_num_field(&mut fields, "output_tokens", &u.output_tokens);
    push_opt_str_field(&mut fields, "service_tier", &u.service_tier);
    proof {
        assert(JsonValue::Obj(fields).deep_view() =~= spec_encode_usage(u.deep_view()));
    }
    JsonValue::Obj(fields)
}

/// Writes one tool-result item back to its wire form.
fn encode_item(it: &ToolResultItem) -> (r: JsonValue)
    ensures
        r.deep_view() == spec_encode_item(it.deep_view()),
{
    let mut fields: Vec<JsonField> = Vec::new();
    proof {
        assert(spec_json_obj(fields@) =~= Seq::<(Seq<char>, SpecJson)>::empty());
    }
    push_str_field(&mut fields, "type", &it.item_type);
    push_str_field(&mut fields, "text", &it.text);
    proof {
        let target = seq![
            ("type"@, SpecJson::Str(it.item_type@)),
            ("text"@, SpecJson::Str(it.text@)),
        ];
        assert(spec_json_obj(fields@) =~= target);
        assert(JsonValue::Obj(fields).deep_view() == SpecJson::Obj(spec_json_obj(fields@)));
        assert(spec_encode_item(it.deep_view()) == SpecJson::Obj(target));
        assert(JsonValue::Obj(fields).deep_view() =~= spec_encode_item(it.deep_view()));
    }
    JsonValue::Obj(fields)
}

/// Writes a tool result's content back to its wire form.
fn encode_tool_result_content(c: &ToolResultContent) -> (r: JsonValue)
    ensures
        r.deep_view() == spec_encode_tool_result_content(c.deep_view()),
{
    match c {
        ToolResultContent::Text(t) => JsonValue::Str(t.clone()),
        ToolResultContent::Array(items) => {
            let mut out: Vec<JsonValue> = Vec::new();
            let n = items.len();
            for i in 0..n
                invariant
                    n == items.len(),
                    out.len() == i,
                    forall|j: int| 0 <= j < i ==> out@[j].deep_view() == spec_encode_item(
                        items@[j].deep_view(),
                    ),
            {
                out.push(encode_item(&items[i]));
            }
            proof {
                crate::json::lemma_spec_json_arr(out@);
                assert(spec_json_arr(out@) =~= items.deep_view().map_values(
                    |it: SpecToolResultItem| spec_encode_item(it),
                ));
            }
            JsonValue::Arr(out)
        },
    }
}

/// Writes one content block back to its wire form.
fn encode_block(b: &ContentBlock) -> (r: JsonValue)
    ensures
        r.deep_view() == spec_encode_block(b.deep_view()),
{
    let mut fields: Vec<JsonField> = Vec::new();
    proof {
        assert(spec_json_obj(fields@) =~= Seq::<(Seq<char>, SpecJson)>::empty());
    }
    match b {
        ContentBlock::Text { text } => {
            push_field(&mut fields, "type", JsonValue::Str("text".to_owned()));
            push_str_field(&mut fields, "text", text);
            proof {
                assert(spec_json_obj(fields@) =~= seq![
                    ("type"@, SpecJson::Str("text"@)),
                    ("text"@, SpecJson::Str(text@)),
                ]);
                assert(JsonValue::Obj(fields).deep_view() =~= spec_encode_block(b.deep_view()));
            }
        },
        ContentBlock::ToolUse { id, name, input } => {
            push_field(&mut fields, "type", JsonValue::Str("tool_use".to_owned()));
            push_str_field(&mut fields, "id", id);
            push_str_field(&mut fields, "name", name);
            push_field(&mut fields, "input", input.clone());
            proof {
                assert(spec_json_obj(fields@) =~= seq![
                    ("type"@, SpecJson::Str("tool_use"@)),
                    ("id"@, SpecJson::Str(id@)),
                    ("name"@, SpecJson::Str(name@)),
                    ("input"@, input.deep_view()),
                ]);
                assert(JsonValue::Obj(fields).deep_view() =~= spec_encode_block(b.deep_view()));
            }
        },
        ContentBlock::ToolResult { tool_use_id, content, is_error } => {
            push_field(&mut fields, "type", JsonValue::Str("tool_result".to_owned()));
            push_str_field(&mut fields, "tool_use_id", tool_use_id);
            push_field(&mut fields, "content", encode_tool_result_content(content));
            push_opt_bool_field(&mut fields, "is_error", is_error);
            proof {
                assert(spec_json_obj(fields@) =~= seq![
                    ("type"@, SpecJson::Str("tool_result"@)),
                    ("tool_use_id"@, SpecJson::Str(tool_use_id@)),
                    ("content"@, spec_encode_tool_result_content(content.deep_view())),
                ] + opt_bool_field("is_error"@, *is_error));
                assert(JsonValue::Obj(fields).deep_view() =~= spec_encode_block(b.deep_view()));
            }
        },
        ContentBlock::Thinking { thinking, signature } => {
            push_field(&mut fields, "type", JsonValue::Str("thinking".to_owned()));
            push_str_field(&mut fields, "thinking", thinking);
            push_opt_str_field(&mut fields, "signature", signature);
            proof {
                assert(spec_json_obj(fields@) =~= seq![
                    ("type"@, SpecJson::Str("thinking"@)),
                    ("thinking"@, SpecJson::Str(thinking@)),
                ] + opt_str_field("signature"@, signature.deep_view()));
                assert(JsonValue::Obj(fields).deep_view() =~= spec_encode_block(b.deep_view()));
            }
        },
    }
    proof {
        assert(JsonValue::Obj(fields).deep_view() =~= spec_encode_block(b.deep_view()));
    }
    JsonValue::Obj(fields)
}

/// Writes message content back to its wire form.
fn encode_content(c: &MessageContent) -> (r: JsonValue)
    ensures
        r.deep_view() == spec_encode_content(c.deep_view()),
{
    match c {
        MessageContent::Text(t) => JsonValue::Str(t.clone()),
        MessageContent::Blocks(bs) => {
            let mut out: Vec<JsonValue> = Vec::new();
            let n = bs.len();
            for i in 0..n
                invariant
                    n == bs.len(),
                    out.len() == i,
                    forall|j: int| 0 <= j < i ==> out@[j].deep_view() == spec_encode_block(
                        bs@[j].deep_view(),
                    ),
            {
                out.push(encode_block(&bs[i]));
            }
            proof {
                crate::json::lemma_spec_json_arr(out@);
                assert(spec_json_arr(out@) =~= bs.deep_view().map_values(
                    |b: SpecBlock| spec_encode_block(b),
                ));
            }
            JsonValue::Arr(out)
        },
    }
}

/// Writes one recorded tool invocation back to its wire form.
fn encode_tool_use(t: &ToolUse) -> (r: JsonValue)
    ensures
        r.deep_view() == spec_encode_tool_use(t.deep_view()),
{
    let mut fields: Vec<JsonField> = Vec::new();
    proof {
        assert(spec_json_obj(fields@) =~= Seq::<(Seq<char>, SpecJson)>::empty());
    }
    push_str_field(&mut fields, "toolName", &t.tool_name);
    push_field(&mut fields, "toolInput", t.tool_input.clone());
    push_opt_json_field(&mut fields, "toolOutput", &t.tool_output);
    proof {
        let target = seq![
            ("toolName"@, SpecJson::Str(t.tool_name@)),
            ("toolInput"@, crate::json::spec_json_of(t.tool_input)),
        ] + opt_field("toolOutput"@, t.tool_output.deep_view());
        assert(spec_json_obj(fields@) =~= target);
        assert(JsonValue::Obj(fields).deep_view() =~= spec_encode_tool_use(t.deep_view()));
    }
    JsonValue::Obj(fields)
}

/// Writes one recorded code execution back to its wire form.
fn encode_code_output(c: &CodeOutput) -> (r: JsonValue)
    ensures
        r.deep_view() == spec_encode_code_output(c.deep_view()),
{
    let mut fields: Vec<JsonField> = Vec::new();
    proof {
        assert(spec_json_obj(fields@) =~= Seq::<(Seq<char>, SpecJson)>::empty());
    }
    push_str_field(&mut fields, "code", &c.code);
    push_opt_str_field(&mut fields, "output", &c.output);
    push_opt_str_field(&mut fields, "language", &c.language);
    proof {
        assert(JsonValue::Obj(fields).deep_view() =~= spec_encode_code_output(c.deep_view()));
    }
    JsonValue::Obj(fields)
}

/// Appends the optional content field of a message, or nothing.
fn push_content_field(fields: &mut Vec<JsonField>, v: &Option<MessageContent>)
    ensures
        spec_json_obj(final(fields)@) == spec_json_obj(old(fields)@) + opt_content_field(
            v.deep_view(),
        ),
{
    match v {
        None => {
            proof {
                assert(spec_json_obj(fields@) =~= spec_json_obj(fields@) + opt_content_field(
                    None,
                ));
            }
        },
        Some(c) => {
            let ghost gc = c.deep_view();
            push_field(fields, "content", encode_content(c));
            proof {
                assert(spec_json_obj(fields@) =~= spec_json_obj(old(fields)@) + opt_content_field(
                    Some(gc),
                ));
            }
        },
    }
}

/// Appends the optional tool-use list of an assistant message, or nothing.
fn push_tool_uses_field(fields: &mut Vec<JsonField>, v: &Option<Vec<ToolUse>>)
    ensures
        spec_json_obj(final(fields)@) == spec_json_obj(old(fields)@) + opt_tool_uses_field(
            v.deep_view(),
        ),
{
    match v {
        None => {
            proof {
                assert(spec_json_obj(fields@) =~= spec_json_obj(fields@) + opt_tool_uses_field(
                    None,
                ));
            }
        },
        Some(ts) => {
            let ghost gts = ts.deep_view();
            let mut out: Vec<JsonValue> = Vec::new();
            let n = ts.len();
            for i in 0..n
                invariant
                    n == ts.len(),
                    out.len() == i,
                    forall|j: int| 0 <= j < i ==> out@[j].deep_view() == spec_encode_tool_use(
                        ts@[j].deep_view(),
                    ),
            {
                out.push(encode_tool_use(&ts[i]));
            }
            proof {
                crate::json::lemma_spec_json_arr(out@);
                assert(spec_json_arr(out@) =~= gts.map_values(
                    |t: SpecToolUse| spec_encode_tool_use(t),
                ));
            }
            push_field(fields, "tool_uses", JsonValue::Arr(out));
            proof {
                assert(spec_json_obj(fields@) =~= spec_json_obj(old(fields)@)
                    + opt_tool_uses_field(Some(gts)));
            }
        },
    }
}

/// Appends the optional code-output list of an assistant message, or nothing.
fn push_code_outputs_field(fields: &mut Vec<JsonField>, v: &Option<Vec<CodeOutput>>)
    ensures
        spec_json_obj(final(fields)@) == spec_json_obj(old(fields)@) + opt_code_outputs_field(
            v.deep_view(),
        ),
{
    match v {
        None => {
            proof {
                assert(spec_json_obj(fields@) =~= spec_json_obj(fields@) + opt_code_outputs_field(
                    None,
                ));
            }
        },
        Some(cs) => {
            let ghost gcs = cs.deep_view();
            let mut out: Vec<JsonValue> = Vec::new();
            let n = cs.len();
            for i in 0..n
                invariant
                    n == cs.len(),
                    out.len() == i,
                    forall|j: int| 0 <= j < i ==> out@[j].deep_view() == spec_encode_code_output(
                        cs@[j].deep_view(),
                    ),
            {
                out.push(encode_code_output(&cs[i]));
            }
            proof {
                crate::json::lemma_spec_json_arr(out@);
                assert(spec_json_arr(out@) =~= gcs.map_values(
                    |c: SpecCodeOutput| spec_encode_code_output(c),
                ));
            }
            push_field(fields, "code_outputs", JsonValue::Arr(out));
            proof {
                assert(spec_json_obj(fields@) =~= spec_json_obj(old(fields)@)
                    + opt_code_outputs_field(Some(gcs)));
            }
        },
    }
}

/// Writes a message back to its wire form.
fn encode_message(m: &TranscriptMessage) -> (r: JsonValue)
    ensures
        r.deep_view() == spec_encode_message(m.deep_view()),
{
    let mut fields: Vec<JsonField> = Vec::new();
    proof {
        assert(spec_json_obj(fields@) =~= Seq::<(Seq<char>, SpecJson)>::empty());
    }
    match m {
        TranscriptMessage::User { content } => {
            push_field(&mut fields, "role", JsonValue::Str("user".to_owned()));
            push_content_field(&mut fields, content);
            proof {
                assert(spec_json_obj(fields@) =~= seq![("role"@, SpecJson::Str("user"@))]
                    + opt_content_field(content.deep_view()));
                assert(JsonValue::Obj(fields).deep_view() =~= spec_encode_message(m.deep_view()));
            }
        },
        TranscriptMessage::Assistant {
            id,
            message_type,
            model,
            content,
            thinking,
            tool_uses,
            code_outputs,
            stop_reason,
            stop_sequence,
            usage,
        } => {
            push_field(&mut fields, "role", JsonValue::Str("assistant".to_owned()));
            push_str_field(&mut fields, "id", id);
            push_str_field(&mut fields, "type", message_type);
            push_str_field(&mut fields, "model", model);
            push_content_field(&mut fields, content);
            push_opt_str_field(&mut fields, "thinking", thinking);
            push_tool_uses_field(&mut fields, tool_uses);
            push_code_outputs_field(&mut fields, code_outputs);
            push_nullable_str_field(&mut fields, "stop_reason", stop_reason);
            push_nullable_str_field(&mut fields, "stop_sequence", stop_sequence);
            push_field(&mut fields, "usage", encode_usage(usage));
            proof {
                let target = seq![
                    ("role"@, SpecJson::Str("assistant"@)),
                    ("id"@, SpecJson::Str(id@)),
                    ("type"@, SpecJson::Str(message_type@)),
                    ("model"@, SpecJson::Str(model@)),
                ] + opt_content_field(content.deep_view()) + opt_str_field(
                    "thinking"@,
                    thinking.deep_view(),
                ) + opt_tool_uses_field(tool_uses.deep_view()) + opt_code_outputs_field(
                    code_outputs.deep_view(),
                ) + nullable_str_field("stop_reason"@, stop_reason.deep_view())
                    + nullable_str_field("stop_sequence"@, stop_sequence.deep_view()) + seq![
                    ("usage"@, spec_encode_usage(usage.deep_view())),
                ];
                assert(spec_json_obj(fields@) =~= target);
                assert(JsonValue::Obj(fields).deep_view() =~= spec_encode_message(m.deep_view()));
            }
        },
    }
    proof {
        assert(JsonValue::Obj(fields).deep_view() =~= spec_encode_message(m.deep_view()));
    }
    JsonValue::Obj(fields)
}

impl TranscriptEntry {
    /// Writes the entry back to the JSON tree its wire form denotes: the
    /// discriminant `type` first, then the fields in declaration order.
    #[verifier::rlimit(60)]
    pub fn to_json(&self) -> (r: JsonValue)
        ensures
            r.deep_view() == spec_encode_entry(self.deep_view()),
    {
        let mut fields: Vec<JsonField> = Vec::new();
        proof {
            assert(spec_json_obj(fields@) =~= Seq::<(Seq<char>, SpecJson)>::empty());
        }
        match self {
            TranscriptEntry::User(u) => {
                push_field(&mut fields, "type", JsonValue::Str("user".to_owned()));
                push_str_field(&mut fields, "uuid", &u.uuid);
                push_str_field(&mut fields, "timestamp", &u.timestamp);
                push_field(&mut fields, "message", encode_message(&u.message));
                push_str_field(&mut fields, "cwd", &u.cwd);
                push_str_field(&mut fields, "sessionId", &u.session_id);
                push_str_field(&mut fields, "version", &u.version);
                push_str_field(&mut fields, "userType", &u.user_type);
                push_field(&mut fields, "isSidechain", JsonValue::Bool(u.is_sidechain));
                push_nullable_str_field(&mut fields, "parentUuid", &u.parent_uuid);
                push_opt_json_field(&mut fields, "toolUseResult", &u.tool_use_result);
                proof {
                    let target = seq![
                        ("type"@, SpecJson::Str("user"@)),
                        ("uuid"@, SpecJson::Str(u.uuid@)),
                        ("timestamp"@, SpecJson::Str(u.timestamp@)),
                        ("message"@, spec_encode_message(u.message.deep_view())),
                        ("cwd"@, SpecJson::Str(u.cwd@)),
                        ("sessionId"@, SpecJson::Str(u.session_id@)),
                        ("version"@, SpecJson::Str(u.version@)),
                        ("userType"@, SpecJson::Str(u.user_type@)),
                        ("isSidechain"@, SpecJson::Bool(u.is_sidechain)),
                    ] + nullable_str_field("parentUuid"@, u.parent_uuid.deep_view()) + opt_field(
                        "toolUseResult"@,
                        u.tool_use_result.deep_view(),
                    );
                    assert(spec_json_obj(fields@) =~= target);
                    assert(JsonValue::Obj(fields).deep_view() =~= spec_encode_entry(
                        self.deep_view(),
                    ));
                }
            },
            TranscriptEntry::Assistant(a) => {
                push_field(&mut fields, "type", JsonValue::Str("assistant".to_owned()));
                push_str_field(&mut fields, "uuid", &a.uuid);
                push_str_field(&mut fields, "timestamp", &a.timestamp);
                push_field(&mut fields, "message", encode_message(&a.message));
                push_str_field(&mut fields, "cwd", &a.cwd);
                push_str_field(&mut fields, "sessionId", &a.session_id);
                push_str_field(&mut fields, "version", &a.version);
                push_str_field(&mut fields, "userType", &a.user_type);
                push_field(&mut fields, "isSidechain", JsonValue::Bool(a.is_sidechain));
                push_str_field(&mut fields, "parentUuid", &a.parent_uuid);
                push_opt_str_field(&mut fields, "requestId", &a.request_id);
                push_opt_bool_field(&mut fields, "isApiErrorMessage", &a.is_api_error_message);
                proof {
                    let target = seq![
                        ("type"@, SpecJson::Str("assistant"@)),
                        ("uuid"@, SpecJson::Str(a.uuid@)),
                        ("timestamp"@, SpecJson::Str(a.timestamp@)),
                        ("message"@, spec_encode_message(a.message.deep_view())),
                        ("cwd"@, SpecJson::Str(a.cwd@)),
                        ("sessionId"@, SpecJson::Str(a.session_id@)),
                        ("version"@, SpecJson::Str(a.version@)),
                        ("userType"@, SpecJson::Str(a.user_type@)),
                        ("isSidechain"@, SpecJson::Bool(a.is_sidechain)),
                        ("parentUuid"@, SpecJson::Str(a.parent_uuid@)),
                    ] + opt_str_field("requestId"@, a.request_id.deep_view()) + opt_bool_field(
                        "isApiErrorMessage"@,
                        a.is_api_error_message,
                    );
                    assert(spec_json_obj(fields@) =~= target);
                    assert(JsonValue::Obj(fields).deep_view() =~= spec_encode_entry(
                        self.deep_view(),
                    ));
                }
            },
            TranscriptEntry::Summary(s) => {
                push_field(&mut fields, "type", JsonValue::Str("summary".to_owned()));
                push_str_field(&mut fields, "summary", &s.summary);
                push_str_field(&mut fields, "leafUuid", &s.leaf_uuid);
                proof {
                    assert(spec_json_obj(fields@) =~= seq![
                        ("type"@, SpecJson::Str("summary"@)),
                        ("summary"@, SpecJson::Str(s.summary@)),
                        ("leafUuid"@, SpecJson::Str(s.leaf_uuid@)),
                    ]);
                    assert(JsonValue::Obj(fields).deep_view() =~= spec_encode_entry(
                        self.deep_view(),
                    ));
                }
            },
            TranscriptEntry::System(s) => {
                push_field(&mut fields, "type", JsonValue::Str("system".to_owned()));
                push_str_field(&mut fields, "uuid", &s.uuid);
                push_str_field(&mut fields, "timestamp", &s.timestamp);
                push_str_field(&mut fields, "content", &s.content);
                push_str_field(&mut fields, "cwd", &s.cwd);
                push_str_field(&mut fields, "sessionId", &s.session_id);
                push_str_field(&mut fields, "version", &s.version);
                push_str_field(&mut fields, "userType", &s.user_type);
                push_field(&mut fields, "isSidechain", JsonValue::Bool(s.is_sidechain));
                push_str_field(&mut fields, "parentUuid", &s.parent_uuid);
                push_field(&mut fields, "isMeta", JsonValue::Bool(s.is_meta));
                push_opt_str_field(&mut fields, "level", &s.level);
                push_opt_str_field(&mut fields, "toolUseID", &s.tool_use_id);
                proof {
                    let target = seq![
                        ("type"@, SpecJson::Str("system"@)),
                        ("uuid"@, SpecJson::Str(s.uuid@)),
                        ("timestamp"@, SpecJson::Str(s.timestamp@)),
                        ("content"@, SpecJson::Str(s.content@)),
                        ("cwd"@, SpecJson::Str(s.cwd@)),
                        ("sessionId"@, SpecJson::Str(s.session_id@)),
                        ("version"@, SpecJson::Str(s.version@)),
                        ("userType"@, SpecJson::Str(s.user_type@)),
                        ("isSidechain"@, SpecJson::Bool(s.is_sidechain)),
                        ("parentUuid"@, SpecJson::Str(s.parent_uuid@)),
                        ("isMeta"@, SpecJson::Bool(s.is_meta)),
                    ] + opt_str_field("level"@, s.level.deep_view()) + opt_str_field(
                        "toolUseID"@,
                        s.tool_use_id.deep_view(),
                    );
                    assert(spec_json_obj(fields@) =~= target);
                    assert(JsonValue::Obj(fields).deep_view() =~= spec_encode_entry(
                        self.deep_view(),
                    ));
                }
            },
        }
        proof {
            assert(JsonValue::Obj(fields).deep_view() =~= spec_encode_entry(self.deep_view()));
        }
        JsonValue::Obj(fields)
    }
}

} // verus!
