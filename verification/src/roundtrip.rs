//! The decoder inverts the encoder.
//!
//! Writing an entry to its wire form and decoding that form gives the entry
//! back. The one corner the wire format cannot carry is an opaque payload
//! that is present but `null`: the key is written as `null` and read back as
//! absent, as the optional-field convention demands, so the round trip asks
//! for payloads that are not bare `null`.

use vstd::prelude::*;

use crate::decode::SpecDecodeError;
use crate::decode::spec_decode_block;
use crate::decode::spec_decode_blocks;
use crate::decode::spec_decode_content;
use crate::decode::spec_decode_entry;
use crate::decode::spec_decode_item;
use crate::decode::spec_decode_items;
use crate::decode::spec_decode_code_output;
use crate::decode::spec_decode_code_outputs;
use crate::decode::spec_decode_message;
use crate::decode::spec_decode_tool_use;
use crate::decode::spec_decode_tool_uses;
use crate::decode::spec_decode_usage;
use crate::decode::spec_decode_tool_result_content;
use crate::encode::opt_bool_field;
use crate::encode::opt_content_field;
use crate::encode::opt_field;
use crate::encode::opt_str_field;
use crate::encode::nullable_str_field;
use crate::encode::opt_code_outputs_field;
use crate::encode::opt_num_field;
use crate::encode::opt_tool_uses_field;
use crate::encode::spec_encode_code_output;
use crate::encode::spec_encode_tool_use;
use crate::encode::spec_encode_usage;
use crate::encode::spec_encode_block;
use crate::encode::spec_encode_content;
use crate::encode::spec_encode_entry;
use crate::encode::spec_encode_item;
use crate::encode::spec_encode_message;
use crate::encode::spec_encode_tool_result_content;
use crate::json::SpecJson;
use crate::json::lemma_obj_get_absent;
use crate::json::lemma_obj_get_append;
use crate::json::lemma_obj_get_at;
use crate::json::obj_get;
use crate::transcript::SpecBlock;
use crate::transcript::SpecContent;
use crate::transcript::SpecEntry;
use crate::transcript::SpecMessage;
use crate::transcript::SpecSummaryEntry;
use crate::transcript::SpecSystemEntry;
use crate::num::lemma_u64_digits_roundtrip;
use crate::transcript::SpecCodeOutput;
use crate::transcript::SpecToolResultContent;
use crate::transcript::SpecToolUse;
use crate::transcript::SpecUsage;
use crate::transcript::SpecToolResultItem;
use crate::transcript::SpecAssistantEntry;
use crate::transcript::SpecUserEntry;

verus! {

/// Decoding the wire form of a summary entry gives the entry back.
pub proof fn lemma_summary_decode_round_trip(s: SpecSummaryEntry)
    ensures
        spec_decode_entry(spec_encode_entry(SpecEntry::Summary(s))) == Ok::<
            SpecEntry,
            SpecDecodeError,
        >(SpecEntry::Summary(s)),
{
    reveal_strlit("type");
    reveal_strlit("user");
    reveal_strlit("assistant");
    reveal_strlit("summary");
    reveal_strlit("system");
    reveal_strlit("leafUuid");
    let fs = seq![
        ("type"@, SpecJson::Str("summary"@)),
        ("summary"@, SpecJson::Str(s.summary)),
        ("leafUuid"@, SpecJson::Str(s.leaf_uuid)),
    ];
    assert(spec_encode_entry(SpecEntry::Summary(s)) == SpecJson::Obj(fs));
    let fs1 = fs.drop_first();
    let fs2 = fs1.drop_first();
    assert(fs1[0] == fs[1] && fs1[1] == fs[2] && fs2[0] == fs[2]);
    assert(obj_get(fs, "type"@) == Some(SpecJson::Str("summary"@)));
    assert("type"@.len() == 4 && "user"@.len() == 4 && "assistant"@.len() == 9);
    assert("summary"@.len() == 7 && "system"@.len() == 6 && "leafUuid"@.len() == 8);
    assert("summary"@ != "user"@ && "summary"@ != "assistant"@);
    assert("type"@ != "summary"@ && "type"@ != "leafUuid"@ && "summary"@ != "leafUuid"@);
    assert(obj_get(fs, "summary"@) == obj_get(fs1, "summary"@));
    assert(obj_get(fs1, "summary"@) == Some(SpecJson::Str(s.summary)));
    assert(obj_get(fs, "leafUuid"@) == obj_get(fs1, "leafUuid"@));
    assert(obj_get(fs1, "leafUuid"@) == obj_get(fs2, "leafUuid"@));
    assert(obj_get(fs2, "leafUuid"@) == Some(SpecJson::Str(s.leaf_uuid)));
    assert(SpecSummaryEntry { summary: s.summary, leaf_uuid: s.leaf_uuid } =~= s);
}


/// Decoding the wire form of a system entry gives the entry back.
pub proof fn lemma_system_decode_round_trip(s: SpecSystemEntry)
    ensures
        spec_decode_entry(spec_encode_entry(SpecEntry::System(s))) == Ok::<
            SpecEntry,
            SpecDecodeError,
        >(SpecEntry::System(s)),
{
    reveal_strlit("type");
    reveal_strlit("user");
    reveal_strlit("assistant");
    reveal_strlit("summary");
    reveal_strlit("system");
    reveal_strlit("uuid");
    reveal_strlit("timestamp");
    reveal_strlit("content");
    reveal_strlit("cwd");
    reveal_strlit("sessionId");
    reveal_strlit("version");
    reveal_strlit("userType");
    reveal_strlit("isSidechain");
    reveal_strlit("parentUuid");
    reveal_strlit("isMeta");
    reveal_strlit("level");
    reveal_strlit("toolUseID");
    assert("type"@.len() == 4 && "uuid"@.len() == 4 && "timestamp"@.len() == 9);
    assert("content"@.len() == 7 && "cwd"@.len() == 3 && "sessionId"@.len() == 9);
    assert("version"@.len() == 7 && "userType"@.len() == 8 && "isSidechain"@.len() == 11);
    assert("parentUuid"@.len() == 10 && "isMeta"@.len() == 6 && "level"@.len() == 5);
    assert("toolUseID"@.len() == 9 && "system"@.len() == 6 && "user"@.len() == 4);
    assert("assistant"@.len() == 9);
    assert("uuid"@[0] == 'u' && "type"@[0] == 't');
    assert("uuid"@ != "type"@);
    assert("sessionId"@[0] == 's' && "timestamp"@[0] == 't' && "toolUseID"@[0] == 't');
    assert("sessionId"@ != "timestamp"@ && "toolUseID"@ != "sessionId"@);
    assert("toolUseID"@[1] == 'o' && "timestamp"@[1] == 'i');
    assert("toolUseID"@ != "timestamp"@);
    assert("version"@[0] == 'v' && "content"@[0] == 'c');
    assert("version"@ != "content"@);
    assert("system"@ != "user"@ && "system"@ != "assistant"@ && "system"@ != "summary"@);
    let base = seq![
        ("type"@, SpecJson::Str("system"@)),
        ("uuid"@, SpecJson::Str(s.uuid)),
        ("timestamp"@, SpecJson::Str(s.timestamp)),
        ("content"@, SpecJson::Str(s.content)),
        ("cwd"@, SpecJson::Str(s.cwd)),
        ("sessionId"@, SpecJson::Str(s.session_id)),
        ("version"@, SpecJson::Str(s.version)),
        ("userType"@, SpecJson::Str(s.user_type)),
        ("isSidechain"@, SpecJson::Bool(s.is_sidechain)),
        ("parentUuid"@, SpecJson::Str(s.parent_uuid)),
        ("isMeta"@, SpecJson::Bool(s.is_meta)),
    ];
    let fs = base + opt_str_field("level"@, s.level) + opt_str_field("toolUseID"@, s.tool_use_id);
    assert(spec_encode_entry(SpecEntry::System(s)) == SpecJson::Obj(fs));
    assert(fs.len() >= 11);
    assert(forall|j: int| 0 <= j < 11 ==> fs[j] == base[j]);
    lemma_obj_get_at(fs, "type"@, 0);
    lemma_obj_get_at(fs, "uuid"@, 1);
    lemma_obj_get_at(fs, "timestamp"@, 2);
    lemma_obj_get_at(fs, "content"@, 3);
    lemma_obj_get_at(fs, "cwd"@, 4);
    lemma_obj_get_at(fs, "sessionId"@, 5);
    lemma_obj_get_at(fs, "version"@, 6);
    lemma_obj_get_at(fs, "userType"@, 7);
    lemma_obj_get_at(fs, "isSidechain"@, 8);
    lemma_obj_get_at(fs, "parentUuid"@, 9);
    lemma_obj_get_at(fs, "isMeta"@, 10);
    match s.level {
        Some(l) => {
            assert(fs[11] == ("level"@, SpecJson::Str(l)));
            lemma_obj_get_at(fs, "level"@, 11);
            match s.tool_use_id {
                Some(t) => {
                    assert(fs[12] == ("toolUseID"@, SpecJson::Str(t)));
                    lemma_obj_get_at(fs, "toolUseID"@, 12);
                },
                None => {
                    lemma_obj_get_absent(fs, "toolUseID"@);
                },
            }
        },
        None => {
            lemma_obj_get_absent(fs, "level"@);
            match s.tool_use_id {
                Some(t) => {
                    assert(fs[11] == ("toolUseID"@, SpecJson::Str(t)));
                    lemma_obj_get_at(fs, "toolUseID"@, 11);
                },
                None => {
                    lemma_obj_get_absent(fs, "toolUseID"@);
                },
            }
        },
    }
    assert(SpecSystemEntry {
        uuid: s.uuid,
        timestamp: s.timestamp,
        content: s.content,
        cwd: s.cwd,
        session_id: s.session_id,
        version: s.version,
        user_type: s.user_type,
        is_sidechain: s.is_sidechain,
        parent_uuid: s.parent_uuid,
        is_meta: s.is_meta,
        level: s.level,
        tool_use_id: s.tool_use_id,
    } =~= s);
}



/// Decoding the wire form of a tool-result item gives the item back.
pub proof fn lemma_item_round_trip(it: SpecToolResultItem)
    ensures
        spec_decode_item(spec_encode_item(it)) == Ok::<SpecToolResultItem, SpecDecodeError>(it),
{
    reveal_strlit("type");
    reveal_strlit("text");
    assert("type"@.len() == 4 && "text"@.len() == 4);
    assert("type"@[1] == 'y' && "text"@[1] == 'e');
    assert("type"@ != "text"@);
    let fs = seq![("type"@, SpecJson::Str(it.item_type)), ("text"@, SpecJson::Str(it.text))];
    assert(spec_encode_item(it) == SpecJson::Obj(fs));
    lemma_obj_get_at(fs, "type"@, 0);
    lemma_obj_get_at(fs, "text"@, 1);
    assert(SpecToolResultItem { item_type: it.item_type, text: it.text } =~= it);
}

/// Decoding a list of encoded tool-result items gives the items back.
pub proof fn lemma_items_round_trip(xs: Seq<SpecToolResultItem>, ms: Seq<SpecJson>)
    requires
        ms.len() == xs.len(),
        forall|i: int| 0 <= i < xs.len() ==> ms[i] == spec_encode_item(xs[i]),
    ensures
        spec_decode_items(ms) == Ok::<Seq<SpecToolResultItem>, SpecDecodeError>(xs),
    decreases xs.len(),
{
    if xs.len() == 0 {
        assert(xs =~= Seq::<SpecToolResultItem>::empty());
    } else {
        assert(forall|i: int| 0 <= i < xs.len() - 1 ==> ms.drop_last()[i] == ms[i]);
        lemma_items_round_trip(xs.drop_last(), ms.drop_last());
        lemma_item_round_trip(xs.last());
        assert(ms.last() == spec_encode_item(xs.last()));
        assert(xs.drop_last().push(xs.last()) =~= xs);
    }
}

/// Decoding the wire form of a tool result's content gives it back.
pub proof fn lemma_tool_result_content_round_trip(c: SpecToolResultContent)
    ensures
        spec_decode_tool_result_content(spec_encode_tool_result_content(c)) == Ok::<
            SpecToolResultContent,
            SpecDecodeError,
        >(c),
{
    match c {
        SpecToolResultContent::Text(_) => {},
        SpecToolResultContent::Array(items) => {
            let ms = items.map_values(|it: SpecToolResultItem| spec_encode_item(it));
            lemma_items_round_trip(items, ms);
        },
    }
}

/// Decoding the wire form of a content block gives the block back.
pub proof fn lemma_block_round_trip(b: SpecBlock)
    ensures
        spec_decode_block(spec_encode_block(b)) == Ok::<SpecBlock, SpecDecodeError>(b),
{
    reveal_strlit("type");
    reveal_strlit("text");
    reveal_strlit("tool_use");
    reveal_strlit("tool_result");
    reveal_strlit("thinking");
    reveal_strlit("id");
    reveal_strlit("name");
    reveal_strlit("input");
    reveal_strlit("tool_use_id");
    reveal_strlit("content");
    reveal_strlit("is_error");
    reveal_strlit("signature");
    assert("type"@.len() == 4 && "text"@.len() == 4 && "tool_use"@.len() == 8);
    assert("tool_result"@.len() == 11 && "thinking"@.len() == 8 && "id"@.len() == 2);
    assert("name"@.len() == 4 && "input"@.len() == 5 && "tool_use_id"@.len() == 11);
    assert("content"@.len() == 7 && "is_error"@.len() == 8 && "signature"@.len() == 9);
    assert("type"@[1] == 'y' && "text"@[1] == 'e' && "name"@[1] == 'a');
    assert("type"@ != "text"@ && "type"@ != "name"@);
    assert("tool_use"@[1] == 'o' && "thinking"@[1] == 'h');
    assert("text"@ != "tool_use"@ && "text"@ != "tool_result"@ && "text"@ != "thinking"@);
    assert("tool_use"@ != "tool_result"@ && "tool_use"@ != "thinking"@);
    assert("tool_result"@ != "thinking"@);
    match b {
        SpecBlock::Text { text } => {
            let fs = seq![("type"@, SpecJson::Str("text"@)), ("text"@, SpecJson::Str(text))];
            assert(spec_encode_block(b) == SpecJson::Obj(fs));
            lemma_obj_get_at(fs, "type"@, 0);
            lemma_obj_get_at(fs, "text"@, 1);
            assert(SpecBlock::Text { text } =~= b);
        },
        SpecBlock::ToolUse { id, name, input } => {
            let fs = seq![
                ("type"@, SpecJson::Str("tool_use"@)),
                ("id"@, SpecJson::Str(id)),
                ("name"@, SpecJson::Str(name)),
                ("input"@, input),
            ];
            assert(spec_encode_block(b) == SpecJson::Obj(fs));
            lemma_obj_get_at(fs, "type"@, 0);
            lemma_obj_get_at(fs, "id"@, 1);
            lemma_obj_get_at(fs, "name"@, 2);
            lemma_obj_get_at(fs, "input"@, 3);
            assert(SpecBlock::ToolUse { id, name, input } =~= b);
        },
        SpecBlock::ToolResult { tool_use_id, content, is_error } => {
            let base = seq![
                ("type"@, SpecJson::Str("tool_result"@)),
                ("tool_use_id"@, SpecJson::Str(tool_use_id)),
                ("content"@, spec_encode_tool_result_content(content)),
            ];
            let fs = base + opt_bool_field("is_error"@, is_error);
            assert(spec_encode_block(b) == SpecJson::Obj(fs));
            assert(forall|j: int| 0 <= j < 3 ==> fs[j] == base[j]);
            lemma_obj_get_at(fs, "type"@, 0);
            lemma_obj_get_at(fs, "tool_use_id"@, 1);
            lemma_obj_get_at(fs, "content"@, 2);
            match is_error {
                Some(e) => {
                    assert(fs[3] == ("is_error"@, SpecJson::Bool(e)));
                    lemma_obj_get_at(fs, "is_error"@, 3);
                },
                None => {
                    lemma_obj_get_absent(fs, "is_error"@);
                },
            }
            lemma_tool_result_content_round_trip(content);
            assert(SpecBlock::ToolResult { tool_use_id, content, is_error } =~= b);
        },
        SpecBlock::Thinking { thinking, signature } => {
            let base = seq![
                ("type"@, SpecJson::Str("thinking"@)),
                ("thinking"@, SpecJson::Str(thinking)),
            ];
            let fs = base + opt_str_field("signature"@, signature);
            assert(spec_encode_block(b) == SpecJson::Obj(fs));
            assert(forall|j: int| 0 <= j < 2 ==> fs[j] == base[j]);
            lemma_obj_get_at(fs, "type"@, 0);
            lemma_obj_get_at(fs, "thinking"@, 1);
            match signature {
                Some(sg) => {
                    assert(fs[2] == ("signature"@, SpecJson::Str(sg)));
                    lemma_obj_get_at(fs, "signature"@, 2);
                },
                None => {
                    lemma_obj_get_absent(fs, "signature"@);
                },
            }
            assert(SpecBlock::Thinking { thinking, signature } =~= b);
        },
    }
}

/// Decoding a list of encoded content blocks gives the blocks back.
pub proof fn lemma_blocks_round_trip(bs: Seq<SpecBlock>, ms: Seq<SpecJson>)
    requires
        ms.len() == bs.len(),
        forall|i: int| 0 <= i < bs.len() ==> ms[i] == spec_encode_block(bs[i]),
    ensures
        spec_decode_blocks(ms) == Ok::<Seq<SpecBlock>, SpecDecodeError>(bs),
    decreases bs.len(),
{
    if bs.len() == 0 {
        assert(bs =~= Seq::<SpecBlock>::empty());
    } else {
        assert(forall|i: int| 0 <= i < bs.len() - 1 ==> ms.drop_last()[i] == ms[i]);
        lemma_blocks_round_trip(bs.drop_last(), ms.drop_last());
        lemma_block_round_trip(bs.last());
        assert(ms.last() == spec_encode_block(bs.last()));
        assert(bs.drop_last().push(bs.last()) =~= bs);
    }
}

/// Decoding the wire form of message content gives it back.
pub proof fn lemma_content_round_trip(c: SpecContent)
    ensures
        spec_decode_content(spec_encode_content(c)) == Ok::<SpecContent, SpecDecodeError>(c),
{
    match c {
        SpecContent::Text(_) => {},
        SpecContent::Blocks(bs) => {
            let ms = bs.map_values(|b: SpecBlock| spec_encode_block(b));
            lemma_blocks_round_trip(bs, ms);
        },
    }
}


/// What looking a key up in an optional string field yields.
proof fn lemma_opt_str_field_get(k1: Seq<char>, v: Option<Seq<char>>, k: Seq<char>)
    ensures
        k != k1 ==> obj_get(opt_str_field(k1, v), k) is None,
        k == k1 ==> obj_get(opt_str_field(k1, v), k) == (match v {
            Some(s) => Some(SpecJson::Str(s)),
            None => None,
        }),
{
    assert(obj_get(Seq::<(Seq<char>, SpecJson)>::empty(), k) is None);
    match v {
        Some(s) => {
            assert(opt_str_field(k1, v) == seq![(k1, SpecJson::Str(s))]);
            assert(opt_str_field(k1, v).drop_first() =~= Seq::<(Seq<char>, SpecJson)>::empty());
        },
        None => {
            assert(opt_str_field(k1, v) =~= Seq::<(Seq<char>, SpecJson)>::empty());
        },
    }
}

/// What looking a key up in an optional boolean field yields.
proof fn lemma_opt_bool_field_get(k1: Seq<char>, v: Option<bool>, k: Seq<char>)
    ensures
        k != k1 ==> obj_get(opt_bool_field(k1, v), k) is None,
        k == k1 ==> obj_get(opt_bool_field(k1, v), k) == (match v {
            Some(b) => Some(SpecJson::Bool(b)),
            None => None,
        }),
{
    assert(obj_get(Seq::<(Seq<char>, SpecJson)>::empty(), k) is None);
    match v {
        Some(b) => {
            assert(opt_bool_field(k1, v) == seq![(k1, SpecJson::Bool(b))]);
            assert(opt_bool_field(k1, v).drop_first() =~= Seq::<(Seq<char>, SpecJson)>::empty());
        },
        None => {
            assert(opt_bool_field(k1, v) =~= Seq::<(Seq<char>, SpecJson)>::empty());
        },
    }
}

/// What looking a key up in an optional count field yields.
proof fn lemma_opt_num_field_get(k1: Seq<char>, v: Option<u64>, k: Seq<char>)
    ensures
        k != k1 ==> obj_get(opt_num_field(k1, v), k) is None,
        k == k1 ==> obj_get(opt_num_field(k1, v), k) == (match v {
            Some(n) => Some(SpecJson::Num(crate::num::spec_u64_digits(n as int))),
            None => None,
        }),
{
    assert(obj_get(Seq::<(Seq<char>, SpecJson)>::empty(), k) is None);
    match v {
        Some(n) => {
            assert(opt_num_field(k1, v) == seq![
                (k1, SpecJson::Num(crate::num::spec_u64_digits(n as int))),
            ]);
            assert(opt_num_field(k1, v).drop_first() =~= Seq::<(Seq<char>, SpecJson)>::empty());
        },
        None => {
            assert(opt_num_field(k1, v) =~= Seq::<(Seq<char>, SpecJson)>::empty());
        },
    }
}

/// What looking a key up in an optional raw payload field yields.
proof fn lemma_opt_field_get(k1: Seq<char>, v: Option<SpecJson>, k: Seq<char>)
    ensures
        k != k1 ==> obj_get(opt_field(k1, v), k) is None,
        k == k1 ==> obj_get(opt_field(k1, v), k) == v,
{
    assert(obj_get(Seq::<(Seq<char>, SpecJson)>::empty(), k) is None);
    match v {
        Some(x) => {
            assert(opt_field(k1, v) == seq![(k1, x)]);
            assert(opt_field(k1, v).drop_first() =~= Seq::<(Seq<char>, SpecJson)>::empty());
        },
        None => {
            assert(opt_field(k1, v) =~= Seq::<(Seq<char>, SpecJson)>::empty());
        },
    }
}

/// What looking a key up in a null-carrying string field yields.
proof fn lemma_nullable_str_field_get(k1: Seq<char>, v: Option<Seq<char>>, k: Seq<char>)
    ensures
        k != k1 ==> obj_get(nullable_str_field(k1, v), k) is None,
        k == k1 ==> obj_get(nullable_str_field(k1, v), k) == Some(match v {
            Some(s) => SpecJson::Str(s),
            None => SpecJson::Null,
        }),
{
    assert(obj_get(Seq::<(Seq<char>, SpecJson)>::empty(), k) is None);
    match v {
        Some(s) => {
            assert(nullable_str_field(k1, v) == seq![(k1, SpecJson::Str(s))]);
            assert(nullable_str_field(k1, v).drop_first() =~= Seq::<(Seq<char>, SpecJson)>::empty());
        },
        None => {
            assert(nullable_str_field(k1, v) == seq![(k1, SpecJson::Null)]);
            assert(nullable_str_field(k1, v).drop_first() =~= Seq::<(Seq<char>, SpecJson)>::empty());
        },
    }
}

/// What looking a key up in the optional content field yields.
proof fn lemma_opt_content_field_get(v: Option<SpecContent>, k: Seq<char>)
    ensures
        k != "content"@ ==> obj_get(opt_content_field(v), k) is None,
        k == "content"@ ==> obj_get(opt_content_field(v), k) == (match v {
            Some(c) => Some(spec_encode_content(c)),
            None => None,
        }),
{
    assert(obj_get(Seq::<(Seq<char>, SpecJson)>::empty(), k) is None);
    match v {
        Some(c) => {
            assert(opt_content_field(v) == seq![("content"@, spec_encode_content(c))]);
            assert(opt_content_field(v).drop_first() =~= Seq::<(Seq<char>, SpecJson)>::empty());
        },
        None => {
            assert(opt_content_field(v) =~= Seq::<(Seq<char>, SpecJson)>::empty());
        },
    }
}

/// What looking a key up in the optional tool-use list field yields.
proof fn lemma_opt_tool_uses_field_get(v: Option<Seq<SpecToolUse>>, k: Seq<char>)
    ensures
        k != "tool_uses"@ ==> obj_get(opt_tool_uses_field(v), k) is None,
        k == "tool_uses"@ ==> obj_get(opt_tool_uses_field(v), k) == (match v {
            Some(ts) => Some(
                SpecJson::Arr(ts.map_values(|t: SpecToolUse| spec_encode_tool_use(t))),
            ),
            None => None,
        }),
{
    assert(obj_get(Seq::<(Seq<char>, SpecJson)>::empty(), k) is None);
    match v {
        Some(ts) => {
            assert(opt_tool_uses_field(v) == seq![
                (
                    "tool_uses"@,
                    SpecJson::Arr(ts.map_values(|t: SpecToolUse| spec_encode_tool_use(t))),
                ),
            ]);
            assert(opt_tool_uses_field(v).drop_first() =~= Seq::<(Seq<char>, SpecJson)>::empty());
        },
        None => {
            assert(opt_tool_uses_field(v) =~= Seq::<(Seq<char>, SpecJson)>::empty());
        },
    }
}

/// What looking a key up in the optional code-output list field yields.
proof fn lemma_opt_code_outputs_field_get(v: Option<Seq<SpecCodeOutput>>, k: Seq<char>)
    ensures
        k != "code_outputs"@ ==> obj_get(opt_code_outputs_field(v), k) is None,
        k == "code_outputs"@ ==> obj_get(opt_code_outputs_field(v), k) == (match v {
            Some(cs) => Some(
                SpecJson::Arr(cs.map_values(|c: SpecCodeOutput| spec_encode_code_output(c))),
            ),
            None => None,
        }),
{
    assert(obj_get(Seq::<(Seq<char>, SpecJson)>::empty(), k) is None);
    match v {
        Some(cs) => {
            assert(opt_code_outputs_field(v) == seq![
                (
                    "code_outputs"@,
                    SpecJson::Arr(cs.map_values(|c: SpecCodeOutput| spec_encode_code_output(c))),
                ),
            ]);
            assert(opt_code_outputs_field(v).drop_first() =~= Seq::<(Seq<char>, SpecJson)>::empty());
        },
        None => {
            assert(opt_code_outputs_field(v) =~= Seq::<(Seq<char>, SpecJson)>::empty());
        },
    }
}

/// A recorded tool invocation survives the round trip unless its output
/// payload is a bare `null`.
pub open spec fn spec_tool_use_round_trippable(t: SpecToolUse) -> bool {
    t.tool_output != Some(SpecJson::Null)
}

/// Decoding the wire form of a recorded tool invocation gives it back.
pub proof fn lemma_tool_use_round_trip(t: SpecToolUse)
    requires
        spec_tool_use_round_trippable(t),
    ensures
        spec_decode_tool_use(spec_encode_tool_use(t)) == Ok::<SpecToolUse, SpecDecodeError>(t),
{
    reveal_strlit("toolName");
    reveal_strlit("toolInput");
    reveal_strlit("toolOutput");
    assert("toolName"@.len() == 8 && "toolInput"@.len() == 9 && "toolOutput"@.len() == 10);
    let base = seq![("toolName"@, SpecJson::Str(t.tool_name)), ("toolInput"@, t.tool_input)];
    let c1 = opt_field("toolOutput"@, t.tool_output);
    let fs = base + c1;
    assert(spec_encode_tool_use(t) == SpecJson::Obj(fs));
    lemma_obj_get_append(base, c1, "toolName"@);
    lemma_obj_get_append(base, c1, "toolInput"@);
    lemma_obj_get_append(base, c1, "toolOutput"@);
    lemma_obj_get_at(base, "toolName"@, 0);
    lemma_obj_get_at(base, "toolInput"@, 1);
    lemma_obj_get_absent(base, "toolOutput"@);
    lemma_opt_field_get("toolOutput"@, t.tool_output, "toolOutput"@);
    assert(SpecToolUse {
        tool_name: t.tool_name,
        tool_input: t.tool_input,
        tool_output: t.tool_output,
    } =~= t);
}

/// Decoding a list of encoded tool invocations gives them back.
pub proof fn lemma_tool_uses_round_trip(ts: Seq<SpecToolUse>, ms: Seq<SpecJson>)
    requires
        ms.len() == ts.len(),
        forall|i: int| 0 <= i < ts.len() ==> ms[i] == spec_encode_tool_use(ts[i]),
        forall|i: int| 0 <= i < ts.len() ==> spec_tool_use_round_trippable(#[trigger] ts[i]),
    ensures
        spec_decode_tool_uses(ms) == Ok::<Seq<SpecToolUse>, SpecDecodeError>(ts),
    decreases ts.len(),
{
    if ts.len() == 0 {
        assert(ts =~= Seq::<SpecToolUse>::empty());
    } else {
        assert(forall|i: int| 0 <= i < ts.len() - 1 ==> ms.drop_last()[i] == ms[i]);
        lemma_tool_uses_round_trip(ts.drop_last(), ms.drop_last());
        lemma_tool_use_round_trip(ts.last());
        assert(ms.last() == spec_encode_tool_use(ts.last()));
        assert(ts.drop_last().push(ts.last()) =~= ts);
    }
}

/// Decoding the wire form of a recorded code execution gives it back.
pub proof fn lemma_code_output_round_trip(c: SpecCodeOutput)
    ensures
        spec_decode_code_output(spec_encode_code_output(c)) == Ok::<
            SpecCodeOutput,
            SpecDecodeError,
        >(c),
{
    reveal_strlit("code");
    reveal_strlit("output");
    reveal_strlit("language");
    assert("code"@.len() == 4 && "output"@.len() == 6 && "language"@.len() == 8);
    let base = seq![("code"@, SpecJson::Str(c.code))];
    let c1 = opt_str_field("output"@, c.output);
    let c2 = opt_str_field("language"@, c.language);
    let fs = base + c1 + c2;
    assert(spec_encode_code_output(c) == SpecJson::Obj(fs));
    lemma_obj_get_at(base, "code"@, 0);
    lemma_obj_get_absent(base, "output"@);
    lemma_obj_get_absent(base, "language"@);
    lemma_opt_str_field_get("output"@, c.output, "code"@);
    lemma_opt_str_field_get("output"@, c.output, "output"@);
    lemma_opt_str_field_get("output"@, c.output, "language"@);
    lemma_opt_str_field_get("language"@, c.language, "code"@);
    lemma_opt_str_field_get("language"@, c.language, "output"@);
    lemma_opt_str_field_get("language"@, c.language, "language"@);
    lemma_obj_get_append(base + c1, c2, "code"@);
    lemma_obj_get_append(base, c1, "code"@);
    lemma_obj_get_append(base + c1, c2, "output"@);
    lemma_obj_get_append(base, c1, "output"@);
    lemma_obj_get_append(base + c1, c2, "language"@);
    lemma_obj_get_append(base, c1, "language"@);
    assert(SpecCodeOutput { code: c.code, output: c.output, language: c.language } =~= c);
}

/// Decoding a list of encoded code executions gives them back.
pub proof fn lemma_code_outputs_round_trip(cs: Seq<SpecCodeOutput>, ms: Seq<SpecJson>)
    requires
        ms.len() == cs.len(),
        forall|i: int| 0 <= i < cs.len() ==> ms[i] == spec_encode_code_output(cs[i]),
    ensures
        spec_decode_code_outputs(ms) == Ok::<Seq<SpecCodeOutput>, SpecDecodeError>(cs),
    decreases cs.len(),
{
    if cs.len() == 0 {
        assert(cs =~= Seq::<SpecCodeOutput>::empty());
    } else {
        assert(forall|i: int| 0 <= i < cs.len() - 1 ==> ms.drop_last()[i] == ms[i]);
        lemma_code_outputs_round_trip(cs.drop_last(), ms.drop_last());
        lemma_code_output_round_trip(cs.last());
        assert(ms.last() == spec_encode_code_output(cs.last()));
        assert(cs.drop_last().push(cs.last()) =~= cs);
    }
}

/// Decoding the wire form of a usage record gives it back.
pub proof fn lemma_usage_round_trip(u: SpecUsage)
    ensures
        spec_decode_usage(spec_encode_usage(u)->Obj_0) == Ok::<SpecUsage, SpecDecodeError>(u),
{
    reveal_strlit("cache_creation_input_tokens");
    reveal_strlit("cache_read_input_tokens");
    reveal_strlit("input_tokens");
    reveal_strlit("output_tokens");
    reveal_strlit("service_tier");
    assert("cache_creation_input_tokens"@.len() == 27);
    assert("cache_read_input_tokens"@.len() == 23);
    assert("input_tokens"@.len() == 12 && "output_tokens"@.len() == 13);
    assert("service_tier"@.len() == 12);
    assert("input_tokens"@[0] == 'i' && "service_tier"@[0] == 's');
    assert("input_tokens"@ != "service_tier"@);
    let c1 = opt_num_field("cache_creation_input_tokens"@, u.cache_creation_input_tokens);
    let c2 = opt_num_field("cache_read_input_tokens"@, u.cache_read_input_tokens);
    let c3 = opt_num_field("input_tokens"@, u.input_tokens);
    let c4 = opt_num_field("output_tokens"@, u.output_tokens);
    let c5 = opt_str_field("service_tier"@, u.service_tier);
    let fs = c1 + c2 + c3 + c4 + c5;
    assert(spec_encode_usage(u) == SpecJson::Obj(fs));
    lemma_obj_get_append(c1 + c2 + c3 + c4, c5, "cache_creation_input_tokens"@);
    lemma_obj_get_append(c1 + c2 + c3, c4, "cache_creation_input_tokens"@);
    lemma_obj_get_append(c1 + c2, c3, "cache_creation_input_tokens"@);
    lemma_obj_get_append(c1, c2, "cache_creation_input_tokens"@);
    lemma_opt_num_field_get("cache_creation_input_tokens"@, u.cache_creation_input_tokens, "cache_creation_input_tokens"@);
    lemma_opt_num_field_get("cache_read_input_tokens"@, u.cache_read_input_tokens, "cache_creation_input_tokens"@);
    lemma_opt_num_field_get("input_tokens"@, u.input_tokens, "cache_creation_input_tokens"@);
    lemma_opt_num_field_get("output_tokens"@, u.output_tokens, "cache_creation_input_tokens"@);
    lemma_opt_str_field_get("service_tier"@, u.service_tier, "cache_creation_input_tokens"@);
    lemma_obj_get_append(c1 + c2 + c3 + c4, c5, "cache_read_input_tokens"@);
    lemma_obj_get_append(c1 + c2 + c3, c4, "cache_read_input_tokens"@);
    lemma_obj_get_append(c1 + c2, c3, "cache_read_input_tokens"@);
    lemma_obj_get_append(c1, c2, "cache_read_input_tokens"@);
    lemma_opt_num_field_get("cache_creation_input_tokens"@, u.cache_creation_input_tokens, "cache_read_input_tokens"@);
    lemma_opt_num_field_get("cache_read_input_tokens"@, u.cache_read_input_tokens, "cache_read_input_tokens"@);
    lemma_opt_num_field_get("input_tokens"@, u.input_tokens, "cache_read_input_tokens"@);
    lemma_opt_num_field_get("output_tokens"@, u.output_tokens, "cache_read_input_tokens"@);
    lemma_opt_str_field_get("service_tier"@, u.service_tier, "cache_read_input_tokens"@);
    lemma_obj_get_append(c1 + c2 + c3 + c4, c5, "input_tokens"@);
    lemma_obj_get_append(c1 + c2 + c3, c4, "input_tokens"@);
    lemma_obj_get_append(c1 + c2, c3, "input_tokens"@);
    lemma_obj_get_append(c1, c2, "input_tokens"@);
    lemma_opt_num_field_get("cache_creation_input_tokens"@, u.cache_creation_input_tokens, "input_tokens"@);
    lemma_opt_num_field_get("cache_read_input_tokens"@, u.cache_read_input_tokens, "input_tokens"@);
    lemma_opt_num_field_get("input_tokens"@, u.input_tokens, "input_tokens"@);
    lemma_opt_num_field_get("output_tokens"@, u.output_tokens, "input_tokens"@);
    lemma_opt_str_field_get("service_tier"@, u.service_tier, "input_tokens"@);
    lemma_obj_get_append(c1 + c2 + c3 + c4, c5, "output_tokens"@);
    lemma_obj_get_append(c1 + c2 + c3, c4, "output_tokens"@);
    lemma_obj_get_append(c1 + c2, c3, "output_tokens"@);
    lemma_obj_get_append(c1, c2, "output_tokens"@);
    lemma_opt_num_field_get("cache_creation_input_tokens"@, u.cache_creation_input_tokens, "output_tokens"@);
    lemma_opt_num_field_get("cache_read_input_tokens"@, u.cache_read_input_tokens, "output_tokens"@);
    lemma_opt_num_field_get("input_tokens"@, u.input_tokens, "output_tokens"@);
    lemma_opt_num_field_get("output_tokens"@, u.output_tokens, "output_tokens"@);
    lemma_opt_str_field_get("service_tier"@, u.service_tier, "output_tokens"@);
    lemma_obj_get_append(c1 + c2 + c3 + c4, c5, "service_tier"@);
    lemma_obj_get_append(c1 + c2 + c3, c4, "service_tier"@);
    lemma_obj_get_append(c1 + c2, c3, "service_tier"@);
    lemma_obj_get_append(c1, c2, "service_tier"@);
    lemma_opt_num_field_get("cache_creation_input_tokens"@, u.cache_creation_input_tokens, "service_tier"@);
    lemma_opt_num_field_get("cache_read_input_tokens"@, u.cache_read_input_tokens, "service_tier"@);
    lemma_opt_num_field_get("input_tokens"@, u.input_tokens, "service_tier"@);
    lemma_opt_num_field_get("output_tokens"@, u.output_tokens, "service_tier"@);
    lemma_opt_str_field_get("service_tier"@, u.service_tier, "service_tier"@);
    if let Some(n) = u.cache_creation_input_tokens {
        lemma_u64_digits_roundtrip(n);
    }
    if let Some(n) = u.cache_read_input_tokens {
        lemma_u64_digits_roundtrip(n);
    }
    if let Some(n) = u.input_tokens {
        lemma_u64_digits_roundtrip(n);
    }
    if let Some(n) = u.output_tokens {
        lemma_u64_digits_roundtrip(n);
    }
    assert(SpecUsage {
        cache_creation_input_tokens: u.cache_creation_input_tokens,
        cache_read_input_tokens: u.cache_read_input_tokens,
        input_tokens: u.input_tokens,
        output_tokens: u.output_tokens,
        service_tier: u.service_tier,
    } =~= u);
}


/// Whether a message survives the round trip: every recorded tool
/// invocation must.
pub open spec fn spec_message_round_trippable(m: SpecMessage) -> bool {
    match m {
        SpecMessage::User { .. } => true,
        SpecMessage::Assistant { tool_uses, .. } => match tool_uses {
            Some(ts) => forall|i: int|
                0 <= i < ts.len() ==> spec_tool_use_round_trippable(#[trigger] ts[i]),
            None => true,
        },
    }
}

/// Encoded message content is never a bare `null`.
proof fn lemma_encode_content_not_null(c: SpecContent)
    ensures
        spec_encode_content(c) != SpecJson::Null,
{
    match c {
        SpecContent::Text(_) => {},
        SpecContent::Blocks(_) => {},
    }
}

/// Decoding the wire form of a message gives the message back.
#[verifier::rlimit(100)]
pub proof fn lemma_message_round_trip(m: SpecMessage)
    requires
        spec_message_round_trippable(m),
    ensures
        spec_decode_message(spec_encode_message(m)->Obj_0) == Ok::<SpecMessage, SpecDecodeError>(
            m,
        ),
{
    reveal_strlit("role");
    reveal_strlit("user");
    reveal_strlit("assistant");
    reveal_strlit("id");
    reveal_strlit("type");
    reveal_strlit("model");
    reveal_strlit("content");
    reveal_strlit("thinking");
    reveal_strlit("tool_uses");
    reveal_strlit("code_outputs");
    reveal_strlit("stop_reason");
    reveal_strlit("stop_sequence");
    reveal_strlit("usage");
    assert("role"@.len() == 4 && "user"@.len() == 4 && "assistant"@.len() == 9);
    assert("id"@.len() == 2 && "type"@.len() == 4 && "model"@.len() == 5);
    assert("content"@.len() == 7 && "thinking"@.len() == 8 && "tool_uses"@.len() == 9);
    assert("code_outputs"@.len() == 12 && "stop_reason"@.len() == 11);
    assert("stop_sequence"@.len() == 13 && "usage"@.len() == 5);
    assert("role"@[0] == 'r' && "type"@[0] == 't' && "user"@[0] == 'u');
    assert("role"@ != "type"@ && "role"@ != "user"@ && "type"@ != "user"@);
    assert("model"@[0] == 'm' && "usage"@[0] == 'u');
    assert("model"@ != "usage"@);
    assert("assistant"@[0] == 'a' && "tool_uses"@[0] == 't');
    assert("assistant"@ != "user"@ && "assistant"@ != "tool_uses"@);
    match m {
        SpecMessage::User { content } => {
            let base = seq![("role"@, SpecJson::Str("user"@))];
            let c = opt_content_field(content);
            let fs = base + c;
            assert(spec_encode_message(m) == SpecJson::Obj(fs));
            lemma_obj_get_append(base, c, "role"@);
            lemma_obj_get_append(base, c, "content"@);
            lemma_obj_get_at(base, "role"@, 0);
            lemma_obj_get_absent(base, "content"@);
            lemma_opt_content_field_get(content, "role"@);
            lemma_opt_content_field_get(content, "content"@);
            match content {
                Some(cc) => {
                    lemma_encode_content_not_null(cc);
                    lemma_content_round_trip(cc);
                },
                None => {},
            }
            assert(SpecMessage::User { content } =~= m);
        },
        SpecMessage::Assistant {
            id,
            message_type,
            model,
            content,
            thinking,
            tool_uses,
            code_outputs,
            stop_reason,
            stop_sequence,
            usage,
        } => {
            let base = seq![
                ("role"@, SpecJson::Str("assistant"@)),
                ("id"@, SpecJson::Str(id)),
                ("type"@, SpecJson::Str(message_type)),
                ("model"@, SpecJson::Str(model)),
            ];
            let c = opt_content_field(content);
            let th = opt_str_field("thinking"@, thinking);
            let tu = opt_tool_uses_field(tool_uses);
            let co = opt_code_outputs_field(code_outputs);
            let sr = nullable_str_field("stop_reason"@, stop_reason);
            let ss = nullable_str_field("stop_sequence"@, stop_sequence);
            let us = seq![("usage"@, spec_encode_usage(usage))];
            let fs = base + c + th + tu + co + sr + ss + us;
            assert(spec_encode_message(m) == SpecJson::Obj(fs));
            lemma_obj_get_at(base, "role"@, 0);
            lemma_obj_get_at(base, "id"@, 1);
            lemma_obj_get_at(base, "type"@, 2);
            lemma_obj_get_at(base, "model"@, 3);
            lemma_obj_get_absent(base, "content"@);
            lemma_obj_get_absent(base, "thinking"@);
            lemma_obj_get_absent(base, "tool_uses"@);
            lemma_obj_get_absent(base, "code_outputs"@);
            lemma_obj_get_absent(base, "stop_reason"@);
            lemma_obj_get_absent(base, "stop_sequence"@);
            lemma_obj_get_absent(base, "usage"@);
            lemma_obj_get_append(base + c + th + tu + co + sr + ss, us, "role"@);
            lemma_obj_get_append(base + c + th + tu + co + sr, ss, "role"@);
            lemma_obj_get_append(base + c + th + tu + co, sr, "role"@);
            lemma_obj_get_append(base + c + th + tu, co, "role"@);
            lemma_obj_get_append(base + c + th, tu, "role"@);
            lemma_obj_get_append(base + c, th, "role"@);
            lemma_obj_get_append(base, c, "role"@);
            lemma_opt_content_field_get(content, "role"@);
            lemma_opt_str_field_get("thinking"@, thinking, "role"@);
            lemma_opt_tool_uses_field_get(tool_uses, "role"@);
            lemma_opt_code_outputs_field_get(code_outputs, "role"@);
            lemma_nullable_str_field_get("stop_reason"@, stop_reason, "role"@);
            lemma_nullable_str_field_get("stop_sequence"@, stop_sequence, "role"@);
            lemma_obj_get_absent(us, "role"@);
            lemma_obj_get_append(base + c + th + tu + co + sr + ss, us, "id"@);
            lemma_obj_get_append(base + c + th + tu + co + sr, ss, "id"@);
            lemma_obj_get_append(base + c + th + tu + co, sr, "id"@);
            lemma_obj_get_append(base + c + th + tu, co, "id"@);
            lemma_obj_get_append(base + c + th, tu, "id"@);
            lemma_obj_get_append(base + c, th, "id"@);
            lemma_obj_get_append(base, c, "id"@);
            lemma_opt_content_field_get(content, "id"@);
            lemma_opt_str_field_get("thinking"@, thinking, "id"@);
            lemma_opt_tool_uses_field_get(tool_uses, "id"@);
            lemma_opt_code_outputs_field_get(code_outputs, "id"@);
            lemma_nullable_str_field_get("stop_reason"@, stop_reason, "id"@);
            lemma_nullable_str_field_get("stop_sequence"@, stop_sequence, "id"@);
            lemma_obj_get_absent(us, "id"@);
            lemma_obj_get_append(base + c + th + tu + co + sr + ss, us, "type"@);
            lemma_obj_get_append(base + c + th + tu + co + sr, ss, "type"@);
            lemma_obj_get_append(base + c + th + tu + co, sr, "type"@);
            lemma_obj_get_append(base + c + th + tu, co, "type"@);
            lemma_obj_get_append(base + c + th, tu, "type"@);
            lemma_obj_get_append(base + c, th, "type"@);
            lemma_obj_get_append(base, c, "type"@);
            lemma_opt_content_field_get(content, "type"@);
            lemma_opt_str_field_get("thinking"@, thinking, "type"@);
            lemma_opt_tool_uses_field_get(tool_uses, "type"@);
            lemma_opt_code_outputs_field_get(code_outputs, "type"@);
            lemma_nullable_str_field_get("stop_reason"@, stop_reason, "type"@);
            lemma_nullable_str_field_get("stop_sequence"@, stop_sequence, "type"@);
            lemma_obj_get_absent(us, "type"@);
            lemma_obj_get_append(base + c + th + tu + co + sr + ss, us, "model"@);
            lemma_obj_get_append(base + c + th + tu + co + sr, ss, "model"@);
            lemma_obj_get_append(base + c + th + tu + co, sr, "model"@);
            lemma_obj_get_append(base + c + th + tu, co, "model"@);
            lemma_obj_get_append(base + c + th, tu, "model"@);
            lemma_obj_get_append(base + c, th, "model"@);
            lemma_obj_get_append(base, c, "model"@);
            lemma_opt_content_field_get(content, "model"@);
            lemma_opt_str_field_get("thinking"@, thinking, "model"@);
            lemma_opt_tool_uses_field_get(tool_uses, "model"@);
            lemma_opt_code_outputs_field_get(code_outputs, "model"@);
            lemma_nullable_str_field_get("stop_reason"@, stop_reason, "model"@);
            lemma_nullable_str_field_get("stop_sequence"@, stop_sequence, "model"@);
            lemma_obj_get_absent(us, "model"@);
            lemma_obj_get_append(base + c + th + tu + co + sr + ss, us, "content"@);
            lemma_obj_get_append(base + c + th + tu + co + sr, ss, "content"@);
            lemma_obj_get_append(base + c + th + tu + co, sr, "content"@);
            lemma_obj_get_append(base + c + th + tu, co, "content"@);
            lemma_obj_get_append(base + c + th, tu, "content"@);
            lemma_obj_get_append(base + c, th, "content"@);
            lemma_obj_get_append(base, c, "content"@);
            lemma_opt_content_field_get(content, "content"@);
            lemma_opt_str_field_get("thinking"@, thinking, "content"@);
            lemma_opt_tool_uses_field_get(tool_uses, "content"@);
            lemma_opt_code_outputs_field_get(code_outputs, "content"@);
            lemma_nullable_str_field_get("stop_reason"@, stop_reason, "content"@);
            lemma_nullable_str_field_get("stop_sequence"@, stop_sequence, "content"@);
            lemma_obj_get_absent(us, "content"@);
            lemma_obj_get_append(base + c + th + tu + co + sr + ss, us, "thinking"@);
            lemma_obj_get_append(base + c + th + tu + co + sr, ss, "thinking"@);
            lemma_obj_get_append(base + c + th + tu + co, sr, "thinking"@);
            lemma_obj_get_append(base + c + th + tu, co, "thinking"@);
            lemma_obj_get_append(base + c + th, tu, "thinking"@);
            lemma_obj_get_append(base + c, th, "thinking"@);
            lemma_obj_get_append(base, c, "thinking"@);
            lemma_opt_content_field_get(content, "thinking"@);
            lemma_opt_str_field_get("thinking"@, thinking, "thinking"@);
            lemma_opt_tool_uses_field_get(tool_uses, "thinking"@);
            lemma_opt_code_outputs_field_get(code_outputs, "thinking"@);
            lemma_nullable_str_field_get("stop_reason"@, stop_reason, "thinking"@);
            lemma_nullable_str_field_get("stop_sequence"@, stop_sequence, "thinking"@);
            lemma_obj_get_absent(us, "thinking"@);
            lemma_obj_get_append(base + c + th + tu + co + sr + ss, us, "tool_uses"@);
            lemma_obj_get_append(base + c + th + tu + co + sr, ss, "tool_uses"@);
            lemma_obj_get_append(base + c + th + tu + co, sr, "tool_uses"@);
            lemma_obj_get_append(base + c + th + tu, co, "tool_uses"@);
            lemma_obj_get_append(base + c + th, tu, "tool_uses"@);
            lemma_obj_get_append(base + c, th, "tool_uses"@);
            lemma_obj_get_append(base, c, "tool_uses"@);
            lemma_opt_content_field_get(content, "tool_uses"@);
            lemma_opt_str_field_get("thinking"@, thinking, "tool_uses"@);
            lemma_opt_tool_uses_field_get(tool_uses, "tool_uses"@);
            lemma_opt_code_outputs_field_get(code_outputs, "tool_uses"@);
            lemma_nullable_str_field_get("stop_reason"@, stop_reason, "tool_uses"@);
            lemma_nullable_str_field_get("stop_sequence"@, stop_sequence, "tool_uses"@);
            lemma_obj_get_absent(us, "tool_uses"@);
            lemma_obj_get_append(base + c + th + tu + co + sr + ss, us, "code_outputs"@);
            lemma_obj_get_append(base + c + th + tu + co + sr, ss, "code_outputs"@);
            lemma_obj_get_append(base + c + th + tu + co, sr, "code_outputs"@);
            lemma_obj_get_append(base + c + th + tu, co, "code_outputs"@);
            lemma_obj_get_append(base + c + th, tu, "code_outputs"@);
            lemma_obj_get_append(base + c, th, "code_outputs"@);
            lemma_obj_get_append(base, c, "code_outputs"@);
            lemma_opt_content_field_get(content, "code_outputs"@);
            lemma_opt_str_field_get("thinking"@, thinking, "code_outputs"@);
            lemma_opt_tool_uses_field_get(tool_uses, "code_outputs"@);
            lemma_opt_code_outputs_field_get(code_outputs, "code_outputs"@);
            lemma_nullable_str_field_get("stop_reason"@, stop_reason, "code_outputs"@);
            lemma_nullable_str_field_get("stop_sequence"@, stop_sequence, "code_outputs"@);
            lemma_obj_get_absent(us, "code_outputs"@);
            lemma_obj_get_append(base + c + th + tu + co + sr + ss, us, "stop_reason"@);
            lemma_obj_get_append(base + c + th + tu + co + sr, ss, "stop_reason"@);
            lemma_obj_get_append(base + c + th + tu + co, sr, "stop_reason"@);
            lemma_obj_get_append(base + c + th + tu, co, "stop_reason"@);
            lemma_obj_get_append(base + c + th, tu, "stop_reason"@);
            lemma_obj_get_append(base + c, th, "stop_reason"@);
            lemma_obj_get_append(base, c, "stop_reason"@);
            lemma_opt_content_field_get(content, "stop_reason"@);
            lemma_opt_str_field_get("thinking"@, thinking, "stop_reason"@);
            lemma_opt_tool_uses_field_get(tool_uses, "stop_reason"@);
            lemma_opt_code_outputs_field_get(code_outputs, "stop_reason"@);
            lemma_nullable_str_field_get("stop_reason"@, stop_reason, "stop_reason"@);
            lemma_nullable_str_field_get("stop_sequence"@, stop_sequence, "stop_reason"@);
            lemma_obj_get_absent(us, "stop_reason"@);
            lemma_obj_get_append(base + c + th + tu + co + sr + ss, us, "stop_sequence"@);
            lemma_obj_get_append(base + c + th + tu + co + sr, ss, "stop_sequence"@);
            lemma_obj_get_append(base + c + th + tu + co, sr, "stop_sequence"@);
            lemma_obj_get_append(base + c + th + tu, co, "stop_sequence"@);
            lemma_obj_get_append(base + c + th, tu, "stop_sequence"@);
            lemma_obj_get_append(base + c, th, "stop_sequence"@);
            lemma_obj_get_append(base, c, "stop_sequence"@);
            lemma_opt_content_field_get(content, "stop_sequence"@);
            lemma_opt_str_field_get("thinking"@, thinking, "stop_sequence"@);
            lemma_opt_tool_uses_field_get(tool_uses, "stop_sequence"@);
            lemma_opt_code_outputs_field_get(code_outputs, "stop_sequence"@);
            lemma_nullable_str_field_get("stop_reason"@, stop_reason, "stop_sequence"@);
            lemma_nullable_str_field_get("stop_sequence"@, stop_sequence, "stop_sequence"@);
            lemma_obj_get_absent(us, "stop_sequence"@);
            lemma_obj_get_append(base + c + th + tu + co + sr + ss, us, "usage"@);
            lemma_obj_get_append(base + c + th + tu + co + sr, ss, "usage"@);
            lemma_obj_get_append(base + c + th + tu + co, sr, "usage"@);
            lemma_obj_get_append(base + c + th + tu, co, "usage"@);
            lemma_obj_get_append(base + c + th, tu, "usage"@);
            lemma_obj_get_append(base + c, th, "usage"@);
            lemma_obj_get_append(base, c, "usage"@);
            lemma_opt_content_field_get(content, "usage"@);
            lemma_opt_str_field_get("thinking"@, thinking, "usage"@);
            lemma_opt_tool_uses_field_get(tool_uses, "usage"@);
            lemma_opt_code_outputs_field_get(code_outputs, "usage"@);
            lemma_nullable_str_field_get("stop_reason"@, stop_reason, "usage"@);
            lemma_nullable_str_field_get("stop_sequence"@, stop_sequence, "usage"@);
            lemma_obj_get_at(us, "usage"@, 0);
            match content {
                Some(cc) => {
                    lemma_encode_content_not_null(cc);
                    lemma_content_round_trip(cc);
                },
                None => {},
            }
            match tool_uses {
                Some(ts) => {
                    let ms = ts.map_values(|t: SpecToolUse| spec_encode_tool_use(t));
                    lemma_tool_uses_round_trip(ts, ms);
                },
                None => {},
            }
            match code_outputs {
                Some(cs) => {
                    let ms = cs.map_values(|cc: SpecCodeOutput| spec_encode_code_output(cc));
                    lemma_code_outputs_round_trip(cs, ms);
                },
                None => {},
            }
            lemma_usage_round_trip(usage);
            assert(SpecMessage::Assistant {
                id,
                message_type,
                model,
                content,
                thinking,
                tool_uses,
                code_outputs,
                stop_reason,
                stop_sequence,
                usage,
            } =~= m);
        },
    }
}


/// Whether an entry survives the round trip: its message must, and an
/// opaque result payload must not be a bare `null`.
pub open spec fn spec_entry_round_trippable(e: SpecEntry) -> bool {
    match e {
        SpecEntry::User(u) => u.tool_use_result != Some(SpecJson::Null)
            && spec_message_round_trippable(u.message),
        SpecEntry::Assistant(a) => spec_message_round_trippable(a.message),
        SpecEntry::Summary(_) => true,
        SpecEntry::System(_) => true,
    }
}

/// An encoded message is an object.
proof fn lemma_encode_message_is_obj(m: SpecMessage)
    ensures
        spec_encode_message(m) is Obj,
{
    match m {
        SpecMessage::User { .. } => {},
        SpecMessage::Assistant { .. } => {},
    }
}

/// Decoding the wire form of a user entry gives the entry back.
#[verifier::rlimit(100)]
pub proof fn lemma_user_decode_round_trip(u: SpecUserEntry)
    requires
        spec_entry_round_trippable(SpecEntry::User(u)),
    ensures
        spec_decode_entry(spec_encode_entry(SpecEntry::User(u))) == Ok::<
            SpecEntry,
            SpecDecodeError,
        >(SpecEntry::User(u)),
{
    reveal_strlit("type");
    reveal_strlit("user");
    reveal_strlit("assistant");
    reveal_strlit("summary");
    reveal_strlit("system");
    reveal_strlit("uuid");
    reveal_strlit("timestamp");
    reveal_strlit("message");
    reveal_strlit("cwd");
    reveal_strlit("sessionId");
    reveal_strlit("version");
    reveal_strlit("userType");
    reveal_strlit("isSidechain");
    reveal_strlit("parentUuid");
    reveal_strlit("toolUseResult");
    assert("type"@.len() == 4 && "uuid"@.len() == 4 && "timestamp"@.len() == 9);
    assert("message"@.len() == 7 && "cwd"@.len() == 3 && "sessionId"@.len() == 9);
    assert("version"@.len() == 7 && "userType"@.len() == 8 && "isSidechain"@.len() == 11);
    assert("parentUuid"@.len() == 10 && "toolUseResult"@.len() == 13);
    assert("user"@.len() == 4 && "assistant"@.len() == 9 && "summary"@.len() == 7);
    assert("uuid"@[0] == 'u' && "type"@[0] == 't' && "user"@[0] == 'u');
    assert("uuid"@ != "type"@ && "type"@ != "user"@);
    assert("uuid"@[1] == 'u' && "user"@[1] == 's');
    assert("uuid"@ != "user"@);
    assert("sessionId"@[0] == 's' && "timestamp"@[0] == 't');
    assert("sessionId"@ != "timestamp"@);
    assert("message"@[0] == 'm' && "version"@[0] == 'v' && "summary"@[0] == 's');
    assert("message"@ != "version"@ && "message"@ != "summary"@ && "version"@ != "summary"@);
    let base = seq![
        ("type"@, SpecJson::Str("user"@)),
        ("uuid"@, SpecJson::Str(u.uuid)),
        ("timestamp"@, SpecJson::Str(u.timestamp)),
        ("message"@, spec_encode_message(u.message)),
        ("cwd"@, SpecJson::Str(u.cwd)),
        ("sessionId"@, SpecJson::Str(u.session_id)),
        ("version"@, SpecJson::Str(u.version)),
        ("userType"@, SpecJson::Str(u.user_type)),
        ("isSidechain"@, SpecJson::Bool(u.is_sidechain)),
    ];
    let np = nullable_str_field("parentUuid"@, u.parent_uuid);
    let tr = opt_field("toolUseResult"@, u.tool_use_result);
    let fs = base + np + tr;
    assert(spec_encode_entry(SpecEntry::User(u)) == SpecJson::Obj(fs));
    lemma_obj_get_append(base + np, tr, "type"@);
    lemma_obj_get_append(base, np, "type"@);
    lemma_nullable_str_field_get("parentUuid"@, u.parent_uuid, "type"@);
    lemma_opt_field_get("toolUseResult"@, u.tool_use_result, "type"@);
    lemma_obj_get_append(base + np, tr, "uuid"@);
    lemma_obj_get_append(base, np, "uuid"@);
    lemma_nullable_str_field_get("parentUuid"@, u.parent_uuid, "uuid"@);
    lemma_opt_field_get("toolUseResult"@, u.tool_use_result, "uuid"@);
    lemma_obj_get_append(base + np, tr, "timestamp"@);
    lemma_obj_get_append(base, np, "timestamp"@);
    lemma_nullable_str_field_get("parentUuid"@, u.parent_uuid, "timestamp"@);
    lemma_opt_field_get("toolUseResult"@, u.tool_use_result, "timestamp"@);
    lemma_obj_get_append(base + np, tr, "message"@);
    lemma_obj_get_append(base, np, "message"@);
    lemma_nullable_str_field_get("parentUuid"@, u.parent_uuid, "message"@);
    lemma_opt_field_get("toolUseResult"@, u.tool_use_result, "message"@);
    lemma_obj_get_append(base + np, tr, "cwd"@);
    lemma_obj_get_append(base, np, "cwd"@);
    lemma_nullable_str_field_get("parentUuid"@, u.parent_uuid, "cwd"@);
    lemma_opt_field_get("toolUseResult"@, u.tool_use_result, "cwd"@);
    lemma_obj_get_append(base + np, tr, "sessionId"@);
    lemma_obj_get_append(base, np, "sessionId"@);
    lemma_nullable_str_field_get("parentUuid"@, u.parent_uuid, "sessionId"@);
    lemma_opt_field_get("toolUseResult"@, u.tool_use_result, "sessionId"@);
    lemma_obj_get_append(base + np, tr, "version"@);
    lemma_obj_get_append(base, np, "version"@);
    lemma_nullable_str_field_get("parentUuid"@, u.parent_uuid, "version"@);
    lemma_opt_field_get("toolUseResult"@, u.tool_use_result, "version"@);
    lemma_obj_get_append(base + np, tr, "userType"@);
    lemma_obj_get_append(base, np, "userType"@);
    lemma_nullable_str_field_get("parentUuid"@, u.parent_uuid, "userType"@);
    lemma_opt_field_get("toolUseResult"@, u.tool_use_result, "userType"@);
    lemma_obj_get_append(base + np, tr, "isSidechain"@);
    lemma_obj_get_append(base, np, "isSidechain"@);
    lemma_nullable_str_field_get("parentUuid"@, u.parent_uuid, "isSidechain"@);
    lemma_opt_field_get("toolUseResult"@, u.tool_use_result, "isSidechain"@);
    lemma_obj_get_append(base + np, tr, "parentUuid"@);
    lemma_obj_get_append(base, np, "parentUuid"@);
    lemma_nullable_str_field_get("parentUuid"@, u.parent_uuid, "parentUuid"@);
    lemma_opt_field_get("toolUseResult"@, u.tool_use_result, "parentUuid"@);
    lemma_obj_get_append(base + np, tr, "toolUseResult"@);
    lemma_obj_get_append(base, np, "toolUseResult"@);
    lemma_nullable_str_field_get("parentUuid"@, u.parent_uuid, "toolUseResult"@);
    lemma_opt_field_get("toolUseResult"@, u.tool_use_result, "toolUseResult"@);
    lemma_obj_get_at(base, "type"@, 0);
    lemma_obj_get_at(base, "uuid"@, 1);
    lemma_obj_get_at(base, "timestamp"@, 2);
    lemma_obj_get_at(base, "message"@, 3);
    lemma_obj_get_at(base, "cwd"@, 4);
    lemma_obj_get_at(base, "sessionId"@, 5);
    lemma_obj_get_at(base, "version"@, 6);
    lemma_obj_get_at(base, "userType"@, 7);
    lemma_obj_get_at(base, "isSidechain"@, 8);
    lemma_obj_get_absent(base, "parentUuid"@);
    lemma_obj_get_absent(base, "toolUseResult"@);
    lemma_encode_message_is_obj(u.message);
    lemma_message_round_trip(u.message);
    assert(SpecUserEntry {
        uuid: u.uuid,
        timestamp: u.timestamp,
        message: u.message,
        cwd: u.cwd,
        session_id: u.session_id,
        version: u.version,
        user_type: u.user_type,
        is_sidechain: u.is_sidechain,
        parent_uuid: u.parent_uuid,
        tool_use_result: u.tool_use_result,
    } =~= u);
}

/// Decoding the wire form of an assistant entry gives the entry back.
#[verifier::rlimit(100)]
pub proof fn lemma_assistant_decode_round_trip(a: SpecAssistantEntry)
    requires
        spec_entry_round_trippable(SpecEntry::Assistant(a)),
    ensures
        spec_decode_entry(spec_encode_entry(SpecEntry::Assistant(a))) == Ok::<
            SpecEntry,
            SpecDecodeError,
        >(SpecEntry::Assistant(a)),
{
    reveal_strlit("type");
    reveal_strlit("user");
    reveal_strlit("assistant");
    reveal_strlit("summary");
    reveal_strlit("system");
    reveal_strlit("uuid");
    reveal_strlit("timestamp");
    reveal_strlit("message");
    reveal_strlit("cwd");
    reveal_strlit("sessionId");
    reveal_strlit("version");
    reveal_strlit("userType");
    reveal_strlit("isSidechain");
    reveal_strlit("parentUuid");
    reveal_strlit("requestId");
    reveal_strlit("isApiErrorMessage");
    assert("type"@.len() == 4 && "uuid"@.len() == 4 && "timestamp"@.len() == 9);
    assert("message"@.len() == 7 && "cwd"@.len() == 3 && "sessionId"@.len() == 9);
    assert("version"@.len() == 7 && "userType"@.len() == 8 && "isSidechain"@.len() == 11);
    assert("parentUuid"@.len() == 10 && "requestId"@.len() == 9);
    assert("isApiErrorMessage"@.len() == 17);
    assert("user"@.len() == 4 && "assistant"@.len() == 9 && "summary"@.len() == 7);
    assert("uuid"@[0] == 'u' && "type"@[0] == 't' && "assistant"@[0] == 'a');
    assert("uuid"@ != "type"@ && "assistant"@ != "user"@);
    assert("sessionId"@[0] == 's' && "timestamp"@[0] == 't' && "requestId"@[0] == 'r');
    assert("sessionId"@ != "timestamp"@ && "requestId"@ != "timestamp"@);
    assert("requestId"@ != "sessionId"@ && "requestId"@ != "assistant"@);
    assert("message"@[0] == 'm' && "version"@[0] == 'v' && "summary"@[0] == 's');
    assert("message"@ != "version"@ && "message"@ != "summary"@ && "version"@ != "summary"@);
    let base = seq![
        ("type"@, SpecJson::Str("assistant"@)),
        ("uuid"@, SpecJson::Str(a.uuid)),
        ("timestamp"@, SpecJson::Str(a.timestamp)),
        ("message"@, spec_encode_message(a.message)),
        ("cwd"@, SpecJson::Str(a.cwd)),
        ("sessionId"@, SpecJson::Str(a.session_id)),
        ("version"@, SpecJson::Str(a.version)),
        ("userType"@, SpecJson::Str(a.user_type)),
        ("isSidechain"@, SpecJson::Bool(a.is_sidechain)),
        ("parentUuid"@, SpecJson::Str(a.parent_uuid)),
    ];
    let rq = opt_str_field("requestId"@, a.request_id);
    let ae = opt_bool_field("isApiErrorMessage"@, a.is_api_error_message);
    let fs = base + rq + ae;
    assert(spec_encode_entry(SpecEntry::Assistant(a)) == SpecJson::Obj(fs));
    lemma_obj_get_append(base + rq, ae, "type"@);
    lemma_obj_get_append(base, rq, "type"@);
    lemma_opt_str_field_get("requestId"@, a.request_id, "type"@);
    lemma_opt_bool_field_get("isApiErrorMessage"@, a.is_api_error_message, "type"@);
    lemma_obj_get_append(base + rq, ae, "uuid"@);
    lemma_obj_get_append(base, rq, "uuid"@);
    lemma_opt_str_field_get("requestId"@, a.request_id, "uuid"@);
    lemma_opt_bool_field_get("isApiErrorMessage"@, a.is_api_error_message, "uuid"@);
    lemma_obj_get_append(base + rq, ae, "timestamp"@);
    lemma_obj_get_append(base, rq, "timestamp"@);
    lemma_opt_str_field_get("requestId"@, a.request_id, "timestamp"@);
    lemma_opt_bool_field_get("isApiErrorMessage"@, a.is_api_error_message, "timestamp"@);
    lemma_obj_get_append(base + rq, ae, "message"@);
    lemma_obj_get_append(base, rq, "message"@);
    lemma_opt_str_field_get("requestId"@, a.request_id, "message"@);
    lemma_opt_bool_field_get("isApiErrorMessage"@, a.is_api_error_message, "message"@);
    lemma_obj_get_append(base + rq, ae, "cwd"@);
    lemma_obj_get_append(base, rq, "cwd"@);
    lemma_opt_str_field_get("requestId"@, a.request_id, "cwd"@);
    lemma_opt_bool_field_get("isApiErrorMessage"@, a.is_api_error_message, "cwd"@);
    lemma_obj_get_append(base + rq, ae, "sessionId"@);
    lemma_obj_get_append(base, rq, "sessionId"@);
    lemma_opt_str_field_get("requestId"@, a.request_id, "sessionId"@);
    lemma_opt_bool_field_get("isApiErrorMessage"@, a.is_api_error_message, "sessionId"@);
    lemma_obj_get_append(base + rq, ae, "version"@);
    lemma_obj_get_append(base, rq, "version"@);
    lemma_opt_str_field_get("requestId"@, a.request_id, "version"@);
    lemma_opt_bool_field_get("isApiErrorMessage"@, a.is_api_error_message, "version"@);
    lemma_obj_get_append(base + rq, ae, "userType"@);
    lemma_obj_get_append(base, rq, "userType"@);
    lemma_opt_str_field_get("requestId"@, a.request_id, "userType"@);
    lemma_opt_bool_field_get("isApiErrorMessage"@, a.is_api_error_message, "userType"@);
    lemma_obj_get_append(base + rq, ae, "isSidechain"@);
    lemma_obj_get_append(base, rq, "isSidechain"@);
    lemma_opt_str_field_get("requestId"@, a.request_id, "isSidechain"@);
    lemma_opt_bool_field_get("isApiErrorMessage"@, a.is_api_error_message, "isSidechain"@);
    lemma_obj_get_append(base + rq, ae, "parentUuid"@);
    lemma_obj_get_append(base, rq, "parentUuid"@);
    lemma_opt_str_field_get("requestId"@, a.request_id, "parentUuid"@);
    lemma_opt_bool_field_get("isApiErrorMessage"@, a.is_api_error_message, "parentUuid"@);
    lemma_obj_get_append(base + rq, ae, "requestId"@);
    lemma_obj_get_append(base, rq, "requestId"@);
    lemma_opt_str_field_get("requestId"@, a.request_id, "requestId"@);
    lemma_opt_bool_field_get("isApiErrorMessage"@, a.is_api_error_message, "requestId"@);
    lemma_obj_get_append(base + rq, ae, "isApiErrorMessage"@);
    lemma_obj_get_append(base, rq, "isApiErrorMessage"@);
    lemma_opt_str_field_get("requestId"@, a.request_id, "isApiErrorMessage"@);
    lemma_opt_bool_field_get("isApiErrorMessage"@, a.is_api_error_message, "isApiErrorMessage"@);
    lemma_obj_get_at(base, "type"@, 0);
    lemma_obj_get_at(base, "uuid"@, 1);
    lemma_obj_get_at(base, "timestamp"@, 2);
    lemma_obj_get_at(base, "message"@, 3);
    lemma_obj_get_at(base, "cwd"@, 4);
    lemma_obj_get_at(base, "sessionId"@, 5);
    lemma_obj_get_at(base, "version"@, 6);
    lemma_obj_get_at(base, "userType"@, 7);
    lemma_obj_get_at(base, "isSidechain"@, 8);
    lemma_obj_get_at(base, "parentUuid"@, 9);
    lemma_obj_get_absent(base, "requestId"@);
    lemma_obj_get_absent(base, "isApiErrorMessage"@);
    lemma_encode_message_is_obj(a.message);
    lemma_message_round_trip(a.message);
    assert(SpecAssistantEntry {
        uuid: a.uuid,
        timestamp: a.timestamp,
        message: a.message,
        cwd: a.cwd,
        session_id: a.session_id,
        version: a.version,
        user_type: a.user_type,
        is_sidechain: a.is_sidechain,
        parent_uuid: a.parent_uuid,
        request_id: a.request_id,
        is_api_error_message: a.is_api_error_message,
    } =~= a);
}

/// The decoder inverts the encoder: decoding the wire form of any entry
/// whose payloads the wire can carry gives the entry back.
pub proof fn lemma_entry_decode_round_trip(e: SpecEntry)
    requires
        spec_entry_round_trippable(e),
    ensures
        spec_decode_entry(spec_encode_entry(e)) == Ok::<SpecEntry, SpecDecodeError>(e),
{
    match e {
        SpecEntry::User(u) => lemma_user_decode_round_trip(u),
        SpecEntry::Assistant(a) => lemma_assistant_decode_round_trip(a),
        SpecEntry::Summary(s) => lemma_summary_decode_round_trip(s),
        SpecEntry::System(s) => lemma_system_decode_round_trip(s),
    }
}

} // verus!
