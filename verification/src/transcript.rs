//! The typed transcript model.
//!
//! A transcript is a sequence of entries, one per line, discriminated by the
//! wire field `type`: `user`, `assistant`, `summary` or `system`. Fields that
//! only some schema revisions carry are optional; payloads whose schema is not
//! modelled (tool inputs and results) are carried as raw [`JsonValue`] trees.
//! Each type has a spec-level mirror reached through `deep_view()`.

use vstd::prelude::*;

use crate::json::JsonValue;
use crate::json::SpecJson;

verus! {

/// A user message entry.
#[derive(Debug, Clone)]
pub struct UserEntry {
    pub uuid: String,
    pub timestamp: String,
    pub message: TranscriptMessage,
    pub cwd: String,
    pub session_id: String,
    pub version: String,
    pub user_type: String,
    pub is_sidechain: bool,
    pub parent_uuid: Option<String>,
    pub tool_use_result: Option<JsonValue>,
}

/// An assistant message entry.
#[derive(Debug, Clone)]
pub struct AssistantEntry {
    pub uuid: String,
    pub timestamp: String,
    pub message: TranscriptMessage,
    pub cwd: String,
    pub session_id: String,
    pub version: String,
    pub user_type: String,
    pub is_sidechain: bool,
    pub parent_uuid: String,
    pub request_id: Option<String>,
    pub is_api_error_message: Option<bool>,
}

/// A summary entry: no identity fields, only the summary text and the
/// identifier of the leaf entry it condenses.
#[derive(Debug, Clone)]
pub struct SummaryEntry {
    pub summary: String,
    pub leaf_uuid: String,
}

/// A system message entry.
#[derive(Debug, Clone)]
pub struct SystemEntry {
    pub uuid: String,
    pub timestamp: String,
    pub content: String,
    pub cwd: String,
    pub session_id: String,
    pub version: String,
    pub user_type: String,
    pub is_sidechain: bool,
    pub parent_uuid: String,
    pub is_meta: bool,
    pub level: Option<String>,
    pub tool_use_id: Option<String>,
}

/// One decoded line of a transcript, discriminated by the wire field `type`.
#[derive(Debug, Clone)]
pub enum TranscriptEntry {
    User(UserEntry),
    Assistant(AssistantEntry),
    Summary(SummaryEntry),
    System(SystemEntry),
}

/// A message payload, discriminated by the wire field `role`.
#[derive(Debug, Clone)]
pub enum TranscriptMessage {
    User {
        content: Option<MessageContent>,
    },
    Assistant {
        id: String,
        message_type: String,
        model: String,
        content: Option<MessageContent>,
        thinking: Option<String>,
        tool_uses: Option<Vec<ToolUse>>,
        code_outputs: Option<Vec<CodeOutput>>,
        stop_reason: Option<String>,
        stop_sequence: Option<String>,
        usage: UsageInfo,
    },
}

/// Message content: either a bare string or an ordered list of blocks.
#[derive(Debug, Clone)]
pub enum MessageContent {
    Text(String),
    Blocks(Vec<ContentBlock>),
}

/// One unit of a structured message body, discriminated by the wire field
/// `type`: `text`, `tool_use`, `tool_result` or `thinking`.
#[derive(Debug, Clone)]
pub enum ContentBlock {
    Text { text: String },
    ToolUse { id: String, name: String, input: JsonValue },
    ToolResult { tool_use_id: String, content: ToolResultContent, is_error: Option<bool> },
    Thinking { thinking: String, signature: Option<String> },
}

/// The content of a tool result: a bare string or a list of typed items.
#[derive(Debug, Clone)]
pub enum ToolResultContent {
    Text(String),
    Array(Vec<ToolResultItem>),
}

/// One item of a structured tool result.
#[derive(Debug, Clone)]
pub struct ToolResultItem {
    pub item_type: String,
    pub text: String,
}

/// A tool invocation recorded on an assistant message.
#[derive(Debug, Clone)]
pub struct ToolUse {
    pub tool_name: String,
    pub tool_input: JsonValue,
    pub tool_output: Option<JsonValue>,
}

/// A code execution recorded on an assistant message.
#[derive(Debug, Clone)]
pub struct CodeOutput {
    pub code: String,
    pub output: Option<String>,
    pub language: Option<String>,
}

/// Token counts and cache statistics of an assistant message.
#[derive(Debug, Clone)]
pub struct UsageInfo {
    pub cache_creation_input_tokens: Option<u64>,
    pub cache_read_input_tokens: Option<u64>,
    pub input_tokens: Option<u64>,
    pub output_tokens: Option<u64>,
    pub service_tier: Option<String>,
}

/// Model of a [`UserEntry`].
#[verifier::ext_equal]
pub struct SpecUserEntry {
    pub uuid: Seq<char>,
    pub timestamp: Seq<char>,
    pub message: SpecMessage,
    pub cwd: Seq<char>,
    pub session_id: Seq<char>,
    pub version: Seq<char>,
    pub user_type: Seq<char>,
    pub is_sidechain: bool,
    pub parent_uuid: Option<Seq<char>>,
    pub tool_use_result: Option<SpecJson>,
}

/// Model of an [`AssistantEntry`].
#[verifier::ext_equal]
pub struct SpecAssistantEntry {
    pub uuid: Seq<char>,
    pub timestamp: Seq<char>,
    pub message: SpecMessage,
    pub cwd: Seq<char>,
    pub session_id: Seq<char>,
    pub version: Seq<char>,
    pub user_type: Seq<char>,
    pub is_sidechain: bool,
    pub parent_uuid: Seq<char>,
    pub request_id: Option<Seq<char>>,
    pub is_api_error_message: Option<bool>,
}

/// Model of a [`SummaryEntry`].
#[verifier::ext_equal]
pub struct SpecSummaryEntry {
    pub summary: Seq<char>,
    pub leaf_uuid: Seq<char>,
}

/// Model of a [`SystemEntry`].
#[verifier::ext_equal]
pub struct SpecSystemEntry {
    pub uuid: Seq<char>,
    pub timestamp: Seq<char>,
    pub content: Seq<char>,
    pub cwd: Seq<char>,
    pub session_id: Seq<char>,
    pub version: Seq<char>,
    pub user_type: Seq<char>,
    pub is_sidechain: bool,
    pub parent_uuid: Seq<char>,
    pub is_meta: bool,
    pub level: Option<Seq<char>>,
    pub tool_use_id: Option<Seq<char>>,
}

/// Model of a [`TranscriptEntry`].
#[verifier::ext_equal]
pub enum SpecEntry {
    User(SpecUserEntry),
    Assistant(SpecAssistantEntry),
    Summary(SpecSummaryEntry),
    System(SpecSystemEntry),
}

/// Model of a [`TranscriptMessage`].
#[verifier::ext_equal]
pub enum SpecMessage {
    User {
        content: Option<SpecContent>,
    },
    Assistant {
        id: Seq<char>,
        message_type: Seq<char>,
        model: Seq<char>,
        content: Option<SpecContent>,
        thinking: Option<Seq<char>>,
        tool_uses: Option<Seq<SpecToolUse>>,
        code_outputs: Option<Seq<SpecCodeOutput>>,
        stop_reason: Option<Seq<char>>,
        stop_sequence: Option<Seq<char>>,
        usage: SpecUsage,
    },
}

/// Model of a [`MessageContent`].
#[verifier::ext_equal]
pub enum SpecContent {
    Text(Seq<char>),
    Blocks(Seq<SpecBlock>),
}

/// Model of a [`ContentBlock`].
#[verifier::ext_equal]
pub enum SpecBlock {
    Text { text: Seq<char> },
    ToolUse { id: Seq<char>, name: Seq<char>, input: SpecJson },
    ToolResult { tool_use_id: Seq<char>, content: SpecToolResultContent, is_error: Option<bool> },
    Thinking { thinking: Seq<char>, signature: Option<Seq<char>> },
}

/// Model of a [`ToolResultContent`].
#[verifier::ext_equal]
pub enum SpecToolResultContent {
    Text(Seq<char>),
    Array(Seq<SpecToolResultItem>),
}

/// Model of a [`ToolResultItem`].
#[verifier::ext_equal]
pub struct SpecToolResultItem {
    pub item_type: Seq<char>,
    pub text: Seq<char>,
}

/// Model of a [`ToolUse`].
#[verifier::ext_equal]
pub struct SpecToolUse {
    pub tool_name: Seq<char>,
    pub tool_input: SpecJson,
    pub tool_output: Option<SpecJson>,
}

/// Model of a [`CodeOutput`].
#[verifier::ext_equal]
pub struct SpecCodeOutput {
    pub code: Seq<char>,
    pub output: Option<Seq<char>>,
    pub language: Option<Seq<char>>,
}

/// Model of a [`UsageInfo`].
#[verifier::ext_equal]
pub struct SpecUsage {
    pub cache_creation_input_tokens: Option<u64>,
    pub cache_read_input_tokens: Option<u64>,
    pub input_tokens: Option<u64>,
    pub output_tokens: Option<u64>,
    pub service_tier: Option<Seq<char>>,
}

impl DeepView for UserEntry {
    type V = SpecUserEntry;

    open spec fn deep_view(&self) -> SpecUserEntry {
        SpecUserEntry {
            uuid: self.uuid@,
            timestamp: self.timestamp@,
            message: self.message.deep_view(),
            cwd: self.cwd@,
            session_id: self.session_id@,
            version: self.version@,
            user_type: self.user_type@,
            is_sidechain: self.is_sidechain,
            parent_uuid: self.parent_uuid.deep_view(),
            tool_use_result: self.tool_use_result.deep_view(),
        }
    }
}

impl DeepView for AssistantEntry {
    type V = SpecAssistantEntry;

    open spec fn deep_view(&self) -> SpecAssistantEntry {
        SpecAssistantEntry {
            uuid: self.uuid@,
            timestamp: self.timestamp@,
            message: self.message.deep_view(),
            cwd: self.cwd@,
            session_id: self.session_id@,
            version: self.version@,
            user_type: self.user_type@,
            is_sidechain: self.is_sidechain,
            parent_uuid: self.parent_uuid@,
            request_id: self.request_id.deep_view(),
            is_api_error_message: self.is_api_error_message,
        }
    }
}

impl DeepView for SummaryEntry {
    type V = SpecSummaryEntry;

    open spec fn deep_view(&self) -> SpecSummaryEntry {
        SpecSummaryEntry { summary: self.summary@, leaf_uuid: self.leaf_uuid@ }
    }
}

impl DeepView for SystemEntry {
    type V = SpecSystemEntry;

    open spec fn deep_view(&self) -> SpecSystemEntry {
        SpecSystemEntry {
            uuid: self.uuid@,
            timestamp: self.timestamp@,
            content: self.content@,
            cwd: self.cwd@,
            session_id: self.session_id@,
            version: self.version@,
            user_type: self.user_type@,
            is_sidechain: self.is_sidechain,
            parent_uuid: self.parent_uuid@,
            is_meta: self.is_meta,
            level: self.level.deep_view(),
            tool_use_id: self.tool_use_id.deep_view(),
        }
    }
}

impl DeepView for TranscriptEntry {
    type V = SpecEntry;

    open spec fn deep_view(&self) -> SpecEntry {
        match self {
            TranscriptEntry::User(e) => SpecEntry::User(e.deep_view()),
            TranscriptEntry::Assistant(e) => SpecEntry::Assistant(e.deep_view()),
            TranscriptEntry::Summary(e) => SpecEntry::Summary(e.deep_view()),
            TranscriptEntry::System(e) => SpecEntry::System(e.deep_view()),
        }
    }
}

impl DeepView for TranscriptMessage {
    type V = SpecMessage;

    open spec fn deep_view(&self) -> SpecMessage {
        match self {
            TranscriptMessage::User { content } => SpecMessage::User {
                content: content.deep_view(),
            },
            TranscriptMessage::Assistant {
                id,
                message_type,
                model,
                content,
                thinking,
                tool_uses,
                code_outputs,
                stop_reason,
                stop_sequence,
                usage,
            } => SpecMessage::Assistant {
                id: id@,
                message_type: message_type@,
                model: model@,
                content: content.deep_view(),
                thinking: thinking.deep_view(),
                tool_uses: tool_uses.deep_view(),
                code_outputs: code_outputs.deep_view(),
                stop_reason: stop_reason.deep_view(),
                stop_sequence: stop_sequence.deep_view(),
                usage: usage.deep_view(),
            },
        }
    }
}

impl DeepView for MessageContent {
    type V = SpecContent;

    open spec fn deep_view(&self) -> SpecContent {
        match self {
            MessageContent::Text(t) => SpecContent::Text(t@),
            MessageContent::Blocks(bs) => SpecContent::Blocks(bs.deep_view()),
        }
    }
}

impl DeepView for ContentBlock {
    type V = SpecBlock;

    open spec fn deep_view(&self) -> SpecBlock {
        match self {
            ContentBlock::Text { text } => SpecBlock::Text { text: text@ },
            ContentBlock::ToolUse { id, name, input } => SpecBlock::ToolUse {
                id: id@,
                name: name@,
                input: input.deep_view(),
            },
            ContentBlock::ToolResult { tool_use_id, content, is_error } => SpecBlock::ToolResult {
                tool_use_id: tool_use_id@,
                content: content.deep_view(),
                is_error: *is_error,
            },
            ContentBlock::Thinking { thinking, signature } => SpecBlock::Thinking {
                thinking: thinking@,
                signature: signature.deep_view(),
            },
        }
    }
}

impl DeepView for ToolResultContent {
    type V = SpecToolResultContent;

    open spec fn deep_view(&self) -> SpecToolResultContent {
        match self {
            ToolResultContent::Text(t) => SpecToolResultContent::Text(t@),
            ToolResultContent::Array(xs) => SpecToolResultContent::Array(xs.deep_view()),
        }
    }
}

impl DeepView for ToolResultItem {
    type V = SpecToolResultItem;

    open spec fn deep_view(&self) -> SpecToolResultItem {
        SpecToolResultItem { item_type: self.item_type@, text: self.text@ }
    }
}

impl DeepView for ToolUse {
    type V = SpecToolUse;

    open spec fn deep_view(&self) -> SpecToolUse {
        SpecToolUse {
            tool_name: self.tool_name@,
            tool_input: self.tool_input.deep_view(),
            tool_output: self.tool_output.deep_view(),
        }
    }
}

impl DeepView for CodeOutput {
    type V = SpecCodeOutput;

    open spec fn deep_view(&self) -> SpecCodeOutput {
        SpecCodeOutput {
            code: self.code@,
            output: self.output.deep_view(),
            language: self.language.deep_view(),
        }
    }
}

impl DeepView for UsageInfo {
    type V = SpecUsage;

    open spec fn deep_view(&self) -> SpecUsage {
        SpecUsage {
            cache_creation_input_tokens: self.cache_creation_input_tokens,
            cache_read_input_tokens: self.cache_read_input_tokens,
            input_tokens: self.input_tokens,
            output_tokens: self.output_tokens,
            service_tier: self.service_tier.deep_view(),
        }
    }
}


/// The text parts of a sequence joined by single spaces.
pub open spec fn spec_join_space(parts: Seq<Seq<char>>) -> Seq<char>
    decreases parts.len(),
{
    if parts.len() == 0 {
        Seq::empty()
    } else if parts.len() == 1 {
        parts[0]
    } else {
        spec_join_space(parts.drop_last()) + " "@ + parts.last()
    }
}

/// The flat text of one tool result.
pub open spec fn spec_tool_result_text(c: SpecToolResultContent) -> Seq<char> {
    match c {
        SpecToolResultContent::Text(t) => t,
        SpecToolResultContent::Array(items) => spec_join_space(
            items.map_values(|it: SpecToolResultItem| it.text),
        ),
    }
}

/// The flat text of one content block.
pub open spec fn spec_block_text(b: SpecBlock) -> Seq<char> {
    match b {
        SpecBlock::Text { text } => text,
        SpecBlock::ToolUse { name, .. } => name,
        SpecBlock::ToolResult { content, .. } => spec_tool_result_text(content),
        SpecBlock::Thinking { thinking, .. } => thinking,
    }
}

/// The flat text of message content: the bare string, or the blocks' texts
/// joined by single spaces.
pub open spec fn spec_content_text(c: SpecContent) -> Seq<char> {
    match c {
        SpecContent::Text(t) => t,
        SpecContent::Blocks(bs) => spec_join_space(bs.map_values(|b: SpecBlock| spec_block_text(b))),
    }
}

/// How many of the blocks are tool uses.
pub open spec fn spec_tool_use_count(bs: Seq<SpecBlock>) -> int
    decreases bs.len(),
{
    if bs.len() == 0 {
        0
    } else {
        spec_tool_use_count(bs.drop_last()) + if bs.last() is ToolUse {
            1int
        } else {
            0
        }
    }
}

/// How many of the blocks are tool results.
pub open spec fn spec_tool_result_count(bs: Seq<SpecBlock>) -> int
    decreases bs.len(),
{
    if bs.len() == 0 {
        0
    } else {
        spec_tool_result_count(bs.drop_last()) + if bs.last() is ToolResult {
            1int
        } else {
            0
        }
    }
}

/// How many tool-use blocks the content holds; a bare string holds none.
pub open spec fn spec_content_tool_uses(c: SpecContent) -> int {
    match c {
        SpecContent::Text(_) => 0,
        SpecContent::Blocks(bs) => spec_tool_use_count(bs),
    }
}

/// How many tool-result blocks the content holds; a bare string holds none.
pub open spec fn spec_content_tool_results(c: SpecContent) -> int {
    match c {
        SpecContent::Text(_) => 0,
        SpecContent::Blocks(bs) => spec_tool_result_count(bs),
    }
}

/// The content of a message, whichever role carries it.
pub open spec fn spec_message_content(m: SpecMessage) -> Option<SpecContent> {
    match m {
        SpecMessage::User { content } => content,
        SpecMessage::Assistant { content, .. } => content,
    }
}

/// The internal-reasoning text of a message, if any.
pub open spec fn spec_message_thinking(m: SpecMessage) -> Option<Seq<char>> {
    match m {
        SpecMessage::User { .. } => None,
        SpecMessage::Assistant { thinking, .. } => thinking,
    }
}

/// Tool uses recorded on a message: the dedicated tool-use list plus the
/// tool-use blocks inside the content.
pub open spec fn spec_message_tool_count(m: SpecMessage) -> int {
    (match m {
        SpecMessage::User { .. } => 0,
        SpecMessage::Assistant { tool_uses, .. } => match tool_uses {
            Some(ts) => ts.len() as int,
            None => 0,
        },
    }) + (match spec_message_content(m) {
        Some(c) => spec_content_tool_uses(c),
        None => 0,
    })
}

/// Code outputs recorded on a message.
pub open spec fn spec_message_code_count(m: SpecMessage) -> int {
    match m {
        SpecMessage::User { .. } => 0,
        SpecMessage::Assistant { code_outputs, .. } => match code_outputs {
            Some(cs) => cs.len() as int,
            None => 0,
        },
    }
}

/// Joins the texts of the items with single spaces.
fn join_item_texts(items: &Vec<ToolResultItem>) -> (r: String)
    ensures
        r@ == spec_join_space(Seq::new(items@.len(), |i: int| items@[i].text@)),
{
    let ghost texts = Seq::new(items@.len(), |i: int| items@[i].text@);
    let mut s = String::new();
    let n = items.len();
    for i in 0..n
        invariant
            n == items.len(),
            texts == Seq::new(items@.len(), |i: int| items@[i].text@),
            texts.len() == n,
            s@ == spec_join_space(texts.take(i as int)),
    {
        if i > 0 {
            s.append(" ");
        }
        s.append(items[i].text.as_str());
        proof {
            assert(texts.take(i + 1).drop_last() =~= texts.take(i as int));
            assert(texts.take(i + 1).last() == texts[i as int]);
            if i == 0 {
                assert(s@ =~= spec_join_space(texts.take(1)));
            }
        }
    }
    proof {
        assert(texts.take(n as int) =~= texts);
    }
    s
}

/// The flat text of one tool result.
fn tool_result_text(c: &ToolResultContent) -> (r: String)
    ensures
        r@ == spec_tool_result_text(c.deep_view()),
{
    match c {
        ToolResultContent::Text(t) => t.clone(),
        ToolResultContent::Array(items) => {
            let r = join_item_texts(items);
            proof {
                assert(items.deep_view().map_values(|it: SpecToolResultItem| it.text) =~= Seq::new(
                    items@.len(),
                    |i: int| items@[i].text@,
                ));
            }
            r
        },
    }
}

/// The flat text of one content block.
fn block_text(b: &ContentBlock) -> (r: String)
    ensures
        r@ == spec_block_text(b.deep_view()),
{
    match b {
        ContentBlock::Text { text } => text.clone(),
        ContentBlock::ToolUse { name, .. } => name.clone(),
        ContentBlock::ToolResult { content, .. } => tool_result_text(content),
        ContentBlock::Thinking { thinking, .. } => thinking.clone(),
    }
}

/// Joins the flat texts of the blocks with single spaces.
fn join_block_texts(bs: &Vec<ContentBlock>) -> (r: String)
    ensures
        r@ == spec_join_space(Seq::new(bs@.len(), |i: int| spec_block_text(bs@[i].deep_view()))),
{
    let ghost texts = Seq::new(bs@.len(), |i: int| spec_block_text(bs@[i].deep_view()));
    let mut s = String::new();
    let n = bs.len();
    for i in 0..n
        invariant
            n == bs.len(),
            texts == Seq::new(bs@.len(), |i: int| spec_block_text(bs@[i].deep_view())),
            texts.len() == n,
            s@ == spec_join_space(texts.take(i as int)),
    {
        if i > 0 {
            s.append(" ");
        }
        let t = block_text(&bs[i]);
        s.append(t.as_str());
        proof {
            assert(texts.take(i + 1).drop_last() =~= texts.take(i as int));
            assert(texts.take(i + 1).last() == texts[i as int]);
            if i == 0 {
                assert(s@ =~= spec_join_space(texts.take(1)));
            }
        }
    }
    proof {
        assert(texts.take(n as int) =~= texts);
    }
    s
}

impl MessageContent {
    /// Flattens the content to a single string: the bare string itself, or
    /// the blocks' texts joined by single spaces.
    pub fn as_text(&self) -> (r: String)
        ensures
            r@ == spec_content_text(self.deep_view()),
    {
        match self {
            MessageContent::Text(t) => t.clone(),
            MessageContent::Blocks(bs) => {
                let r = join_block_texts(bs);
                proof {
                    assert(bs.deep_view().map_values(|b: SpecBlock| spec_block_text(b)) =~= Seq::new(
                        bs@.len(),
                        |i: int| spec_block_text(bs@[i].deep_view()),
                    ));
                }
                r
            },
        }
    }

    /// Whether the content holds at least one tool-use block.
    pub fn has_tool_uses(&self) -> (r: bool)
        ensures
            r == (spec_content_tool_uses(self.deep_view()) > 0),
    {
        self.count_tool_uses() > 0
    }

    /// How many tool-use blocks the content holds.
    pub fn count_tool_uses(&self) -> (r: usize)
        ensures
            r as int == spec_content_tool_uses(self.deep_view()),
    {
        match self {
            MessageContent::Text(_) => 0,
            MessageContent::Blocks(bs) => {
                let ghost gbs = bs.deep_view();
                let mut c: usize = 0;
                let n = bs.len();
                for i in 0..n
                    invariant
                        n == bs.len(),
                        gbs == bs.deep_view(),
                        gbs.len() == n,
                        c <= i,
                        c as int == spec_tool_use_count(gbs.take(i as int)),
                {
                    let hit = match &bs[i] {
                        ContentBlock::ToolUse { .. } => true,
                        _ => false,
                    };
                    if hit {
                        c = c + 1;
                    }
                    proof {
                        assert(gbs.take(i + 1).drop_last() =~= gbs.take(i as int));
                        assert(gbs.take(i + 1).last() == gbs[i as int]);
                    }
                }
                proof {
                    assert(gbs.take(n as int) =~= gbs);
                }
                c
            },
        }
    }

    /// How many tool-result blocks the content holds.
    pub fn count_tool_results(&self) -> (r: usize)
        ensures
            r as int == spec_content_tool_results(self.deep_view()),
    {
        match self {
            MessageContent::Text(_) => 0,
            MessageContent::Blocks(bs) => {
                let ghost gbs = bs.deep_view();
                let mut c: usize = 0;
                let n = bs.len();
                for i in 0..n
                    invariant
                        n == bs.len(),
                        gbs == bs.deep_view(),
                        gbs.len() == n,
                        c <= i,
                        c as int == spec_tool_result_count(gbs.take(i as int)),
                {
                    let hit = match &bs[i] {
                        ContentBlock::ToolResult { .. } => true,
                        _ => false,
                    };
                    if hit {
                        c = c + 1;
                    }
                    proof {
                        assert(gbs.take(i + 1).drop_last() =~= gbs.take(i as int));
                        assert(gbs.take(i + 1).last() == gbs[i as int]);
                    }
                }
                proof {
                    assert(gbs.take(n as int) =~= gbs);
                }
                c
            },
        }
    }
}

impl TranscriptMessage {
    /// The content of the message, whichever role carries it.
    pub fn content(&self) -> (r: Option<&MessageContent>)
        ensures
            match r {
                Some(c) => spec_message_content(self.deep_view()) == Some(c.deep_view()),
                None => spec_message_content(self.deep_view()) is None,
            },
    {
        match self {
            TranscriptMessage::User { content } => content.as_ref(),
            TranscriptMessage::Assistant { content, .. } => content.as_ref(),
        }
    }
}

} // verus!
