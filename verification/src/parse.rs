//! The line-oriented transcript parser.
//!
//! A transcript is UTF-8 text with one JSON object per line. Each line is
//! read whole: blank lines are skipped, a line that parses and decodes
//! becomes an entry, and a line that fails is recorded as an error carrying
//! its 1-based line number and verbatim text. One bad line never stops the
//! lines after it.
//!
//! Reading JSON text into the [`JsonValue`] tree is the work of serde_json
//! and is the trusted edge of this crate; everything after that tree is
//! verified.

use vstd::prelude::*;

use crate::decode::EntryDecodeError;
use crate::decode::SpecDecodeError;
use crate::decode::decode_entry;
use crate::decode::dv_res;
use crate::decode::spec_decode_entry;
use crate::json::JsonField;
use crate::json::JsonValue;
use crate::json::SpecJson;
use crate::json::json_self_consistent;
use crate::transcript::SpecEntry;
use crate::transcript::TranscriptEntry;

verus! {

/// A syntax failure reported by the underlying JSON reader: its message and
/// the 1-based column it points at, or zero when it reports none.
#[derive(Debug, Clone, PartialEq)]
pub struct JsonSyntaxError {
    pub message: String,
    pub column: usize,
}

/// Model of a [`JsonSyntaxError`].
#[verifier::ext_equal]
pub struct SpecSyntaxError {
    pub message: Seq<char>,
    pub column: usize,
}

impl DeepView for JsonSyntaxError {
    type V = SpecSyntaxError;

    open spec fn deep_view(&self) -> SpecSyntaxError {
        SpecSyntaxError { message: self.message@, column: self.column }
    }
}

/// What reading a piece of JSON text yields: the tree it denotes, or the
/// syntax error the reader reports. The outcome is a function of the text
/// alone.
pub uninterp spec fn json_of(s: Seq<char>) -> Result<SpecJson, SpecSyntaxError>;

#[verifier::external_type_specification]
#[verifier::external_body]
pub struct ExSerdeValue(serde_json::Value);

/// Relies on the six variants of `serde_json::Value`: rebuilds the value as
/// the crate's own tree, one variant to one variant, numbers kept as their
/// decimal text and object fields in the order the map hands them out.
#[verifier::external_body]
fn of_serde(v: &serde_json::Value) -> JsonValue {
    match v {
        serde_json::Value::Null => JsonValue::Null,
        serde_json::Value::Bool(b) => JsonValue::Bool(*b),
        serde_json::Value::Number(n) => JsonValue::Num(n.to_string()),
        serde_json::Value::String(s) => JsonValue::Str(s.clone()),
        serde_json::Value::Array(a) => JsonValue::Arr(a.iter().map(of_serde).collect()),
        serde_json::Value::Object(m) => JsonValue::Obj(
            m.iter().map(|(k, v)| JsonField { key: k.clone(), value: of_serde(v) }).collect(),
        ),
    }
}

/// Relies on `serde_json::from_str::<serde_json::Value>`: parses one piece of
/// JSON text, deterministically in the text alone, and on failure reports a
/// message and a column through `serde_json::Error::column`. Every object in
/// the returned tree has unique keys, because serde_json stores object
/// members in a map; unique keys give [`json_self_consistent`].
#[verifier::external_body]
pub(crate) fn parse_json_text(s: &str) -> (r: Result<JsonValue, JsonSyntaxError>)
    ensures
        dv_res(r) == json_of(s@),
        r matches Ok(v) ==> json_self_consistent(v.deep_view()),
{
    match serde_json::from_str::<serde_json::Value>(s) {
        Ok(v) => Ok(of_serde(&v)),
        Err(e) => Err(JsonSyntaxError { message: e.to_string(), column: e.column() }),
    }
}

/// Why one line did not become an entry: its JSON does not parse, or the
/// parsed tree does not decode to any entry kind.
#[derive(Debug, Clone, PartialEq)]
pub enum DecodeFailure {
    Syntax(JsonSyntaxError),
    Entry(EntryDecodeError),
}

/// Model of a [`DecodeFailure`].
#[verifier::ext_equal]
pub enum SpecDecodeFailure {
    Syntax(SpecSyntaxError),
    Entry(SpecDecodeError),
}

impl DeepView for DecodeFailure {
    type V = SpecDecodeFailure;

    open spec fn deep_view(&self) -> SpecDecodeFailure {
        match self {
            DecodeFailure::Syntax(e) => SpecDecodeFailure::Syntax(e.deep_view()),
            DecodeFailure::Entry(e) => SpecDecodeFailure::Entry(e.deep_view()),
        }
    }
}

/// What one line of text parses to: the entry its JSON decodes to, or the
/// first failure on the way there.
pub open spec fn spec_parse_line(s: Seq<char>) -> Result<SpecEntry, SpecDecodeFailure> {
    match json_of(s) {
        Err(e) => Err(SpecDecodeFailure::Syntax(e)),
        Ok(v) => match spec_decode_entry(v) {
            Err(d) => Err(SpecDecodeFailure::Entry(d)),
            Ok(e) => Ok(e),
        },
    }
}

/// Parses one line of a transcript into a typed entry.
pub fn parse_transcript_line(line: &str) -> (r: Result<TranscriptEntry, DecodeFailure>)
    ensures
        dv_res(r) == spec_parse_line(line@),
{
    match parse_json_text(line) {
        Err(e) => Err(DecodeFailure::Syntax(e)),
        Ok(v) => match decode_entry(&v) {
            Ok(entry) => Ok(entry),
            Err(d) => Err(DecodeFailure::Entry(d)),
        },
    }
}

/// The index of the first line feed in `s`, or `s.len()` if there is none.
pub open spec fn first_nl(s: Seq<char>) -> int
    decreases s.len(),
{
    if s.len() == 0 {
        0
    } else if s[0] == '\n' {
        0
    } else {
        1 + first_nl(s.drop_first())
    }
}

/// `first_nl` stays within the text and is the first line feed indeed.
pub proof fn lemma_first_nl(s: Seq<char>)
    ensures
        0 <= first_nl(s) <= s.len(),
        forall|j: int| 0 <= j < first_nl(s) ==> s[j] != '\n',
        first_nl(s) < s.len() ==> s[first_nl(s)] == '\n',
    decreases s.len(),
{
    if s.len() != 0 && s[0] != '\n' {
        lemma_first_nl(s.drop_first());
        assert forall|j: int| 1 <= j < first_nl(s) implies s[j] != '\n' by {
            assert(s.drop_first()[j - 1] == s[j]);
            assert(s.drop_first()[j - 1] != '\n');
        };
    }
}

/// Conversely, an index below which no line feed stands, and which holds one
/// or ends the text, is `first_nl`.
pub proof fn lemma_first_nl_at(s: Seq<char>, k: int)
    requires
        0 <= k <= s.len(),
        forall|j: int| 0 <= j < k ==> s[j] != '\n',
        k == s.len() || s[k] == '\n',
    ensures
        first_nl(s) == k,
    decreases k,
{
    if k > 0 {
        assert(s.drop_first() =~= s.skip(1));
        assert(forall|j: int| 0 <= j < k - 1 ==> s.skip(1)[j] != '\n');
        lemma_first_nl_at(s.drop_first(), k - 1);
    }
}

/// A line terminated by a line feed loses one carriage return directly
/// before it; the final, unterminated line keeps its text whole.
pub open spec fn strip_cr(l: Seq<char>) -> Seq<char> {
    if l.len() > 0 && l.last() == '\r' {
        l.drop_last()
    } else {
        l
    }
}

/// The lines of the text: split at each line feed, one carriage return
/// stripped before each line feed, and no empty line after a terminal line
/// feed.
pub open spec fn spec_lines(s: Seq<char>) -> Seq<Seq<char>>
    decreases s.len(),
    via spec_lines_decreases
{
    if s.len() == 0 {
        Seq::empty()
    } else {
        let i = first_nl(s);
        if i == s.len() {
            seq![s]
        } else {
            seq![strip_cr(s.take(i))] + spec_lines(s.skip(i + 1))
        }
    }
}

#[via_fn]
proof fn spec_lines_decreases(s: Seq<char>) {
    lemma_first_nl(s);
}

/// Splits the text into its lines.
pub fn split_lines(s: &str) -> (r: Vec<String>)
    ensures
        r.deep_view() == spec_lines(s@),
{
    let n = s.unicode_len();
    let mut lines: Vec<String> = Vec::new();
    let mut start: usize = 0;
    let mut i: usize = 0;
    proof {
        assert(lines.deep_view() =~= Seq::<Seq<char>>::empty());
        assert(s@.skip(0) =~= s@);
    }
    while i < n
        invariant
            n == s@.len(),
            start <= i <= n,
            forall|j: int| start <= j < i ==> s@[j] != '\n',
            lines.deep_view() + spec_lines(s@.skip(start as int)) =~= spec_lines(s@),
        decreases n - i,
    {
        let c = s.get_char(i);
        if c == '\n' {
            let end = if i > start && s.get_char(i - 1) == '\r' {
                i - 1
            } else {
                i
            };
            let ghost prev = lines.deep_view();
            let piece = s.substring_char(start, end);
            lines.push(piece.to_owned());
            proof {
                let tail = s@.skip(start as int);
                assert(forall|j: int| 0 <= j < i - start ==> tail[j] == s@[start + j]);
                lemma_first_nl_at(tail, i - start);
                assert(tail.take(i - start) =~= s@.subrange(start as int, i as int));
                assert(strip_cr(tail.take(i - start)) =~= s@.subrange(start as int, end as int));
                assert(tail.skip(i - start + 1) =~= s@.skip(i + 1));
                assert(spec_lines(tail) =~= seq![s@.subrange(start as int, end as int)]
                    + spec_lines(s@.skip(i + 1)));
                assert(lines.deep_view() =~= prev.push(s@.subrange(start as int, end as int)));
                assert(lines.deep_view() + spec_lines(s@.skip(i + 1)) =~= spec_lines(s@));
            }
            start = i + 1;
        }
        i = i + 1;
    }
    if start < n {
        let ghost prev = lines.deep_view();
        let piece = s.substring_char(start, n);
        lines.push(piece.to_owned());
        proof {
            let tail = s@.skip(start as int);
            assert(forall|j: int| 0 <= j < n - start ==> tail[j] == s@[start + j]);
            lemma_first_nl_at(tail, n - start);
            assert(tail =~= s@.subrange(start as int, n as int));
            assert(spec_lines(tail) =~= seq![s@.subrange(start as int, n as int)]);
            assert(lines.deep_view() =~= prev.push(s@.subrange(start as int, n as int)));
            assert(lines.deep_view() =~= spec_lines(s@));
        }
    } else {
        proof {
            assert(s@.skip(start as int).len() == 0);
            assert(lines.deep_view() =~= spec_lines(s@));
        }
    }
    lines
}


/// One recorded parse failure: the 1-based number of the line, its verbatim
/// text, and why it failed.
#[derive(Debug, Clone, PartialEq)]
pub struct TranscriptParseError {
    pub line_number: usize,
    pub line_content: String,
    pub error: DecodeFailure,
}

/// Model of a [`TranscriptParseError`].
#[verifier::ext_equal]
pub struct SpecParseError {
    pub line_number: int,
    pub line_content: Seq<char>,
    pub error: SpecDecodeFailure,
}

impl DeepView for TranscriptParseError {
    type V = SpecParseError;

    open spec fn deep_view(&self) -> SpecParseError {
        SpecParseError {
            line_number: self.line_number as int,
            line_content: self.line_content@,
            error: self.error.deep_view(),
        }
    }
}

/// Everything one parse pass produced: the entries and the failures, each in
/// source order.
#[derive(Debug)]
pub struct TranscriptParseResult {
    pub entries: Vec<TranscriptEntry>,
    pub errors: Vec<TranscriptParseError>,
}

/// A successfully parsed entry paired with the verbatim text of its line,
/// for coverage validation.
#[derive(Debug, Clone)]
pub struct RawEntry {
    pub raw: String,
    pub entry: TranscriptEntry,
}

/// Model of a [`RawEntry`].
#[verifier::ext_equal]
pub struct SpecRawEntry {
    pub raw: Seq<char>,
    pub entry: SpecEntry,
}

impl DeepView for RawEntry {
    type V = SpecRawEntry;

    open spec fn deep_view(&self) -> SpecRawEntry {
        SpecRawEntry { raw: self.raw@, entry: self.entry.deep_view() }
    }
}

/// Everything a raw-preserving parse pass produced.
#[derive(Debug)]
pub struct RawParseResult {
    pub entries: Vec<RawEntry>,
    pub errors: Vec<TranscriptParseError>,
}

/// The entries of the lines, in order: one per non-empty line whose text
/// parses and decodes.
pub open spec fn spec_entries_of(ls: Seq<Seq<char>>) -> Seq<SpecEntry>
    decreases ls.len(),
{
    if ls.len() == 0 {
        Seq::empty()
    } else {
        spec_entries_of(ls.drop_last()) + (if ls.last().len() > 0 && spec_parse_line(
            ls.last(),
        ) is Ok {
            seq![spec_parse_line(ls.last())->Ok_0]
        } else {
            Seq::empty()
        })
    }
}

/// The failures of the lines, in order: one per non-empty line that does not
/// parse, carrying its 1-based position and verbatim text.
pub open spec fn spec_errors_of(ls: Seq<Seq<char>>) -> Seq<SpecParseError>
    decreases ls.len(),
{
    if ls.len() == 0 {
        Seq::empty()
    } else {
        spec_errors_of(ls.drop_last()) + (if ls.last().len() > 0 && spec_parse_line(
            ls.last(),
        ) is Err {
            seq![
                SpecParseError {
                    line_number: ls.len() as int,
                    line_content: ls.last(),
                    error: spec_parse_line(ls.last())->Err_0,
                },
            ]
        } else {
            Seq::empty()
        })
    }
}

/// The raw-preserving entries of the lines, in order.
pub open spec fn spec_raw_entries_of(ls: Seq<Seq<char>>) -> Seq<SpecRawEntry>
    decreases ls.len(),
{
    if ls.len() == 0 {
        Seq::empty()
    } else {
        spec_raw_entries_of(ls.drop_last()) + (if ls.last().len() > 0 && spec_parse_line(
            ls.last(),
        ) is Ok {
            seq![SpecRawEntry { raw: ls.last(), entry: spec_parse_line(ls.last())->Ok_0 }]
        } else {
            Seq::empty()
        })
    }
}

/// What parsing all lines at once yields: every entry, or the first failure.
pub open spec fn spec_parse_all(ls: Seq<Seq<char>>) -> Result<Seq<SpecEntry>, SpecDecodeFailure>
    decreases ls.len(),
{
    if ls.len() == 0 {
        Ok(Seq::empty())
    } else {
        match spec_parse_all(ls.drop_last()) {
            Err(e) => Err(e),
            Ok(es) => if ls.last().len() == 0 {
                Ok(es)
            } else {
                match spec_parse_line(ls.last()) {
                    Err(e) => Err(e),
                    Ok(entry) => Ok(es.push(entry)),
                }
            },
        }
    }
}

/// A failing prefix decides the whole text.
proof fn lemma_parse_all_err(ls: Seq<Seq<char>>, j: int)
    requires
        0 <= j <= ls.len(),
        spec_parse_all(ls.take(j)) is Err,
    ensures
        spec_parse_all(ls) == spec_parse_all(ls.take(j)),
    decreases ls.len() - j,
{
    if j < ls.len() {
        assert(ls.take(j + 1).drop_last() =~= ls.take(j));
        lemma_parse_all_err(ls, j + 1);
    } else {
        assert(ls.take(j) =~= ls);
    }
}

/// Parses a whole transcript, skipping blank lines, and stops at the first
/// line that fails.
pub fn parse_transcript(content: &str) -> (r: Result<Vec<TranscriptEntry>, DecodeFailure>)
    ensures
        dv_res(r) == spec_parse_all(spec_lines(content@)),
{
    let lines = split_lines(content);
    let ghost gls = spec_lines(content@);
    let mut entries: Vec<TranscriptEntry> = Vec::new();
    let n = lines.len();
    proof {
        assert(gls.take(0) =~= Seq::<Seq<char>>::empty());
        assert(entries.deep_view() =~= Seq::<SpecEntry>::empty());
        assert(gls.len() == n);
    }
    for i in 0..n
        invariant
            n == lines.len(),
            gls == spec_lines(content@),
            lines.deep_view() == gls,
            gls.len() == n,
            spec_parse_all(gls.take(i as int)) == Ok::<_, SpecDecodeFailure>(entries.deep_view()),
    {
        proof {
            assert(gls.take(i + 1).drop_last() =~= gls.take(i as int));
            assert(gls.take(i + 1).last() == gls[i as int]);
            assert(lines@[i as int]@ == gls[i as int]);
        }
        if !lines[i].as_str().is_empty() {
            let ghost prev = entries.deep_view();
            match parse_transcript_line(lines[i].as_str()) {
                Ok(entry) => {
                    let ghost ge = entry.deep_view();
                    entries.push(entry);
                    proof {
                        assert(entries.deep_view() =~= prev.push(ge));
                    }
                },
                Err(e) => {
                    proof {
                        assert(spec_parse_all(gls.take(i + 1)) == Err::<Seq<SpecEntry>, _>(
                            e.deep_view(),
                        ));
                        lemma_parse_all_err(gls, i + 1);
                    }
                    return Err(e);
                },
            }
        }
    }
    proof {
        assert(gls.take(n as int) =~= gls);
    }
    Ok(entries)
}

/// Parses a whole transcript, skipping blank lines and isolating failures:
/// every line that parses becomes an entry, every line that fails becomes a
/// recorded error with its 1-based line number and verbatim text, and both
/// sequences keep source order.
pub fn parse_transcript_with_context(content: &str) -> (r: TranscriptParseResult)
    ensures
        r.entries.deep_view() == spec_entries_of(spec_lines(content@)),
        r.errors.deep_view() == spec_errors_of(spec_lines(content@)),
{
    let lines = split_lines(content);
    let ghost gls = spec_lines(content@);
    let mut entries: Vec<TranscriptEntry> = Vec::new();
    let mut errors: Vec<TranscriptParseError> = Vec::new();
    let n = lines.len();
    proof {
        assert(gls.take(0) =~= Seq::<Seq<char>>::empty());
        assert(entries.deep_view() =~= Seq::<SpecEntry>::empty());
        assert(errors.deep_view() =~= Seq::<SpecParseError>::empty());
        assert(gls.len() == n);
    }
    for i in 0..n
        invariant
            n == lines.len(),
            gls == spec_lines(content@),
            lines.deep_view() == gls,
            gls.len() == n,
            entries.deep_view() == spec_entries_of(gls.take(i as int)),
            errors.deep_view() == spec_errors_of(gls.take(i as int)),
    {
        proof {
            assert(gls.take(i + 1).drop_last() =~= gls.take(i as int));
            assert(gls.take(i + 1).last() == gls[i as int]);
            assert(gls.take(i + 1).len() == i + 1);
            assert(lines@[i as int]@ == gls[i as int]);
        }
        if !lines[i].as_str().is_empty() {
            let ghost prev_entries = entries.deep_view();
            let ghost prev_errors = errors.deep_view();
            match parse_transcript_line(lines[i].as_str()) {
                Ok(entry) => {
                    let ghost ge = entry.deep_view();
                    entries.push(entry);
                    proof {
                        assert(entries.deep_view() =~= prev_entries.push(ge));
                        assert(entries.deep_view() =~= spec_entries_of(gls.take(i + 1)));
                        assert(errors.deep_view() =~= spec_errors_of(gls.take(i + 1)));
                    }
                },
                Err(e) => {
                    let record = TranscriptParseError {
                        line_number: i + 1,
                        line_content: lines[i].clone(),
                        error: e,
                    };
                    let ghost gr = record.deep_view();
                    errors.push(record);
                    proof {
                        assert(errors.deep_view() =~= prev_errors.push(gr));
                        assert(errors.deep_view() =~= spec_errors_of(gls.take(i + 1)));
                        assert(entries.deep_view() =~= spec_entries_of(gls.take(i + 1)));
                    }
                },
            }
        } else {
            proof {
                assert(entries.deep_view() =~= spec_entries_of(gls.take(i + 1)));
                assert(errors.deep_view() =~= spec_errors_of(gls.take(i + 1)));
            }
        }
    }
    proof {
        assert(gls.take(n as int) =~= gls);
    }
    TranscriptParseResult { entries, errors }
}

/// Parses a whole transcript as [`parse_transcript_with_context`] does, and
/// additionally pairs each entry with the verbatim text of its line, for
/// coverage validation.
pub fn parse_transcript_with_raw(content: &str) -> (r: RawParseResult)
    ensures
        r.entries.deep_view() == spec_raw_entries_of(spec_lines(content@)),
        r.errors.deep_view() == spec_errors_of(spec_lines(content@)),
{
    let lines = split_lines(content);
    let ghost gls = spec_lines(content@);
    let mut entries: Vec<RawEntry> = Vec::new();
    let mut errors: Vec<TranscriptParseError> = Vec::new();
    let n = lines.len();
    proof {
        assert(gls.take(0) =~= Seq::<Seq<char>>::empty());
        assert(entries.deep_view() =~= Seq::<SpecRawEntry>::empty());
        assert(errors.deep_view() =~= Seq::<SpecParseError>::empty());
        assert(gls.len() == n);
    }
    for i in 0..n
        invariant
            n == lines.len(),
            gls == spec_lines(content@),
            lines.deep_view() == gls,
            gls.len() == n,
            entries.deep_view() == spec_raw_entries_of(gls.take(i as int)),
            errors.deep_view() == spec_errors_of(gls.take(i as int)),
    {
        proof {
            assert(gls.take(i + 1).drop_last() =~= gls.take(i as int));
            assert(gls.take(i + 1).last() == gls[i as int]);
            assert(gls.take(i + 1).len() == i + 1);
            assert(lines@[i as int]@ == gls[i as int]);
        }
        if !lines[i].as_str().is_empty() {
            let ghost prev_entries = entries.deep_view();
            let ghost prev_errors = errors.deep_view();
            match parse_transcript_line(lines[i].as_str()) {
                Ok(entry) => {
                    let record = RawEntry { raw: lines[i].clone(), entry };
                    let ghost gr = record.deep_view();
                    entries.push(record);
                    proof {
                        assert(entries.deep_view() =~= prev_entries.push(gr));
                        assert(entries.deep_view() =~= spec_raw_entries_of(gls.take(i + 1)));
                        assert(errors.deep_view() =~= spec_errors_of(gls.take(i + 1)));
                    }
                },
                Err(e) => {
                    let record = TranscriptParseError {
                        line_number: i + 1,
                        line_content: lines[i].clone(),
                        error: e,
                    };
                    let ghost gr = record.deep_view();
                    errors.push(record);
                    proof {
                        assert(errors.deep_view() =~= prev_errors.push(gr));
                        assert(errors.deep_view() =~= spec_errors_of(gls.take(i + 1)));
                        assert(entries.deep_view() =~= spec_raw_entries_of(gls.take(i + 1)));
                    }
                },
            }
        } else {
            proof {
                assert(entries.deep_view() =~= spec_raw_entries_of(gls.take(i + 1)));
                assert(errors.deep_view() =~= spec_errors_of(gls.take(i + 1)));
            }
        }
    }
    proof {
        assert(gls.take(n as int) =~= gls);
    }
    RawParseResult { entries, errors }
}

} // verus!
