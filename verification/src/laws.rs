//! The general guarantees of the parser, stated and proved once.

use vstd::prelude::*;

use crate::describe::PREVIEW_CHARS;
use crate::describe::spec_description;
use crate::parse::SpecDecodeFailure;
use crate::parse::SpecParseError;
use crate::parse::SpecRawEntry;
use crate::parse::spec_entries_of;
use crate::parse::spec_errors_of;
use crate::parse::spec_parse_line;
use crate::parse::spec_raw_entries_of;
use crate::transcript::SpecEntry;
use crate::transcript::SpecUserEntry;
use crate::transcript::spec_content_text;
use crate::transcript::spec_message_content;

verus! {

/// How many lines are well-formed: non-empty and parsing to an entry.
pub open spec fn spec_wellformed_count(ls: Seq<Seq<char>>) -> int
    decreases ls.len(),
{
    if ls.len() == 0 {
        0
    } else {
        spec_wellformed_count(ls.drop_last()) + if ls.last().len() > 0 && spec_parse_line(
            ls.last(),
        ) is Ok {
            1int
        } else {
            0
        }
    }
}

/// How many lines are malformed: non-empty and failing to parse.
pub open spec fn spec_malformed_count(ls: Seq<Seq<char>>) -> int
    decreases ls.len(),
{
    if ls.len() == 0 {
        0
    } else {
        spec_malformed_count(ls.drop_last()) + if ls.last().len() > 0 && spec_parse_line(
            ls.last(),
        ) is Err {
            1int
        } else {
            0
        }
    }
}

/// The well-formed lines themselves, in source order.
pub open spec fn spec_ok_lines(ls: Seq<Seq<char>>) -> Seq<Seq<char>>
    decreases ls.len(),
{
    if ls.len() == 0 {
        Seq::empty()
    } else {
        spec_ok_lines(ls.drop_last()) + (if ls.last().len() > 0 && spec_parse_line(
            ls.last(),
        ) is Ok {
            seq![ls.last()]
        } else {
            Seq::empty()
        })
    }
}

/// Isolation: parsing a text with `k` malformed lines among `n - k`
/// well-formed ones yields exactly `n - k` entries and `k` errors, and every
/// error points back at its line exactly: its 1-based number names a
/// non-empty line whose verbatim text and failure it carries.
pub proof fn lemma_parse_isolation(ls: Seq<Seq<char>>)
    ensures
        spec_entries_of(ls).len() == spec_wellformed_count(ls),
        spec_errors_of(ls).len() == spec_malformed_count(ls),
        forall|k: int| 0 <= k < spec_errors_of(ls).len() ==> {
            let e = #[trigger] spec_errors_of(ls)[k];
            &&& 1 <= e.line_number <= ls.len()
            &&& ls[e.line_number - 1] == e.line_content
            &&& e.line_content.len() > 0
            &&& spec_parse_line(e.line_content) == Err::<SpecEntry, SpecDecodeFailure>(e.error)
        },
    decreases ls.len(),
{
    if ls.len() > 0 {
        lemma_parse_isolation(ls.drop_last());
        assert(forall|j: int| 0 <= j < ls.len() - 1 ==> ls.drop_last()[j] == ls[j]);
    }
}

/// Order preservation: error records carry strictly increasing line
/// numbers, and the entries are exactly the parses of the well-formed lines
/// in their source order.
pub proof fn lemma_parse_order(ls: Seq<Seq<char>>)
    ensures
        forall|a: int, b: int|
            0 <= a < b < spec_errors_of(ls).len() ==> #[trigger] spec_errors_of(
                ls,
            )[a].line_number < #[trigger] spec_errors_of(ls)[b].line_number,
        spec_entries_of(ls) =~= spec_ok_lines(ls).map_values(
            |l: Seq<char>| spec_parse_line(l)->Ok_0,
        ),
    decreases ls.len(),
{
    if ls.len() > 0 {
        lemma_parse_order(ls.drop_last());
        lemma_parse_isolation(ls.drop_last());
        assert(spec_ok_lines(ls.drop_last()).map_values(|l: Seq<char>| spec_parse_line(l)->Ok_0)
            + (if ls.last().len() > 0 && spec_parse_line(ls.last()) is Ok {
            seq![spec_parse_line(ls.last())->Ok_0]
        } else {
            Seq::empty()
        }) =~= spec_ok_lines(ls).map_values(|l: Seq<char>| spec_parse_line(l)->Ok_0));
    }
}

/// The error records of a concatenation, the second part's line numbers
/// shifted past the first part.
pub open spec fn spec_shift_errors(es: Seq<SpecParseError>, d: int) -> Seq<SpecParseError> {
    es.map_values(
        |e: SpecParseError|
            SpecParseError {
                line_number: e.line_number + d,
                line_content: e.line_content,
                error: e.error,
            },
    )
}

/// Parsing splits over concatenation: the first part's results stand
/// unchanged, the second part's error numbers shift by the first part's
/// length. In particular a line's own results never depend on its
/// neighbours.
pub proof fn lemma_parse_append(l1: Seq<Seq<char>>, l2: Seq<Seq<char>>)
    ensures
        spec_entries_of(l1 + l2) =~= spec_entries_of(l1) + spec_entries_of(l2),
        spec_errors_of(l1 + l2) =~= spec_errors_of(l1) + spec_shift_errors(
            spec_errors_of(l2),
            l1.len() as int,
        ),
    decreases l2.len(),
{
    if l2.len() == 0 {
        assert(l1 + l2 =~= l1);
        assert(spec_errors_of(l2) =~= Seq::<SpecParseError>::empty());
        assert(spec_shift_errors(spec_errors_of(l2), l1.len() as int)
            =~= Seq::<SpecParseError>::empty());
    } else {
        lemma_parse_append(l1, l2.drop_last());
        assert((l1 + l2).drop_last() =~= l1 + l2.drop_last());
        assert((l1 + l2).last() == l2.last());
        assert((l1 + l2).len() == l1.len() + l2.len());
        assert(spec_shift_errors(spec_errors_of(l2.drop_last()), l1.len() as int) + (if l2.last()
            .len() > 0 && spec_parse_line(l2.last()) is Err {
            seq![
                SpecParseError {
                    line_number: l1.len() + l2.len() as int,
                    line_content: l2.last(),
                    error: spec_parse_line(l2.last())->Err_0,
                },
            ]
        } else {
            Seq::empty()
        }) =~= spec_shift_errors(spec_errors_of(l2), l1.len() as int));
    }
}

/// Blank-line skipping, first half: a blank line is no entry and no error.
pub proof fn lemma_blank_line_contributes_nothing(l: Seq<char>)
    requires
        l.len() == 0,
    ensures
        spec_entries_of(seq![l]) =~= Seq::<SpecEntry>::empty(),
        spec_errors_of(seq![l]) =~= Seq::<SpecParseError>::empty(),
{
    assert(seq![l].drop_last() =~= Seq::<Seq<char>>::empty());
    assert(seq![l].last() == l);
    assert(spec_entries_of(Seq::<Seq<char>>::empty()) =~= Seq::<SpecEntry>::empty());
    assert(spec_errors_of(Seq::<Seq<char>>::empty()) =~= Seq::<SpecParseError>::empty());
}

/// Blank-line skipping, second half: no error record ever points at a blank
/// line, so blank lines shift no other line's reported number.
pub proof fn lemma_no_error_at_blank_line(ls: Seq<Seq<char>>, i: int)
    requires
        0 <= i < ls.len(),
        ls[i].len() == 0,
    ensures
        forall|k: int| 0 <= k < spec_errors_of(ls).len() ==> #[trigger] spec_errors_of(
            ls,
        )[k].line_number != i + 1,
{
    lemma_parse_isolation(ls);
    assert forall|k: int| 0 <= k < spec_errors_of(ls).len() implies #[trigger] spec_errors_of(
        ls,
    )[k].line_number != i + 1 by {
        let e = spec_errors_of(ls)[k];
        if e.line_number == i + 1 {
            assert(ls[i] == e.line_content);
            assert(e.line_content.len() > 0);
        }
    };
}

/// Raw pairing: every pair a raw-preserving parse keeps consists of a line
/// and exactly the entry that line parses to.
pub proof fn lemma_raw_pairing(ls: Seq<Seq<char>>)
    ensures
        forall|k: int| 0 <= k < spec_raw_entries_of(ls).len() ==> {
            let p = #[trigger] spec_raw_entries_of(ls)[k];
            spec_parse_line(p.raw) == Ok::<SpecEntry, SpecDecodeFailure>(p.entry)
        },
    decreases ls.len(),
{
    if ls.len() > 0 {
        lemma_raw_pairing(ls.drop_last());
    }
}

/// Description truncation: a user message whose flat content text runs to
/// sixty characters is described by exactly the first fifty characters and a
/// trailing ellipsis.
pub proof fn lemma_description_truncation(u: SpecUserEntry)
    requires
        spec_message_content(u.message) is Some,
        spec_content_text(spec_message_content(u.message)->0).len() == 60,
    ensures
        spec_description(SpecEntry::User(u)) == "User: "@ + spec_content_text(
            spec_message_content(u.message)->0,
        ).take(PREVIEW_CHARS as int) + "..."@,
{
}


/// Coherence of the two parse variants: the raw-preserving parse keeps
/// exactly the entries the plain parse yields, in the same order.
pub proof fn lemma_raw_parse_coherent(ls: Seq<Seq<char>>)
    ensures
        spec_raw_entries_of(ls).map_values(|p: SpecRawEntry| p.entry) =~= spec_entries_of(ls),
    decreases ls.len(),
{
    if ls.len() > 0 {
        lemma_raw_parse_coherent(ls.drop_last());
    }
}

} // verus!
