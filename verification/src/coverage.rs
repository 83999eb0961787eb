//! The schema-coverage validator.
//!
//! Given the raw JSON tree of a line and the round-tripped tree of its typed
//! entry, the validator walks both in lock step and reports every path that
//! exists in the raw tree but has no counterpart after the round trip — the
//! wire fields the typed model silently drops. It checks coverage, not
//! equality: a value mismatch between fields both sides have is not reported,
//! and a structural mismatch stops the walk without a finding.

use vstd::prelude::*;

use crate::encode::spec_encode_entry;
use crate::json::JsonValue;
use crate::json::SpecJson;
use crate::json::json_elems_consistent;
use crate::json::json_fields_consistent;
use crate::json::json_self_consistent;
use crate::json::lookup;
use crate::json::obj_get;
use crate::json::spec_json_arr;
use crate::json::spec_json_obj;
use crate::decode::dv_res;
use crate::num::spec_u64_digits;
use crate::parse::JsonSyntaxError;
use crate::parse::SpecSyntaxError;
use crate::parse::json_of;
use crate::parse::parse_json_text;
use crate::transcript::SpecEntry;
use crate::transcript::TranscriptEntry;

verus! {

/// The paths under `prefix` that exist in `raw` but not in `round`.
pub open spec fn spec_missing(raw: SpecJson, round: SpecJson, prefix: Seq<char>) -> Seq<Seq<char>>
    decreases raw, 0int,
    via spec_missing_decreases
{
    match raw {
        SpecJson::Obj(rfs) => match round {
            SpecJson::Obj(ofs) => spec_missing_obj(rfs, ofs, prefix),
            _ => Seq::empty(),
        },
        SpecJson::Arr(rs) => match round {
            SpecJson::Arr(os) => spec_missing_arr(rs, os, prefix, 0),
            _ => Seq::empty(),
        },
        _ => Seq::empty(),
    }
}

/// The findings for an object: keys in raw order, a key absent from the
/// round-tripped object reported as `prefix + key`, a key present in both
/// walked recursively under `prefix + key + "."`.
pub open spec fn spec_missing_obj(
    rfs: Seq<(Seq<char>, SpecJson)>,
    ofs: Seq<(Seq<char>, SpecJson)>,
    prefix: Seq<char>,
) -> Seq<Seq<char>>
    decreases rfs, 1int,
    via spec_missing_obj_decreases
{
    if rfs.len() == 0 {
        Seq::empty()
    } else {
        let k = rfs[0].0;
        let rv = rfs[0].1;
        (match obj_get(ofs, k) {
            None => seq![prefix + k],
            Some(ov) => spec_missing(rv, ov, prefix + k + "."@),
        }) + spec_missing_obj(rfs.drop_first(), ofs, prefix)
    }
}

/// The findings for an array, element-wise by index from `i` on: an index
/// beyond the round-tripped array's length is reported whole as
/// `prefix + "[" + index + "]"`, an index present in both is walked
/// recursively under `prefix + "[" + index + "]."`.
pub open spec fn spec_missing_arr(
    rs: Seq<SpecJson>,
    os: Seq<SpecJson>,
    prefix: Seq<char>,
    i: int,
) -> Seq<Seq<char>>
    decreases rs, rs.len() - i,
    via spec_missing_arr_decreases
{
    if i < 0 || i >= rs.len() {
        Seq::empty()
    } else {
        (if i < os.len() {
            spec_missing(rs[i], os[i], prefix + "["@ + spec_u64_digits(i) + "]."@)
        } else {
            seq![prefix + "["@ + spec_u64_digits(i) + "]"@]
        }) + spec_missing_arr(rs, os, prefix, i + 1)
    }
}

#[via_fn]
proof fn spec_missing_decreases(raw: SpecJson, round: SpecJson, prefix: Seq<char>) {
    match raw {
        SpecJson::Obj(rfs) => {
            assert(decreases_to!(raw => rfs));
        },
        SpecJson::Arr(rs) => {
            assert(decreases_to!(raw => rs));
        },
        _ => {},
    }
}

#[via_fn]
proof fn spec_missing_obj_decreases(
    rfs: Seq<(Seq<char>, SpecJson)>,
    ofs: Seq<(Seq<char>, SpecJson)>,
    prefix: Seq<char>,
) {
    if rfs.len() != 0 {
        assert(decreases_to!(rfs => rfs[0]));
        assert(decreases_to!(rfs => rfs[0].1));
        assert(decreases_to!(rfs => rfs.drop_first()));
    }
}

#[via_fn]
proof fn spec_missing_arr_decreases(rs: Seq<SpecJson>, os: Seq<SpecJson>, prefix: Seq<char>, i: int) {
    if !(i < 0 || i >= rs.len()) {
        assert(decreases_to!(rs => rs[i]));
    }
}

/// The coverage gaps of an entry against the raw tree it was decoded from:
/// the paths in `raw` with no counterpart in the entry's round trip.
pub open spec fn spec_entry_coverage(raw: SpecJson, e: SpecEntry) -> Seq<Seq<char>> {
    spec_missing(raw, spec_encode_entry(e), Seq::empty())
}

/// A tree compared against itself has no coverage gap.
pub proof fn lemma_missing_self(v: SpecJson, prefix: Seq<char>)
    requires
        json_self_consistent(v),
    ensures
        spec_missing(v, v, prefix).len() == 0,
    decreases v, 0int,
{
    match v {
        SpecJson::Obj(rfs) => {
            assert(decreases_to!(v => rfs));
            lemma_missing_obj_self(rfs, rfs, prefix);
        },
        SpecJson::Arr(rs) => {
            assert(decreases_to!(v => rs));
            lemma_missing_arr_self(rs, rs, prefix, 0);
        },
        _ => {},
    }
}

/// Walking fields against a table that stores each of their keys with the
/// same value yields no finding.
proof fn lemma_missing_obj_self(
    rfs: Seq<(Seq<char>, SpecJson)>,
    ofs: Seq<(Seq<char>, SpecJson)>,
    prefix: Seq<char>,
)
    requires
        forall|i: int| 0 <= i < rfs.len() ==> #[trigger] obj_get(ofs, rfs[i].0) == Some(rfs[i].1),
        json_fields_consistent(rfs),
    ensures
        spec_missing_obj(rfs, ofs, prefix).len() == 0,
    decreases rfs, 1int,
{
    if rfs.len() != 0 {
        assert(decreases_to!(rfs => rfs[0]));
        assert(decreases_to!(rfs => rfs[0].1));
        assert(decreases_to!(rfs => rfs.drop_first()));
        let k = rfs[0].0;
        let rv = rfs[0].1;
        assert(obj_get(ofs, k) == Some(rv));
        lemma_missing_self_pair(rv, rv, prefix + k + "."@);
        assert(forall|i: int| 0 <= i < rfs.drop_first().len() ==> rfs.drop_first()[i] == rfs[i
            + 1]);
        lemma_missing_obj_self(rfs.drop_first(), ofs, prefix);
    }
}

/// Reflexivity of the walk, restated for a pair.
proof fn lemma_missing_self_pair(a: SpecJson, b: SpecJson, prefix: Seq<char>)
    requires
        a == b,
        json_self_consistent(a),
    ensures
        spec_missing(a, b, prefix).len() == 0,
    decreases a, 2int,
{
    lemma_missing_self(a, prefix);
}

/// Walking an array against an equal array yields no finding.
proof fn lemma_missing_arr_self(rs: Seq<SpecJson>, os: Seq<SpecJson>, prefix: Seq<char>, i: int)
    requires
        rs =~= os,
        json_elems_consistent(rs),
    ensures
        spec_missing_arr(rs, os, prefix, i).len() == 0,
    decreases rs, rs.len() - i,
{
    if !(i < 0 || i >= rs.len()) {
        assert(decreases_to!(rs => rs[i]));
        lemma_elems_consistent_at(rs, i);
        lemma_missing_self_pair(rs[i], os[i], prefix + "["@ + spec_u64_digits(i) + "]."@);
        lemma_missing_arr_self(rs, os, prefix, i + 1);
    }
}

/// Each element of a consistent list is consistent.
proof fn lemma_elems_consistent_at(xs: Seq<SpecJson>, i: int)
    requires
        json_elems_consistent(xs),
        0 <= i < xs.len(),
    ensures
        json_self_consistent(xs[i]),
    decreases i,
{
    if i > 0 {
        lemma_elems_consistent_at(xs.drop_first(), i - 1);
    } else {
        assert(json_self_consistent(xs[0]));
    }
}

/// An entry whose raw tree equals its own round trip has no coverage gap.
///
/// This is the round-trip guarantee of the validator: a raw JSON tree that is
/// structurally identical to the wire form of the entry it decodes to draws
/// an empty report. Wire trees always meet [`json_self_consistent`]: a JSON
/// object's keys are unique.
pub proof fn lemma_round_trip_coverage(raw: SpecJson, e: SpecEntry)
    requires
        raw == spec_encode_entry(e),
        json_self_consistent(raw),
    ensures
        spec_entry_coverage(raw, e).len() == 0,
{
    lemma_missing_self(raw, Seq::empty());
}


/// Walks `raw` and `round` in lock step and returns the paths, under
/// `prefix`, that exist in `raw` but have no counterpart in `round`, in raw
/// order, depth first.
pub fn missing_paths(raw: &JsonValue, round: &JsonValue, prefix: &str) -> (r: Vec<String>)
    ensures
        r.deep_view() == spec_missing(raw.deep_view(), round.deep_view(), prefix@),
    decreases raw,
{
    let mut out: Vec<String> = Vec::new();
    proof {
        assert(out.deep_view() =~= Seq::<Seq<char>>::empty());
    }
    match raw {
        JsonValue::Obj(rfs) => {
            proof {
                assert(decreases_to!(*raw => *rfs));
                assert(decreases_to!(*rfs => rfs@));
            }
            match round {
                JsonValue::Obj(ofs) => {
                    let ghost grfs = spec_json_obj(rfs@);
                    let ghost gofs = spec_json_obj(ofs@);
                    let ghost p = prefix@;
                    proof {
                        crate::json::lemma_spec_json_obj(rfs@);
                        assert(grfs.skip(0) =~= grfs);
                    }
                    let n = rfs.len();
                    for i in 0..n
                        invariant
                            n == rfs.len(),
                            grfs == spec_json_obj(rfs@),
                            gofs == spec_json_obj(ofs@),
                            p == prefix@,
                            grfs.len() == n,
                            decreases_to!(*raw => rfs@),
                            forall|j: int| 0 <= j < n ==> grfs[j] == (
                                rfs@[j].key@,
                                crate::json::spec_json_of(rfs@[j].value),
                            ),
                            out.deep_view() + spec_missing_obj(grfs.skip(i as int), gofs, p)
                                =~= spec_missing_obj(grfs, gofs, p),
                    {
                        let ghost prev = out.deep_view();
                        proof {
                            assert(grfs.skip(i as int)[0] == grfs[i as int]);
                            assert(grfs.skip(i as int).drop_first() =~= grfs.skip(i + 1));
                            assert(decreases_to!(rfs@ => rfs@[i as int]));
                            assert(decreases_to!(rfs@[i as int] => rfs@[i as int].value));
                        }
                        match lookup(ofs, rfs[i].key.as_str()) {
                            None => {
                                let mut path = prefix.to_owned();
                                path.append(rfs[i].key.as_str());
                                out.push(path);
                                proof {
                                    assert(out.deep_view() =~= prev.push(p + rfs@[i as int].key@));
                                    assert(spec_missing_obj(grfs.skip(i as int), gofs, p)
                                        =~= seq![p + grfs[i as int].0] + spec_missing_obj(
                                        grfs.skip(i + 1),
                                        gofs,
                                        p,
                                    ));
                                    assert(out.deep_view() + spec_missing_obj(
                                        grfs.skip(i + 1),
                                        gofs,
                                        p,
                                    ) =~= spec_missing_obj(grfs, gofs, p));
                                }
                            },
                            Some(ov) => {
                                let mut sub_prefix = prefix.to_owned();
                                sub_prefix.append(rfs[i].key.as_str());
                                sub_prefix.append(".");
                                let mut sub = missing_paths(&rfs[i].value, ov, sub_prefix.as_str());
                                let ghost gsub = sub.deep_view();
                                out.append(&mut sub);
                                proof {
                                    assert(out.deep_view() =~= prev + gsub);
                                    assert(spec_missing_obj(grfs.skip(i as int), gofs, p)
                                        =~= spec_missing(
                                        grfs[i as int].1,
                                        ov.deep_view(),
                                        p + grfs[i as int].0 + "."@,
                                    ) + spec_missing_obj(grfs.skip(i + 1), gofs, p));
                                    assert(out.deep_view() + spec_missing_obj(
                                        grfs.skip(i + 1),
                                        gofs,
                                        p,
                                    ) =~= spec_missing_obj(grfs, gofs, p));
                                }
                            },
                        }
                    }
                    proof {
                        assert(grfs.skip(n as int) =~= Seq::<(Seq<char>, SpecJson)>::empty());
                        assert(out.deep_view() =~= spec_missing_obj(grfs, gofs, p));
                    }
                },
                _ => {},
            }
        },
        JsonValue::Arr(rs) => {
            proof {
                assert(decreases_to!(*raw => *rs));
                assert(decreases_to!(*rs => rs@));
            }
            match round {
                JsonValue::Arr(os) => {
                    let ghost grs = spec_json_arr(rs@);
                    let ghost gos = spec_json_arr(os@);
                    let ghost p = prefix@;
                    proof {
                        crate::json::lemma_spec_json_arr(rs@);
                        crate::json::lemma_spec_json_arr(os@);
                    }
                    let n = rs.len();
                    let m = os.len();
                    for i in 0..n
                        invariant
                            n == rs.len(),
                            m == os.len(),
                            grs == spec_json_arr(rs@),
                            gos == spec_json_arr(os@),
                            p == prefix@,
                            grs.len() == n,
                            gos.len() == m,
                            decreases_to!(*raw => rs@),
                            forall|j: int| 0 <= j < n ==> grs[j] == crate::json::spec_json_of(
                                rs@[j],
                            ),
                            forall|j: int| 0 <= j < m ==> gos[j] == crate::json::spec_json_of(
                                os@[j],
                            ),
                            out.deep_view() + spec_missing_arr(grs, gos, p, i as int)
                                =~= spec_missing_arr(grs, gos, p, 0),
                    {
                        let ghost prev = out.deep_view();
                        proof {
                            assert(decreases_to!(rs@ => rs@[i as int]));
                        }
                        let mut path = prefix.to_owned();
                        path.append("[");
                        let d = crate::num::dec_u64(i as u64);
                        path.append(d.as_str());
                        path.append("]");
                        if i < m {
                            let mut sub_prefix = path;
                            sub_prefix.append(".");
                            let mut sub = missing_paths(&rs[i], &os[i], sub_prefix.as_str());
                            let ghost gsub = sub.deep_view();
                            out.append(&mut sub);
                            proof {
                                assert(out.deep_view() =~= prev + gsub);
                                assert(d@ == spec_u64_digits(i as int));
                                reveal_strlit("].");
                                reveal_strlit("]");
                                reveal_strlit(".");
                                assert("]"@ + "."@ =~= "]."@);
                                assert(sub_prefix@ =~= p + "["@ + spec_u64_digits(i as int)
                                    + "]."@);
                                assert(spec_missing_arr(grs, gos, p, i as int) =~= spec_missing(
                                    grs[i as int],
                                    gos[i as int],
                                    p + "["@ + spec_u64_digits(i as int) + "]."@,
                                ) + spec_missing_arr(grs, gos, p, i + 1));
                                assert(out.deep_view() + spec_missing_arr(grs, gos, p, i + 1)
                                    =~= spec_missing_arr(grs, gos, p, 0));
                            }
                        } else {
                            out.push(path);
                            proof {
                                assert(d@ == spec_u64_digits(i as int));
                                assert(out.deep_view() =~= prev.push(
                                    p + "["@ + spec_u64_digits(i as int) + "]"@,
                                ));
                                assert(spec_missing_arr(grs, gos, p, i as int) =~= seq![
                                    p + "["@ + spec_u64_digits(i as int) + "]"@,
                                ] + spec_missing_arr(grs, gos, p, i + 1));
                                assert(out.deep_view() + spec_missing_arr(grs, gos, p, i + 1)
                                    =~= spec_missing_arr(grs, gos, p, 0));
                            }
                        }
                    }
                    proof {
                        assert(spec_missing_arr(grs, gos, p, n as int) =~= Seq::<Seq<char>>::empty());
                        assert(out.deep_view() =~= spec_missing_arr(grs, gos, p, 0));
                    }
                },
                _ => {},
            }
        },
        _ => {},
    }
    out
}

/// The coverage gaps of a typed entry against the raw tree its line parsed
/// to: the dotted and bracketed paths of the wire fields the typed model
/// silently drops, in raw order, depth first.
pub fn find_missing_fields(raw: &JsonValue, entry: &TranscriptEntry) -> (r: Vec<String>)
    ensures
        r.deep_view() == spec_entry_coverage(raw.deep_view(), entry.deep_view()),
{
    let round = entry.to_json();
    let r = missing_paths(raw, &round, "");
    proof {
        reveal_strlit("");
        assert(""@ =~= Seq::<char>::empty());
    }
    r
}


/// What validating one line of raw text against an entry yields: the
/// coverage gaps of the entry against the tree the text denotes, or the
/// syntax error when the text is not JSON at all.
pub open spec fn spec_validate_line(s: Seq<char>, e: SpecEntry) -> Result<
    Seq<Seq<char>>,
    SpecSyntaxError,
> {
    match json_of(s) {
        Err(x) => Err(x),
        Ok(v) => Ok(spec_entry_coverage(v, e)),
    }
}

/// Validates one raw line against the entry it parsed to: reads the line's
/// JSON tree again and reports the wire fields the typed model drops.
pub fn validate_entry_coverage(raw_line: &str, entry: &TranscriptEntry) -> (r: Result<
    Vec<String>,
    JsonSyntaxError,
>)
    ensures
        dv_res(r) == spec_validate_line(raw_line@, entry.deep_view()),
        json_of(raw_line@) == Ok::<_, crate::parse::SpecSyntaxError>(
            spec_encode_entry(entry.deep_view()),
        ) ==> (r matches Ok(gaps) && gaps.deep_view().len() == 0),
{
    match parse_json_text(raw_line) {
        Err(e) => Err(e),
        Ok(v) => {
            proof {
                if v.deep_view() == spec_encode_entry(entry.deep_view()) {
                    lemma_round_trip_coverage(v.deep_view(), entry.deep_view());
                }
            }
            Ok(find_missing_fields(&v, entry))
        },
    }
}

} // verus!
