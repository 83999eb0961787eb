//! Building tool-input tables from `key=value` pairs.
//!
//! A test harness describes tool inputs on the command line as `key=value`
//! pairs (the value taken verbatim as a string) or `key=json` pairs (the
//! value read as JSON). Pairs accumulate into an ordered table with unique
//! keys; a later pair for the same key replaces the earlier value in place.

use vstd::prelude::*;

use crate::json::JsonField;
use crate::json::JsonValue;
use crate::json::SpecJson;
use crate::json::spec_json_obj;
use crate::parse::JsonSyntaxError;
use crate::parse::SpecSyntaxError;
use crate::parse::json_of;
use crate::parse::parse_json_text;

verus! {

/// Why a pair list could not be read.
#[derive(Debug, Clone, PartialEq)]
pub enum InputError {
    /// The pair holds no `=`; it is carried verbatim.
    BadPair(String),
    /// The value of this key is not valid JSON.
    BadJson { key: String, error: JsonSyntaxError },
}

/// Model of an [`InputError`].
#[verifier::ext_equal]
pub enum SpecInputError {
    BadPair(Seq<char>),
    BadJson { key: Seq<char>, error: SpecSyntaxError },
}

impl DeepView for InputError {
    type V = SpecInputError;

    open spec fn deep_view(&self) -> SpecInputError {
        match self {
            InputError::BadPair(s) => SpecInputError::BadPair(s@),
            InputError::BadJson { key, error } => SpecInputError::BadJson {
                key: key@,
                error: error.deep_view(),
            },
        }
    }
}

/// The index of the first `=` in `s`, or `s.len()` if there is none.
pub open spec fn first_eq(s: Seq<char>) -> int
    decreases s.len(),
{
    if s.len() == 0 {
        0
    } else if s[0] == '=' {
        0
    } else {
        1 + first_eq(s.drop_first())
    }
}

/// `first_eq` stays within the text and is the first `=` indeed.
pub proof fn lemma_first_eq(s: Seq<char>)
    ensures
        0 <= first_eq(s) <= s.len(),
        forall|j: int| 0 <= j < first_eq(s) ==> s[j] != '=',
        first_eq(s) < s.len() ==> s[first_eq(s)] == '=',
    decreases s.len(),
{
    if s.len() != 0 && s[0] != '=' {
        lemma_first_eq(s.drop_first());
        assert forall|j: int| 1 <= j < first_eq(s) implies s[j] != '=' by {
            assert(s.drop_first()[j - 1] == s[j]);
            assert(s.drop_first()[j - 1] != '=');
        };
    }
}

/// The key and value text of one pair: the text before and after the first
/// `=`, or nothing when there is no `=`.
pub open spec fn spec_split_pair(s: Seq<char>) -> Option<(Seq<char>, Seq<char>)> {
    if first_eq(s) == s.len() {
        None
    } else {
        Some((s.take(first_eq(s)), s.skip(first_eq(s) + 1)))
    }
}

/// Splits one pair at its first `=`.
fn split_pair(s: &str) -> (r: Option<(String, String)>)
    ensures
        match r {
            Some(kv) => spec_split_pair(s@) == Some((kv.0@, kv.1@)),
            None => spec_split_pair(s@) is None,
        },
{
    let n = s.unicode_len();
    let mut i: usize = 0;
    while i < n
        invariant
            n == s@.len(),
            0 <= i <= n,
            forall|j: int| 0 <= j < i ==> s@[j] != '=',
        decreases n - i,
    {
        if s.get_char(i) == '=' {
            let key = s.substring_char(0, i).to_owned();
            let value = s.substring_char(i + 1, n).to_owned();
            proof {
                lemma_first_eq(s@);
                assert(first_eq(s@) == i) by {
                    crate::parse::lemma_first_nl(s@);
                    lemma_first_eq_at(s@, i as int);
                };
                assert(key@ =~= s@.take(i as int));
                assert(value@ =~= s@.skip(i + 1));
            }
            return Some((key, value));
        }
        i = i + 1;
    }
    proof {
        lemma_first_eq_at(s@, n as int);
    }
    None
}

/// Conversely, an index below which no `=` stands, and which holds one or
/// ends the text, is `first_eq`.
proof fn lemma_first_eq_at(s: Seq<char>, k: int)
    requires
        0 <= k <= s.len(),
        forall|j: int| 0 <= j < k ==> s[j] != '=',
        k == s.len() || s[k] == '=',
    ensures
        first_eq(s) == k,
    decreases k,
{
    if k > 0 {
        assert(s.drop_first() =~= s.skip(1));
        assert(forall|j: int| 0 <= j < k - 1 ==> s.skip(1)[j] != '=');
        lemma_first_eq_at(s.drop_first(), k - 1);
    }
}

/// The table with `k` set to `v`: the first field with that key replaced in
/// place, or a new field at the end.
pub open spec fn spec_table_set(
    fs: Seq<(Seq<char>, SpecJson)>,
    k: Seq<char>,
    v: SpecJson,
) -> Seq<(Seq<char>, SpecJson)>
    decreases fs.len(),
{
    if fs.len() == 0 {
        seq![(k, v)]
    } else if fs[0].0 == k {
        seq![(k, v)] + fs.drop_first()
    } else {
        seq![fs[0]] + spec_table_set(fs.drop_first(), k, v)
    }
}

/// Sets `k` to `v` in the table.
fn table_set(fs: &mut Vec<JsonField>, k: String, v: JsonValue)
    ensures
        spec_json_obj(final(fs)@) == spec_table_set(spec_json_obj(old(fs)@), k@, v.deep_view()),
{
    let ghost gv = v.deep_view();
    let ghost gfs = spec_json_obj(fs@);
    proof {
        crate::json::lemma_spec_json_obj(fs@);
        assert(gfs.skip(0) =~= gfs);
    }
    let n = fs.len();
    let mut i: usize = 0;
    while i < n
        invariant
            n == fs.len(),
            0 <= i <= n,
            gv == v.deep_view(),
            fs@ == old(fs)@,
            gfs == spec_json_obj(fs@),
            gfs.len() == n,
            forall|j: int| 0 <= j < gfs.len() ==> gfs[j] == (
                fs@[j].key@,
                crate::json::spec_json_of(fs@[j].value),
            ),
            forall|j: int| 0 <= j < i ==> gfs[j].0 != k@,
            spec_table_set(gfs, k@, gv) =~= gfs.take(i as int) + spec_table_set(
                gfs.skip(i as int),
                k@,
                gv,
            ),
        decreases n - i,
    {
        proof {
            assert(gfs.skip(i as int)[0] == gfs[i as int]);
            assert(gfs.skip(i as int).drop_first() =~= gfs.skip(i + 1));
        }
        if crate::json::str_eq(fs[i].key.as_str(), k.as_str()) {
            let ghost gk = k@;
            let ghost vec0 = fs@;
            let new_field = JsonField { key: k, value: v };
            let ghost gnf = new_field;
            fs.push(new_field);
            let ghost vec1 = fs@;
            let _removed = fs.swap_remove(i);
            proof {
                assert(fs@ =~= vec0.update(i as int, vec1.last()));
                assert(fs@.len() == vec0.len());
                assert(forall|j: int| 0 <= j < i ==> fs@[j] == vec0[j]);
                assert(forall|j: int| i < j < vec0.len() ==> fs@[j] == vec0[j]);
                assert(vec1 == vec0.push(gnf));
                assert(vec1.last() == gnf);
                assert(fs@[i as int] == gnf);
                assert(fs@[i as int].key@ == gk);
                assert(crate::json::spec_json_of(fs@[i as int].value) == gv);
                crate::json::lemma_spec_json_obj(vec0);
                crate::json::lemma_spec_json_obj(fs@);
                assert(spec_table_set(gfs.skip(i as int), k@, gv) =~= seq![(k@, gv)] + gfs.skip(
                    i + 1,
                ));
                assert(spec_json_obj(fs@) =~= gfs.take(i as int) + seq![(k@, gv)] + gfs.skip(
                    i + 1,
                ));
                assert(spec_json_obj(fs@) =~= spec_table_set(gfs, k@, gv));
            }
            return ;
        }
        proof {
            assert(gfs.take(i + 1) =~= gfs.take(i as int) + seq![gfs[i as int]]);
            assert(spec_table_set(gfs, k@, gv) =~= gfs.take(i + 1) + spec_table_set(
                gfs.skip(i + 1),
                k@,
                gv,
            ));
        }
        i = i + 1;
    }
    fs.push(JsonField { key: k, value: v });
    proof {
        crate::json::lemma_spec_json_obj(fs@);
        assert(gfs.skip(n as int) =~= Seq::<(Seq<char>, SpecJson)>::empty());
        assert(spec_table_set(gfs.skip(n as int), k@, gv) =~= seq![(k@, gv)]);
        assert(gfs.take(n as int) =~= gfs);
        assert(spec_json_obj(fs@) =~= gfs + seq![(k@, gv)]);
        assert(spec_json_obj(fs@) =~= spec_table_set(gfs, k@, gv));
    }
}

/// What folding the string pairs over a table yields: each pair's value set
/// verbatim, or the first pair with no `=`.
pub open spec fn spec_string_inputs(
    base: Seq<(Seq<char>, SpecJson)>,
    ls: Seq<Seq<char>>,
) -> Result<Seq<(Seq<char>, SpecJson)>, SpecInputError>
    decreases ls.len(),
{
    if ls.len() == 0 {
        Ok(base)
    } else {
        match spec_string_inputs(base, ls.drop_last()) {
            Err(e) => Err(e),
            Ok(t) => match spec_split_pair(ls.last()) {
                None => Err(SpecInputError::BadPair(ls.last())),
                Some(kv) => Ok(spec_table_set(t, kv.0, SpecJson::Str(kv.1))),
            },
        }
    }
}

/// What folding the JSON pairs over a table yields: each pair's value read
/// as JSON, or the first pair with no `=` or an unreadable value.
pub open spec fn spec_json_inputs(
    base: Seq<(Seq<char>, SpecJson)>,
    ls: Seq<Seq<char>>,
) -> Result<Seq<(Seq<char>, SpecJson)>, SpecInputError>
    decreases ls.len(),
{
    if ls.len() == 0 {
        Ok(base)
    } else {
        match spec_json_inputs(base, ls.drop_last()) {
            Err(e) => Err(e),
            Ok(t) => match spec_split_pair(ls.last()) {
                None => Err(SpecInputError::BadPair(ls.last())),
                Some(kv) => match json_of(kv.1) {
                    Err(e) => Err(SpecInputError::BadJson { key: kv.0, error: e }),
                    Ok(v) => Ok(spec_table_set(t, kv.0, v)),
                },
            },
        }
    }
}

/// A failing prefix of string pairs decides the whole list.
proof fn lemma_string_inputs_err(base: Seq<(Seq<char>, SpecJson)>, ls: Seq<Seq<char>>, j: int)
    requires
        0 <= j <= ls.len(),
        spec_string_inputs(base, ls.take(j)) is Err,
    ensures
        spec_string_inputs(base, ls) == spec_string_inputs(base, ls.take(j)),
    decreases ls.len() - j,
{
    if j < ls.len() {
        assert(ls.take(j + 1).drop_last() =~= ls.take(j));
        lemma_string_inputs_err(base, ls, j + 1);
    } else {
        assert(ls.take(j) =~= ls);
    }
}

/// A failing prefix of JSON pairs decides the whole list.
proof fn lemma_json_inputs_err(base: Seq<(Seq<char>, SpecJson)>, ls: Seq<Seq<char>>, j: int)
    requires
        0 <= j <= ls.len(),
        spec_json_inputs(base, ls.take(j)) is Err,
    ensures
        spec_json_inputs(base, ls) == spec_json_inputs(base, ls.take(j)),
    decreases ls.len() - j,
{
    if j < ls.len() {
        assert(ls.take(j + 1).drop_last() =~= ls.take(j));
        lemma_json_inputs_err(base, ls, j + 1);
    } else {
        assert(ls.take(j) =~= ls);
    }
}

/// Folds `key=value` pairs into the table, each value taken verbatim.
fn add_string_inputs(table: &mut Vec<JsonField>, inputs: &Vec<String>) -> (r: Result<
    (),
    InputError,
>)
    ensures
        match r {
            Ok(_) => Ok::<_, SpecInputError>(spec_json_obj(final(table)@)) == spec_string_inputs(
                spec_json_obj(old(table)@),
                inputs.deep_view(),
            ),
            Err(e) => Err::<Seq<(Seq<char>, SpecJson)>, _>(e.deep_view()) == spec_string_inputs(
                spec_json_obj(old(table)@),
                inputs.deep_view(),
            ),
        },
{
    let ghost base = spec_json_obj(old(table)@);
    let ghost gls = inputs.deep_view();
    proof {
        assert(gls.take(0) =~= Seq::<Seq<char>>::empty());
    }
    let n = inputs.len();
    for i in 0..n
        invariant
            n == inputs.len(),
            gls == inputs.deep_view(),
            gls.len() == n,
            base == spec_json_obj(old(table)@),
            spec_string_inputs(base, gls.take(i as int)) == Ok::<_, SpecInputError>(
                spec_json_obj(table@),
            ),
    {
        proof {
            assert(gls.take(i + 1).drop_last() =~= gls.take(i as int));
            assert(gls.take(i + 1).last() == gls[i as int]);
            assert(inputs@[i as int]@ == gls[i as int]);
        }
        match split_pair(inputs[i].as_str()) {
            None => {
                proof {
                    assert(spec_string_inputs(base, gls.take(i + 1)) == Err::<
                        Seq<(Seq<char>, SpecJson)>,
                        _,
                    >(SpecInputError::BadPair(gls[i as int])));
                    lemma_string_inputs_err(base, gls, i + 1);
                }
                return Err(InputError::BadPair(inputs[i].clone()));
            },
            Some(kv) => {
                let (k, value) = kv;
                table_set(table, k, JsonValue::Str(value));
                proof {
                    assert(spec_string_inputs(base, gls.take(i + 1)) == Ok::<_, SpecInputError>(
                        spec_json_obj(table@),
                    ));
                }
            },
        }
    }
    proof {
        assert(gls.take(n as int) =~= gls);
    }
    Ok(())
}

/// Folds `key=json` pairs into the table, each value read as JSON.
fn add_json_inputs(table: &mut Vec<JsonField>, inputs: &Vec<String>) -> (r: Result<
    (),
    InputError,
>)
    ensures
        match r {
            Ok(_) => Ok::<_, SpecInputError>(spec_json_obj(final(table)@)) == spec_json_inputs(
                spec_json_obj(old(table)@),
                inputs.deep_view(),
            ),
            Err(e) => Err::<Seq<(Seq<char>, SpecJson)>, _>(e.deep_view()) == spec_json_inputs(
                spec_json_obj(old(table)@),
                inputs.deep_view(),
            ),
        },
{
    let ghost base = spec_json_obj(old(table)@);
    let ghost gls = inputs.deep_view();
    proof {
        assert(gls.take(0) =~= Seq::<Seq<char>>::empty());
    }
    let n = inputs.len();
    for i in 0..n
        invariant
            n == inputs.len(),
            gls == inputs.deep_view(),
            gls.len() == n,
            base == spec_json_obj(old(table)@),
            spec_json_inputs(base, gls.take(i as int)) == Ok::<_, SpecInputError>(
                spec_json_obj(table@),
            ),
    {
        proof {
            assert(gls.take(i + 1).drop_last() =~= gls.take(i as int));
            assert(gls.take(i + 1).last() == gls[i as int]);
            assert(inputs@[i as int]@ == gls[i as int]);
        }
        match split_pair(inputs[i].as_str()) {
            None => {
                proof {
                    assert(spec_json_inputs(base, gls.take(i + 1)) == Err::<
                        Seq<(Seq<char>, SpecJson)>,
                        _,
                    >(SpecInputError::BadPair(gls[i as int])));
                    lemma_json_inputs_err(base, gls, i + 1);
                }
                return Err(InputError::BadPair(inputs[i].clone()));
            },
            Some(kv) => {
                let (k, value) = kv;
                let ghost gk = k@;
                match parse_json_text(value.as_str()) {
                    Err(e) => {
                        proof {
                            assert(spec_json_inputs(base, gls.take(i + 1)) == Err::<
                                Seq<(Seq<char>, SpecJson)>,
                                _,
                            >(SpecInputError::BadJson { key: gk, error: e.deep_view() }));
                            lemma_json_inputs_err(base, gls, i + 1);
                        }
                        return Err(InputError::BadJson { key: k, error: e });
                    },
                    Ok(v) => {
                        table_set(table, k, v);
                        proof {
                            assert(spec_json_inputs(base, gls.take(i + 1)) == Ok::<
                                _,
                                SpecInputError,
                            >(spec_json_obj(table@)));
                        }
                    },
                }
            },
        }
    }
    proof {
        assert(gls.take(n as int) =~= gls);
    }
    Ok(())
}

/// Reads `key=value` pairs into a fresh table, each value taken verbatim as
/// a string.
pub fn parse_string_inputs(inputs: &Vec<String>) -> (r: Result<Vec<JsonField>, InputError>)
    ensures
        match r {
            Ok(t) => Ok::<_, SpecInputError>(spec_json_obj(t@)) == spec_string_inputs(
                Seq::empty(),
                inputs.deep_view(),
            ),
            Err(e) => Err::<Seq<(Seq<char>, SpecJson)>, _>(e.deep_view()) == spec_string_inputs(
                Seq::empty(),
                inputs.deep_view(),
            ),
        },
{
    let mut table: Vec<JsonField> = Vec::new();
    proof {
        assert(spec_json_obj(table@) =~= Seq::<(Seq<char>, SpecJson)>::empty());
    }
    match add_string_inputs(&mut table, inputs) {
        Ok(_) => Ok(table),
        Err(e) => Err(e),
    }
}

/// Reads `key=json` pairs into a fresh table, each value read as JSON.
pub fn parse_json_inputs(inputs: &Vec<String>) -> (r: Result<Vec<JsonField>, InputError>)
    ensures
        match r {
            Ok(t) => Ok::<_, SpecInputError>(spec_json_obj(t@)) == spec_json_inputs(
                Seq::empty(),
                inputs.deep_view(),
            ),
            Err(e) => Err::<Seq<(Seq<char>, SpecJson)>, _>(e.deep_view()) == spec_json_inputs(
                Seq::empty(),
                inputs.deep_view(),
            ),
        },
{
    let mut table: Vec<JsonField> = Vec::new();
    proof {
        assert(spec_json_obj(table@) =~= Seq::<(Seq<char>, SpecJson)>::empty());
    }
    match add_json_inputs(&mut table, inputs) {
        Ok(_) => Ok(table),
        Err(e) => Err(e),
    }
}

/// Combines the sources into one table: string pairs land on the base, and
/// JSON pairs land on that, so a JSON pair overrides a string pair with the
/// same key, and both override the base.
pub fn combine_inputs(
    base: Option<Vec<JsonField>>,
    string_inputs: &Vec<String>,
    json_inputs: &Vec<String>,
) -> (r: Result<Vec<JsonField>, InputError>)
    ensures
        match r {
            Ok(t) => ({
                let b = match base {
                    Some(m) => spec_json_obj(m@),
                    None => Seq::empty(),
                };
                spec_string_inputs(b, string_inputs.deep_view()) is Ok && Ok::<
                    _,
                    SpecInputError,
                >(spec_json_obj(t@)) == spec_json_inputs(
                    spec_string_inputs(b, string_inputs.deep_view())->Ok_0,
                    json_inputs.deep_view(),
                )
            }),
            Err(e) => ({
                let b = match base {
                    Some(m) => spec_json_obj(m@),
                    None => Seq::empty(),
                };
                match spec_string_inputs(b, string_inputs.deep_view()) {
                    Err(se) => se == e.deep_view(),
                    Ok(t1) => spec_json_inputs(t1, json_inputs.deep_view()) == Err::<
                        Seq<(Seq<char>, SpecJson)>,
                        _,
                    >(e.deep_view()),
                }
            }),
        },
{
    let ghost b = match &base {
        Some(m) => spec_json_obj(m@),
        None => Seq::<(Seq<char>, SpecJson)>::empty(),
    };
    let mut table: Vec<JsonField> = match base {
        Some(m) => m,
        None => Vec::new(),
    };
    proof {
        assert(spec_json_obj(table@) =~= b);
    }
    match add_string_inputs(&mut table, string_inputs) {
        Ok(_) => {},
        Err(e) => return Err(e),
    }
    match add_json_inputs(&mut table, json_inputs) {
        Ok(_) => {},
        Err(e) => return Err(e),
    }
    Ok(table)
}

} // verus!
