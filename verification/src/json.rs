//! A generic JSON tree model.
//!
//! Raw wire data is held as a [`JsonValue`]: a tagged union of the six JSON
//! shapes. Objects keep their fields as an ordered list of key/value pairs and
//! numbers keep their decimal text, so a tree survives a round trip unchanged.
//! The mathematical model of a tree is a [`SpecJson`], reached through
//! [`spec_json_of`] or `deep_view()`.

use vstd::prelude::*;

verus! {

/// One field of a JSON object: a key and the value stored under it.
#[derive(Debug, PartialEq)]
pub struct JsonField {
    pub key: String,
    pub value: JsonValue,
}

/// One JSON value: null, boolean, number, string, array or object.
///
/// A number is carried as its decimal text; the parts of the model that need
/// an integer read the text back. An object is an ordered list of fields.
#[derive(Debug, PartialEq)]
pub enum JsonValue {
    Null,
    Bool(bool),
    Num(String),
    Str(String),
    Arr(Vec<JsonValue>),
    Obj(Vec<JsonField>),
}

/// The mathematical model of a [`JsonValue`].
#[verifier::ext_equal]
pub enum SpecJson {
    Null,
    Bool(bool),
    Num(Seq<char>),
    Str(Seq<char>),
    Arr(Seq<SpecJson>),
    Obj(Seq<(Seq<char>, SpecJson)>),
}

/// The model of a JSON tree.
pub open spec fn spec_json_of(v: JsonValue) -> SpecJson
    decreases v,
    via spec_json_of_decreases
{
    match v {
        JsonValue::Null => SpecJson::Null,
        JsonValue::Bool(b) => SpecJson::Bool(b),
        JsonValue::Num(t) => SpecJson::Num(t@),
        JsonValue::Str(s) => SpecJson::Str(s@),
        JsonValue::Arr(xs) => SpecJson::Arr(spec_json_arr(xs@)),
        JsonValue::Obj(fs) => SpecJson::Obj(spec_json_obj(fs@)),
    }
}

/// The models of an array's elements, in order.
pub open spec fn spec_json_arr(s: Seq<JsonValue>) -> Seq<SpecJson>
    decreases s,
    via spec_json_arr_decreases
{
    if s.len() == 0 {
        Seq::empty()
    } else {
        seq![spec_json_of(s[0])] + spec_json_arr(s.drop_first())
    }
}

/// The models of an object's fields, in order.
pub open spec fn spec_json_obj(fs: Seq<JsonField>) -> Seq<(Seq<char>, SpecJson)>
    decreases fs,
    via spec_json_obj_decreases
{
    if fs.len() == 0 {
        Seq::empty()
    } else {
        seq![(fs[0].key@, spec_json_of(fs[0].value))] + spec_json_obj(fs.drop_first())
    }
}

#[via_fn]
proof fn spec_json_of_decreases(v: JsonValue) {
    match v {
        JsonValue::Arr(xs) => {
            assert(decreases_to!(v => xs));
            assert(decreases_to!(xs => xs@));
        },
        JsonValue::Obj(fs) => {
            assert(decreases_to!(v => fs));
            assert(decreases_to!(fs => fs@));
        },
        _ => {},
    }
}

#[via_fn]
proof fn spec_json_arr_decreases(s: Seq<JsonValue>) {
    if s.len() != 0 {
        assert(decreases_to!(s => s[0]));
        assert(decreases_to!(s => s.drop_first()));
    }
}

#[via_fn]
proof fn spec_json_obj_decreases(fs: Seq<JsonField>) {
    if fs.len() != 0 {
        assert(decreases_to!(fs => fs[0]));
        assert(decreases_to!(fs => fs[0].value));
        assert(decreases_to!(fs => fs.drop_first()));
    }
}

impl DeepView for JsonValue {
    type V = SpecJson;

    open spec fn deep_view(&self) -> SpecJson {
        spec_json_of(*self)
    }
}

impl DeepView for JsonField {
    type V = (Seq<char>, SpecJson);

    open spec fn deep_view(&self) -> (Seq<char>, SpecJson) {
        (self.key@, spec_json_of(self.value))
    }
}

/// Length of `spec_json_arr` equals the array's length, and elements line up.
pub proof fn lemma_spec_json_arr(s: Seq<JsonValue>)
    ensures
        spec_json_arr(s).len() == s.len(),
        forall|i: int| 0 <= i < s.len() ==> spec_json_arr(s)[i] == spec_json_of(s[i]),
    decreases s.len(),
{
    if s.len() != 0 {
        lemma_spec_json_arr(s.drop_first());
    }
}

/// Length of `spec_json_obj` equals the field list's length, and fields line up.
pub proof fn lemma_spec_json_obj(fs: Seq<JsonField>)
    ensures
        spec_json_obj(fs).len() == fs.len(),
        forall|i: int| 0 <= i < fs.len() ==> spec_json_obj(fs)[i] == (
            fs[i].key@,
            spec_json_of(fs[i].value),
        ),
    decreases fs.len(),
{
    if fs.len() != 0 {
        lemma_spec_json_obj(fs.drop_first());
    }
}

impl Clone for JsonField {
    /// A clone is a deep copy: the models agree.
    fn clone(&self) -> (r: Self)
        ensures
            r.deep_view() == self.deep_view(),
    {
        JsonField { key: self.key.clone(), value: self.value.clone() }
    }
}

impl Clone for JsonValue {
    /// A clone is a deep copy: the models agree.
    fn clone(&self) -> (r: Self)
        ensures
            r.deep_view() == self.deep_view(),
        decreases self,
    {
        match self {
            JsonValue::Null => JsonValue::Null,
            JsonValue::Bool(b) => JsonValue::Bool(*b),
            JsonValue::Num(t) => JsonValue::Num(t.clone()),
            JsonValue::Str(s) => JsonValue::Str(s.clone()),
            JsonValue::Arr(xs) => {
                proof {
                    assert(decreases_to!(*self => *xs));
                    assert(decreases_to!(*xs => xs@));
                }
                let mut out: Vec<JsonValue> = Vec::new();
                let n = xs.len();
                for i in 0..n
                    invariant
                        n == xs.len(),
                        out.len() == i,
                        decreases_to!(*self => xs@),
                        forall|j: int| 0 <= j < i ==> out@[j].deep_view() == xs@[j].deep_view(),
                    decreases n - i,
                {
                    proof {
                        assert(decreases_to!(xs@ => xs@[i as int]));
                    }
                    out.push(xs[i].clone());
                }
                proof {
                    lemma_spec_json_arr(out@);
                    lemma_spec_json_arr(xs@);
                    assert(spec_json_arr(out@) =~= spec_json_arr(xs@));
                }
                JsonValue::Arr(out)
            },
            JsonValue::Obj(fs) => {
                proof {
                    assert(decreases_to!(*self => *fs));
                    assert(decreases_to!(*fs => fs@));
                }
                let mut out: Vec<JsonField> = Vec::new();
                let n = fs.len();
                for i in 0..n
                    invariant
                        n == fs.len(),
                        out.len() == i,
                        decreases_to!(*self => fs@),
                        forall|j: int| 0 <= j < i ==> out@[j].key@ == fs@[j].key@
                            && out@[j].value.deep_view() == fs@[j].value.deep_view(),
                    decreases n - i,
                {
                    proof {
                        assert(decreases_to!(fs@ => fs@[i as int]));
                        assert(decreases_to!(fs@[i as int] => fs@[i as int].value));
                    }
                    out.push(JsonField {
                        key: fs[i].key.clone(),
                        value: fs[i].value.clone(),
                    });
                }
                proof {
                    lemma_spec_json_obj(out@);
                    lemma_spec_json_obj(fs@);
                    assert(spec_json_obj(out@) =~= spec_json_obj(fs@));
                }
                JsonValue::Obj(out)
            },
        }
    }
}

/// Whether looking any key of any object in the tree up yields the value
/// stored beside it. Trees read off the wire always are: a JSON object's
/// keys are unique. A hand-built tree that shadows a key with a different
/// value is not.
pub open spec fn json_self_consistent(v: SpecJson) -> bool
    decreases v, 0int,
    via json_self_consistent_decreases
{
    match v {
        SpecJson::Obj(fs) => (forall|i: int|
            0 <= i < fs.len() ==> obj_get(fs, fs[i].0) == Some(fs[i].1))
            && json_fields_consistent(fs),
        SpecJson::Arr(xs) => json_elems_consistent(xs),
        _ => true,
    }
}

/// Every value in the field list is itself self-consistent.
pub open spec fn json_fields_consistent(fs: Seq<(Seq<char>, SpecJson)>) -> bool
    decreases fs, 1int,
    via json_fields_consistent_decreases
{
    fs.len() == 0 || (json_self_consistent(fs[0].1) && json_fields_consistent(fs.drop_first()))
}

/// Every element of the list is self-consistent.
pub open spec fn json_elems_consistent(xs: Seq<SpecJson>) -> bool
    decreases xs, 1int,
    via json_elems_consistent_decreases
{
    xs.len() == 0 || (json_self_consistent(xs[0]) && json_elems_consistent(xs.drop_first()))
}

#[via_fn]
proof fn json_self_consistent_decreases(v: SpecJson) {
    match v {
        SpecJson::Obj(fs) => {
            assert(decreases_to!(v => fs));
        },
        SpecJson::Arr(xs) => {
            assert(decreases_to!(v => xs));
        },
        _ => {},
    }
}

#[via_fn]
proof fn json_fields_consistent_decreases(fs: Seq<(Seq<char>, SpecJson)>) {
    if fs.len() != 0 {
        assert(decreases_to!(fs => fs[0]));
        assert(decreases_to!(fs => fs[0].1));
        assert(decreases_to!(fs => fs.drop_first()));
    }
}

#[via_fn]
proof fn json_elems_consistent_decreases(xs: Seq<SpecJson>) {
    if xs.len() != 0 {
        assert(decreases_to!(xs => xs[0]));
        assert(decreases_to!(xs => xs.drop_first()));
    }
}

/// The value stored under key `k`, searching the fields in order./// The value stored under key `k`, searching the fields in order.
pub open spec fn obj_get(fs: Seq<(Seq<char>, SpecJson)>, k: Seq<char>) -> Option<SpecJson>
    decreases fs.len(),
{
    if fs.len() == 0 {
        None
    } else if fs[0].0 == k {
        Some(fs[0].1)
    } else {
        obj_get(fs.drop_first(), k)
    }
}

/// A key whose first occurrence stands at `p` looks up to the value there.
pub proof fn lemma_obj_get_at(fs: Seq<(Seq<char>, SpecJson)>, k: Seq<char>, p: int)
    requires
        0 <= p < fs.len(),
        forall|j: int| 0 <= j < p ==> fs[j].0 != k,
        fs[p].0 == k,
    ensures
        obj_get(fs, k) == Some(fs[p].1),
    decreases p,
{
    if p > 0 {
        assert(forall|j: int| 0 <= j < p - 1 ==> fs.drop_first()[j] == fs[j + 1]);
        lemma_obj_get_at(fs.drop_first(), k, p - 1);
    }
}

/// A key that stands nowhere in the field list looks up to nothing.
pub proof fn lemma_obj_get_absent(fs: Seq<(Seq<char>, SpecJson)>, k: Seq<char>)
    requires
        forall|j: int| 0 <= j < fs.len() ==> fs[j].0 != k,
    ensures
        obj_get(fs, k) is None,
    decreases fs.len(),
{
    if fs.len() > 0 {
        assert(forall|j: int| 0 <= j < fs.len() - 1 ==> fs.drop_first()[j] == fs[j + 1]);
        lemma_obj_get_absent(fs.drop_first(), k);
    }
}

/// Looking a key up in a concatenation searches the left part first.
pub proof fn lemma_obj_get_append(
    a: Seq<(Seq<char>, SpecJson)>,
    b: Seq<(Seq<char>, SpecJson)>,
    k: Seq<char>,
)
    ensures
        obj_get(a + b, k) == (match obj_get(a, k) {
            Some(v) => Some(v),
            None => obj_get(b, k),
        }),
    decreases a.len(),
{
    if a.len() == 0 {
        assert(a + b =~= b);
    } else {
        assert((a + b)[0] == a[0]);
        assert((a + b).drop_first() =~= a.drop_first() + b);
        lemma_obj_get_append(a.drop_first(), b, k);
    }
}

/// Looks a key up in an object's field list, returning the first match.
pub fn lookup<'a>(fs: &'a Vec<JsonField>, k: &str) -> (r: Option<&'a JsonValue>)
    ensures
        match r {
            Some(v) => obj_get(spec_json_obj(fs@), k@) == Some(v.deep_view()),
            None => obj_get(spec_json_obj(fs@), k@) is None,
        },
{
    let ghost gfs = spec_json_obj(fs@);
    proof {
        lemma_spec_json_obj(fs@);
        assert(gfs.skip(0) =~= gfs);
    }
    let n = fs.len();
    for i in 0..n
        invariant
            n == fs.len(),
            gfs == spec_json_obj(fs@),
            gfs.len() == n,
            forall|j: int| 0 <= j < gfs.len() ==> gfs[j] == (fs@[j].key@, spec_json_of(fs@[j].value)),
            obj_get(gfs, k@) == obj_get(gfs.skip(i as int), k@),
    {
        proof {
            assert(gfs.skip(i as int)[0] == gfs[i as int]);
        }
        if str_eq(fs[i].key.as_str(), k) {
            proof {
                assert(obj_get(gfs.skip(i as int), k@) == Some(gfs[i as int].1));
            }
            return Some(&fs[i].value);
        }
        proof {
            assert(gfs.skip(i as int).drop_first() =~= gfs.skip(i + 1));
        }
    }
    proof {
        assert(gfs.skip(n as int) =~= Seq::<(Seq<char>, SpecJson)>::empty());
    }
    None
}

/// Character-for-character string comparison.
pub fn str_eq(a: &str, b: &str) -> (r: bool)
    ensures
        r == (a@ == b@),
{
    let an = a.unicode_len();
    let bn = b.unicode_len();
    if an != bn {
        assert(a@ != b@) by {
            assert(a@.len() != b@.len());
        }
        return false;
    }
    for i in 0..an
        invariant
            an == a@.len(),
            an == b@.len(),
            forall|j: int| 0 <= j < i ==> a@[j] == b@[j],
    {
        if a.get_char(i) != b.get_char(i) {
            return false;
        }
    }
    proof {
        assert(a@ =~= b@);
    }
    true
}

} // verus!
