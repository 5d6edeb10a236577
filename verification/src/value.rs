//! The structured wire value: a self-describing tagged union of null,
//! booleans, integers, strings, ordered lists and ordered key/value records,
//! together with its mathematical model and the payload normalizer.

use vstd::prelude::*;

verus! {

broadcast use vstd::std_specs::vec::group_vec_axioms, vstd::seq::group_seq_axioms;

/// Mathematical model of a structured wire value. Records keep their entries
/// in wire order; a key may occur more than once, in which case the last
/// occurrence wins on lookup (`spec_get`).
#[verifier::ext_equal]
pub enum SpecVal {
    Null,
    Bool(bool),
    Int(int),
    Str(Seq<char>),
    Arr(Seq<SpecVal>),
    Obj(Seq<(Seq<char>, SpecVal)>),
}

/// A structured wire value. Records are ordered lists of key/value pairs,
/// which keeps re-encoding faithful to what was decoded.
#[derive(Debug, PartialEq)]
pub enum Value {
    Null,
    Bool(bool),
    Int(i64),
    Str(String),
    Arr(Vec<Value>),
    Obj(Vec<(String, Value)>),
}

/// The model of an exec structured value.
pub open spec fn val_model(v: Value) -> SpecVal
    decreases v,
{
    match v {
        Value::Null => SpecVal::Null,
        Value::Bool(b) => SpecVal::Bool(b),
        Value::Int(n) => SpecVal::Int(n as int),
        Value::Str(s) => SpecVal::Str(s@),
        Value::Arr(_) => SpecVal::Arr(
            Seq::new(
                v->Arr_0@.len(),
                |i: int|
                    if 0 <= i < v->Arr_0@.len() {
                        val_model(v->Arr_0@[i])
                    } else {
                        SpecVal::Null
                    },
            ),
        ),
        Value::Obj(_) => SpecVal::Obj(
            Seq::new(
                v->Obj_0@.len(),
                |i: int|
                    if 0 <= i < v->Obj_0@.len() {
                        (v->Obj_0@[i].0@, val_model(v->Obj_0@[i].1))
                    } else {
                        (Seq::<char>::empty(), SpecVal::Null)
                    },
            ),
        ),
    }
}

impl View for Value {
    type V = SpecVal;

    open spec fn view(&self) -> SpecVal {
        val_model(*self)
    }
}

/// The model of a list of exec values.
pub open spec fn arr_model(items: Seq<Value>) -> Seq<SpecVal> {
    Seq::new(
        items.len(),
        |i: int|
            if 0 <= i < items.len() {
                val_model(items[i])
            } else {
                SpecVal::Null
            },
    )
}

/// The model of a record's entry list.
pub open spec fn obj_model(entries: Seq<(String, Value)>) -> Seq<(Seq<char>, SpecVal)> {
    Seq::new(
        entries.len(),
        |i: int|
            if 0 <= i < entries.len() {
                (entries[i].0@, val_model(entries[i].1))
            } else {
                (Seq::<char>::empty(), SpecVal::Null)
            },
    )
}

/// The model of a list of exec strings.
pub open spec fn strs_model(items: Seq<String>) -> Seq<Seq<char>> {
    Seq::new(items.len(), |i: int| items[i]@)
}

/// True of a list whose members are all strings.
pub open spec fn vals_all_strs(items: Seq<SpecVal>) -> bool {
    forall|i: int| 0 <= i < items.len() ==> (#[trigger] items[i]) is Str
}

/// The character sequences of a list of string values.
pub open spec fn vals_to_strs(items: Seq<SpecVal>) -> Seq<Seq<char>> {
    Seq::new(items.len(), |i: int| items[i]->Str_0)
}

/// String values for a list of character sequences.
pub open spec fn strs_to_vals(items: Seq<Seq<char>>) -> Seq<SpecVal> {
    Seq::new(items.len(), |i: int| SpecVal::Str(items[i]))
}

/// The model of an optional value (an absent or present payload field).
pub open spec fn opt_model(v: Option<Value>) -> Option<SpecVal> {
    match v {
        Option::None => Option::None,
        Option::Some(x) => Option::Some(x@),
    }
}

/// True of a record with no entries.
pub open spec fn spec_is_empty_obj(v: SpecVal) -> bool {
    match v {
        SpecVal::Obj(entries) => entries.len() == 0,
        _ => false,
    }
}

/// What the normalizer returns: an absent field or an empty record collapses
/// to `None`; every other value passes through unchanged.
pub open spec fn spec_normalize(v: Option<SpecVal>) -> Option<SpecVal> {
    match v {
        Option::None => Option::None,
        Option::Some(x) => if spec_is_empty_obj(x) {
            Option::None
        } else {
            Option::Some(x)
        },
    }
}

/// Record lookup, later entries taking precedence.
pub open spec fn spec_get(entries: Seq<(Seq<char>, SpecVal)>, key: Seq<char>) -> Option<SpecVal>
    decreases entries.len(),
{
    if entries.len() == 0 {
        Option::None
    } else if entries.last().0 == key {
        Option::Some(entries.last().1)
    } else {
        spec_get(entries.drop_last(), key)
    }
}

/// Appending an entry under a different key does not change a lookup.
pub broadcast proof fn lemma_get_push_other(
    entries: Seq<(Seq<char>, SpecVal)>,
    entry: (Seq<char>, SpecVal),
    key: Seq<char>,
)
    requires
        entry.0 != key,
    ensures
        #[trigger] spec_get(entries.push(entry), key) == spec_get(entries, key),
{
    assert(entries.push(entry).drop_last() =~= entries);
}

/// Appending an entry makes its key look up to its value.
pub broadcast proof fn lemma_get_push_same(
    entries: Seq<(Seq<char>, SpecVal)>,
    entry: (Seq<char>, SpecVal),
)
    ensures
        #[trigger] spec_get(entries.push(entry), entry.0) == Option::Some(entry.1),
{
}

/// A lookup in a concatenation tries the right part first.
pub broadcast proof fn lemma_get_concat(
    left: Seq<(Seq<char>, SpecVal)>,
    right: Seq<(Seq<char>, SpecVal)>,
    key: Seq<char>,
)
    ensures
        #[trigger] spec_get(left + right, key) == match spec_get(right, key) {
            Option::Some(v) => Option::Some(v),
            Option::None => spec_get(left, key),
        },
    decreases right.len(),
{
    if right.len() == 0 {
        assert(left + right =~= left);
    } else {
        assert((left + right).drop_last() =~= left + right.drop_last());
        lemma_get_concat(left, right.drop_last(), key);
    }
}

/// Appends an entry for a present optional field; an absent field adds
/// nothing.
pub open spec fn push_opt(
    entries: Seq<(Seq<char>, SpecVal)>,
    key: Seq<char>,
    v: Option<SpecVal>,
) -> Seq<(Seq<char>, SpecVal)> {
    match v {
        Option::Some(x) => entries.push((key, x)),
        Option::None => entries,
    }
}

/// What a lookup sees through an optional append: the appended value under
/// its own key, and otherwise whatever was there before.
pub broadcast proof fn lemma_get_push_opt(
    entries: Seq<(Seq<char>, SpecVal)>,
    key: Seq<char>,
    v: Option<SpecVal>,
    k: Seq<char>,
)
    ensures
        #[trigger] spec_get(push_opt(entries, key, v), k) == (if k == key && v is Some {
            v
        } else {
            spec_get(entries, k)
        }),
{
    match v {
        Option::Some(x) => {
            if k == key {
                lemma_get_push_same(entries, (key, x));
            } else {
                lemma_get_push_other(entries, (key, x), k);
            }
        },
        Option::None => {},
    }
}

/// The model of a built list is the model of its items.
pub broadcast proof fn lemma_val_model_arr(items: Vec<Value>)
    ensures
        #[trigger] val_model(Value::Arr(items)) == SpecVal::Arr(arr_model(items@)),
{
    assert(val_model(Value::Arr(items))->Arr_0 =~= arr_model(items@));
}

/// The model of a built record is the model of its entries.
pub broadcast proof fn lemma_val_model_obj(entries: Vec<(String, Value)>)
    ensures
        #[trigger] val_model(Value::Obj(entries)) == SpecVal::Obj(obj_model(entries@)),
{
    assert(val_model(Value::Obj(entries))->Obj_0 =~= obj_model(entries@));
}

/// Pushing an exec entry pushes its model.
pub broadcast proof fn lemma_obj_model_push(entries: Seq<(String, Value)>, entry: (String, Value))
    ensures
        #[trigger] obj_model(entries.push(entry)) == obj_model(entries).push(
            (entry.0@, val_model(entry.1)),
        ),
{
    assert(obj_model(entries.push(entry)) =~= obj_model(entries).push(
        (entry.0@, val_model(entry.1)),
    ));
}

/// String equality over the character sequences.
pub fn str_eq(a: &str, b: &str) -> (r: bool)
    ensures
        r == (a@ == b@),
{
    let sa: String = a.to_owned();
    let sb: String = b.to_owned();
    sa.eq(&sb)
}

/// True exactly of a record with no entries.
pub fn is_empty_object(v: &Value) -> (r: bool)
    ensures
        r == spec_is_empty_obj(v@),
{
    match v {
        Value::Obj(entries) => entries.len() == 0,
        _ => false,
    }
}

/// Collapses an absent or empty-record payload field to `None`; any other
/// value (record with entries, list, scalar, null) passes through unchanged.
pub fn normalize(v: Option<Value>) -> (r: Option<Value>)
    ensures
        opt_model(r) == spec_normalize(opt_model(v)),
        r is Some ==> r == v,
{
    match v {
        Option::None => Option::None,
        Option::Some(x) => {
            if is_empty_object(&x) {
                Option::None
            } else {
                Option::Some(x)
            }
        },
    }
}

/// Record lookup on exec values, later entries taking precedence.
pub fn get_field<'a>(entries: &'a Vec<(String, Value)>, key: &str) -> (r: Option<&'a Value>)
    ensures
        match r {
            Option::Some(val) => spec_get(obj_model(entries@), key@) == Option::Some(val@),
            Option::None => spec_get(obj_model(entries@), key@) is None,
        },
{
    proof {
        assert(obj_model(entries@).subrange(0, entries@.len() as int) =~= obj_model(entries@));
    }
    let mut i: usize = entries.len();
    while i > 0
        invariant
            i <= entries@.len(),
            spec_get(obj_model(entries@), key@) == spec_get(
                obj_model(entries@).subrange(0, i as int),
                key@,
            ),
        decreases i,
    {
        if str_eq(entries[i - 1].0.as_str(), key) {
            proof {
                assert(obj_model(entries@).subrange(0, i as int).last() == (
                    entries@[i - 1].0@,
                    val_model(entries@[i - 1].1),
                ));
            }
            return Option::Some(&entries[i - 1].1);
        }
        proof {
            assert(obj_model(entries@).subrange(0, i as int).drop_last() =~= obj_model(
                entries@,
            ).subrange(0, i as int - 1));
        }
        i = i - 1;
    }
    proof {
        assert(obj_model(entries@).subrange(0, 0) =~= Seq::<(Seq<char>, SpecVal)>::empty());
    }
    Option::None
}

/// A copy of a structured value with the same model.
pub fn dup(v: &Value) -> (r: Value)
    ensures
        r@ == v@,
    decreases *v,
{
    match v {
        Value::Null => Value::Null,
        Value::Bool(b) => Value::Bool(*b),
        Value::Int(n) => Value::Int(*n),
        Value::Str(s) => Value::Str(s.as_str().to_owned()),
        Value::Arr(items) => {
            let mut out: Vec<Value> = Vec::new();
            let mut i: usize = 0;
            while i < items.len()
                invariant
                    *v == Value::Arr(*items),
                    i <= items@.len(),
                    out@.len() == i,
                    forall|j: int| 0 <= j < i ==> val_model(#[trigger] out@[j]) == val_model(
                        items@[j],
                    ),
                decreases items@.len() - i,
            {
                proof {
                    assert(*v == Value::Arr(*items));
                    assert(decreases_to!(*v => (*v)->Arr_0));
                    assert(decreases_to!((*v)->Arr_0 => (*v)->Arr_0[i as int]));
                    assert(decreases_to!(*v => (*v)->Arr_0[i as int]));
                }
                let d = dup(&items[i]);
                out.push(d);
                i = i + 1;
            }
            proof {
                assert(*v == Value::Arr(*items));
                assert(val_model(Value::Arr(out))->Arr_0 =~= arr_model(out@));
                assert(val_model(*v)->Arr_0 =~= arr_model(items@));
                assert(arr_model(out@) =~= arr_model(items@));
                assert(val_model(Value::Arr(out)) == val_model(*v));
            }
            Value::Arr(out)
        },
        Value::Obj(entries) => {
            let mut out: Vec<(String, Value)> = Vec::new();
            let mut i: usize = 0;
            while i < entries.len()
                invariant
                    *v == Value::Obj(*entries),
                    i <= entries@.len(),
                    out@.len() == i,
                    forall|j: int| 0 <= j < i ==> (#[trigger] out@[j]).0@ == entries@[j].0@
                        && val_model(out@[j].1) == val_model(entries@[j].1),
                decreases entries@.len() - i,
            {
                proof {
                    assert(*v == Value::Obj(*entries));
                    assert(decreases_to!(*v => (*v)->Obj_0));
                    assert(decreases_to!((*v)->Obj_0 => (*v)->Obj_0[i as int]));
                    assert(decreases_to!((*v)->Obj_0[i as int] => (*v)->Obj_0[i as int].1));
                    assert(decreases_to!(*v => (*v)->Obj_0[i as int].1));
                }
                let k = entries[i].0.as_str().to_owned();
                let d = dup(&entries[i].1);
                out.push((k, d));
                i = i + 1;
            }
            proof {
                assert(*v == Value::Obj(*entries));
                assert(val_model(Value::Obj(out))->Obj_0 =~= obj_model(out@));
                assert(val_model(*v)->Obj_0 =~= obj_model(entries@));
                assert(obj_model(out@) =~= obj_model(entries@));
                assert(val_model(Value::Obj(out)) == val_model(*v));
            }
            Value::Obj(out)
        },
    }
}

/// A copy of a list of values with the same model.
pub fn dup_items(items: &Vec<Value>) -> (r: Vec<Value>)
    ensures
        arr_model(r@) == arr_model(items@),
{
    let mut out: Vec<Value> = Vec::new();
    let mut i: usize = 0;
    while i < items.len()
        invariant
            i <= items@.len(),
            out@.len() == i,
            forall|j: int| 0 <= j < i ==> val_model(#[trigger] out@[j]) == val_model(items@[j]),
        decreases items@.len() - i,
    {
        let d = dup(&items[i]);
        out.push(d);
        i = i + 1;
    }
    proof {
        assert(arr_model(out@) =~= arr_model(items@));
    }
    out
}

/// A copy of a list of strings with the same model.
pub fn dup_strs(items: &Vec<String>) -> (r: Vec<String>)
    ensures
        strs_model(r@) == strs_model(items@),
{
    let mut out: Vec<String> = Vec::new();
    let mut i: usize = 0;
    while i < items.len()
        invariant
            i <= items@.len(),
            out@.len() == i,
            forall|j: int| 0 <= j < i ==> (#[trigger] out@[j])@ == items@[j]@,
        decreases items@.len() - i,
    {
        let d = items[i].as_str().to_owned();
        out.push(d);
        i = i + 1;
    }
    proof {
        assert(strs_model(out@) =~= strs_model(items@));
    }
    out
}

/// The model of concatenated entry lists is the concatenation of models.
pub broadcast proof fn lemma_obj_model_concat(a: Seq<(String, Value)>, b: Seq<(String, Value)>)
    ensures
        #[trigger] obj_model(a + b) == obj_model(a) + obj_model(b),
{
    assert(obj_model(a + b) =~= obj_model(a) + obj_model(b));
}

} // verus!

