//! Reading single fields out of a key/value record, with the shape checks
//! that the typed decoders build on.

use vstd::prelude::*;

use crate::error::{FieldErrV, FieldError};
use crate::value::{
    arr_model, dup, dup_items, get_field, obj_model, opt_model, push_opt, spec_get, strs_model,
    val_model, vals_all_strs, vals_to_strs, SpecVal, Value,
};

verus! {

broadcast use vstd::std_specs::vec::group_vec_axioms, vstd::seq::group_seq_axioms;

/// What reading an optional boolean field yields.
pub open spec fn spec_read_bool(entries: Seq<(Seq<char>, SpecVal)>, key: Seq<char>) -> Result<
    Option<bool>,
    FieldErrV,
> {
    match spec_get(entries, key) {
        Option::None => Result::Ok(Option::None),
        Option::Some(SpecVal::Bool(b)) => Result::Ok(Option::Some(b)),
        Option::Some(_) => Result::Err(FieldErrV::Wrong(key)),
    }
}

/// What reading an optional list field yields, the members kept raw.
pub open spec fn spec_read_arr(entries: Seq<(Seq<char>, SpecVal)>, key: Seq<char>) -> Result<
    Option<Seq<SpecVal>>,
    FieldErrV,
> {
    match spec_get(entries, key) {
        Option::None => Result::Ok(Option::None),
        Option::Some(SpecVal::Arr(items)) => Result::Ok(Option::Some(items)),
        Option::Some(_) => Result::Err(FieldErrV::Wrong(key)),
    }
}

/// What reading an optional list-of-strings field yields.
pub open spec fn spec_read_strs(entries: Seq<(Seq<char>, SpecVal)>, key: Seq<char>) -> Result<
    Option<Seq<Seq<char>>>,
    FieldErrV,
> {
    match spec_get(entries, key) {
        Option::None => Result::Ok(Option::None),
        Option::Some(SpecVal::Arr(items)) => if vals_all_strs(items) {
            Result::Ok(Option::Some(vals_to_strs(items)))
        } else {
            Result::Err(FieldErrV::Wrong(key))
        },
        Option::Some(_) => Result::Err(FieldErrV::Wrong(key)),
    }
}

/// What reading a required string field yields.
pub open spec fn spec_read_string(entries: Seq<(Seq<char>, SpecVal)>, key: Seq<char>) -> Result<
    Seq<char>,
    FieldErrV,
> {
    match spec_get(entries, key) {
        Option::None => Result::Err(FieldErrV::Missing(key)),
        Option::Some(SpecVal::Str(s)) => Result::Ok(s),
        Option::Some(_) => Result::Err(FieldErrV::Wrong(key)),
    }
}

/// What reading a required integer field yields.
pub open spec fn spec_read_int(entries: Seq<(Seq<char>, SpecVal)>, key: Seq<char>) -> Result<
    int,
    FieldErrV,
> {
    match spec_get(entries, key) {
        Option::None => Result::Err(FieldErrV::Missing(key)),
        Option::Some(SpecVal::Int(n)) => Result::Ok(n),
        Option::Some(_) => Result::Err(FieldErrV::Wrong(key)),
    }
}

/// What reading an optional integer field yields.
pub open spec fn spec_read_opt_int(entries: Seq<(Seq<char>, SpecVal)>, key: Seq<char>) -> Result<
    Option<int>,
    FieldErrV,
> {
    match spec_get(entries, key) {
        Option::None => Result::Ok(Option::None),
        Option::Some(SpecVal::Int(n)) => Result::Ok(Option::Some(n)),
        Option::Some(_) => Result::Err(FieldErrV::Wrong(key)),
    }
}

/// What reading a required non-negative integer field yields.
pub open spec fn spec_read_u64(entries: Seq<(Seq<char>, SpecVal)>, key: Seq<char>) -> Result<
    int,
    FieldErrV,
> {
    match spec_get(entries, key) {
        Option::None => Result::Err(FieldErrV::Missing(key)),
        Option::Some(SpecVal::Int(n)) => if 0 <= n {
            Result::Ok(n)
        } else {
            Result::Err(FieldErrV::Wrong(key))
        },
        Option::Some(_) => Result::Err(FieldErrV::Wrong(key)),
    }
}

/// What reading a required raw field yields.
pub open spec fn spec_read_val(entries: Seq<(Seq<char>, SpecVal)>, key: Seq<char>) -> Result<
    SpecVal,
    FieldErrV,
> {
    match spec_get(entries, key) {
        Option::None => Result::Err(FieldErrV::Missing(key)),
        Option::Some(v) => Result::Ok(v),
    }
}

/// Reads an optional boolean field.
pub fn read_bool_field(entries: &Vec<(String, Value)>, key: &str) -> (r: Result<
    Option<bool>,
    FieldError,
>)
    ensures
        match r {
            Result::Ok(v) => spec_read_bool(obj_model(entries@), key@) == Result::<
                Option<bool>,
                FieldErrV,
            >::Ok(v),
            Result::Err(e) => spec_read_bool(obj_model(entries@), key@) == Result::<
                Option<bool>,
                FieldErrV,
            >::Err(e@),
        },
{
    match get_field(entries, key) {
        Option::None => Result::Ok(Option::None),
        Option::Some(Value::Bool(b)) => Result::Ok(Option::Some(*b)),
        Option::Some(_) => Result::Err(FieldError::Wrong(key.to_owned())),
    }
}

/// Reads an optional list field, keeping the members raw.
pub fn read_arr_field(entries: &Vec<(String, Value)>, key: &str) -> (r: Result<
    Option<Vec<Value>>,
    FieldError,
>)
    ensures
        match r {
            Result::Ok(Option::None) => spec_read_arr(obj_model(entries@), key@) == Result::<
                Option<Seq<SpecVal>>,
                FieldErrV,
            >::Ok(Option::None),
            Result::Ok(Option::Some(xs)) => spec_read_arr(obj_model(entries@), key@) == Result::<
                Option<Seq<SpecVal>>,
                FieldErrV,
            >::Ok(Option::Some(arr_model(xs@))),
            Result::Err(e) => spec_read_arr(obj_model(entries@), key@) == Result::<
                Option<Seq<SpecVal>>,
                FieldErrV,
            >::Err(e@),
        },
{
    match get_field(entries, key) {
        Option::None => Result::Ok(Option::None),
        Option::Some(found) => match found {
            Value::Arr(items) => {
                proof {
                    assert(val_model(*found)->Arr_0 =~= arr_model(items@));
                }
                let copied = dup_items(items);
                Result::Ok(Option::Some(copied))
            },
            _ => Result::Err(FieldError::Wrong(key.to_owned())),
        },
    }
}

/// Reads an optional list-of-strings field.
pub fn read_strs_field(entries: &Vec<(String, Value)>, key: &str) -> (r: Result<
    Option<Vec<String>>,
    FieldError,
>)
    ensures
        match r {
            Result::Ok(Option::None) => spec_read_strs(obj_model(entries@), key@) == Result::<
                Option<Seq<Seq<char>>>,
                FieldErrV,
            >::Ok(Option::None),
            Result::Ok(Option::Some(xs)) => spec_read_strs(obj_model(entries@), key@) == Result::<
                Option<Seq<Seq<char>>>,
                FieldErrV,
            >::Ok(Option::Some(strs_model(xs@))),
            Result::Err(e) => spec_read_strs(obj_model(entries@), key@) == Result::<
                Option<Seq<Seq<char>>>,
                FieldErrV,
            >::Err(e@),
        },
{
    match get_field(entries, key) {
        Option::None => Result::Ok(Option::None),
        Option::Some(found) => match found {
            Value::Arr(items) => {
            proof {
                assert(val_model(*found)->Arr_0 =~= arr_model(items@));
            }
            let mut out: Vec<String> = Vec::new();
            let mut i: usize = 0;
            while i < items.len()
                invariant
                    val_model(*found)->Arr_0 == arr_model(items@),
                    spec_get(obj_model(entries@), key@) == Option::Some(val_model(*found)),
                    *found is Arr,
                    i <= items@.len(),
                    out@.len() == i,
                    forall|j: int|
                        0 <= j < i ==> (#[trigger] arr_model(items@)[j]) is Str && out@[j]@
                            == arr_model(items@)[j]->Str_0,
                decreases items@.len() - i,
            {
                match &items[i] {
                    Value::Str(s) => {
                        let d = s.as_str().to_owned();
                        out.push(d);
                    },
                    _ => {
                        proof {
                            assert(!((arr_model(items@)[i as int]) is Str));
                        }
                        return Result::Err(FieldError::Wrong(key.to_owned()));
                    },
                }
                i = i + 1;
            }
            proof {
                assert(vals_all_strs(arr_model(items@)));
                assert(strs_model(out@) =~= vals_to_strs(arr_model(items@)));
                assert(vals_to_strs(val_model(*found)->Arr_0) =~= vals_to_strs(
                    arr_model(items@),
                ));
            }
            Result::Ok(Option::Some(out))
            },
            _ => Result::Err(FieldError::Wrong(key.to_owned())),
        },
    }
}

/// Reads a required string field.
pub fn read_string_field(entries: &Vec<(String, Value)>, key: &str) -> (r: Result<
    String,
    FieldError,
>)
    ensures
        match r {
            Result::Ok(s) => spec_read_string(obj_model(entries@), key@) == Result::<
                Seq<char>,
                FieldErrV,
            >::Ok(s@),
            Result::Err(e) => spec_read_string(obj_model(entries@), key@) == Result::<
                Seq<char>,
                FieldErrV,
            >::Err(e@),
        },
{
    match get_field(entries, key) {
        Option::None => Result::Err(FieldError::Missing(key.to_owned())),
        Option::Some(Value::Str(s)) => Result::Ok(s.as_str().to_owned()),
        Option::Some(_) => Result::Err(FieldError::Wrong(key.to_owned())),
    }
}

/// Reads a required integer field.
pub fn read_int_field(entries: &Vec<(String, Value)>, key: &str) -> (r: Result<i64, FieldError>)
    ensures
        match r {
            Result::Ok(n) => spec_read_int(obj_model(entries@), key@) == Result::<
                int,
                FieldErrV,
            >::Ok(n as int),
            Result::Err(e) => spec_read_int(obj_model(entries@), key@) == Result::<
                int,
                FieldErrV,
            >::Err(e@),
        },
{
    match get_field(entries, key) {
        Option::None => Result::Err(FieldError::Missing(key.to_owned())),
        Option::Some(Value::Int(n)) => Result::Ok(*n),
        Option::Some(_) => Result::Err(FieldError::Wrong(key.to_owned())),
    }
}

/// Reads an optional integer field.
pub fn read_opt_int_field(entries: &Vec<(String, Value)>, key: &str) -> (r: Result<
    Option<i64>,
    FieldError,
>)
    ensures
        match r {
            Result::Ok(Option::None) => spec_read_opt_int(obj_model(entries@), key@) == Result::<
                Option<int>,
                FieldErrV,
            >::Ok(Option::None),
            Result::Ok(Option::Some(n)) => spec_read_opt_int(obj_model(entries@), key@)
                == Result::<Option<int>, FieldErrV>::Ok(Option::Some(n as int)),
            Result::Err(e) => spec_read_opt_int(obj_model(entries@), key@) == Result::<
                Option<int>,
                FieldErrV,
            >::Err(e@),
        },
{
    match get_field(entries, key) {
        Option::None => Result::Ok(Option::None),
        Option::Some(Value::Int(n)) => Result::Ok(Option::Some(*n)),
        Option::Some(_) => Result::Err(FieldError::Wrong(key.to_owned())),
    }
}

/// Reads a required non-negative integer field.
pub fn read_u64_field(entries: &Vec<(String, Value)>, key: &str) -> (r: Result<u64, FieldError>)
    ensures
        match r {
            Result::Ok(n) => spec_read_u64(obj_model(entries@), key@) == Result::<
                int,
                FieldErrV,
            >::Ok(n as int) && n <= i64::MAX as u64,
            Result::Err(e) => spec_read_u64(obj_model(entries@), key@) == Result::<
                int,
                FieldErrV,
            >::Err(e@),
        },
{
    match get_field(entries, key) {
        Option::None => Result::Err(FieldError::Missing(key.to_owned())),
        Option::Some(Value::Int(n)) => {
            if *n >= 0 {
                Result::Ok(*n as u64)
            } else {
                Result::Err(FieldError::Wrong(key.to_owned()))
            }
        },
        Option::Some(_) => Result::Err(FieldError::Wrong(key.to_owned())),
    }
}

/// Reads a required raw field.
pub fn read_val_field(entries: &Vec<(String, Value)>, key: &str) -> (r: Result<Value, FieldError>)
    ensures
        match r {
            Result::Ok(v) => spec_read_val(obj_model(entries@), key@) == Result::<
                SpecVal,
                FieldErrV,
            >::Ok(v@),
            Result::Err(e) => spec_read_val(obj_model(entries@), key@) == Result::<
                SpecVal,
                FieldErrV,
            >::Err(e@),
        },
{
    match get_field(entries, key) {
        Option::None => Result::Err(FieldError::Missing(key.to_owned())),
        Option::Some(v) => Result::Ok(dup(v)),
    }
}

/// Reads an optional raw field; absence is not an error.
pub fn read_opt_val_field(entries: &Vec<(String, Value)>, key: &str) -> (r: Option<Value>)
    ensures
        opt_model(r) == spec_get(obj_model(entries@), key@),
{
    match get_field(entries, key) {
        Option::None => Option::None,
        Option::Some(v) => Option::Some(dup(v)),
    }
}


/// What reading an optional string field yields.
pub open spec fn spec_read_opt_string(entries: Seq<(Seq<char>, SpecVal)>, key: Seq<char>) -> Result<
    Option<Seq<char>>,
    FieldErrV,
> {
    match spec_get(entries, key) {
        Option::None => Result::Ok(Option::None),
        Option::Some(SpecVal::Str(s)) => Result::Ok(Option::Some(s)),
        Option::Some(_) => Result::Err(FieldErrV::Wrong(key)),
    }
}

/// What reading a required boolean field yields.
pub open spec fn spec_read_req_bool(entries: Seq<(Seq<char>, SpecVal)>, key: Seq<char>) -> Result<
    bool,
    FieldErrV,
> {
    match spec_get(entries, key) {
        Option::None => Result::Err(FieldErrV::Missing(key)),
        Option::Some(SpecVal::Bool(b)) => Result::Ok(b),
        Option::Some(_) => Result::Err(FieldErrV::Wrong(key)),
    }
}

/// Reads an optional string field.
pub fn read_opt_string_field(entries: &Vec<(String, Value)>, key: &str) -> (r: Result<
    Option<String>,
    FieldError,
>)
    ensures
        match r {
            Result::Ok(Option::None) => spec_read_opt_string(obj_model(entries@), key@)
                == Result::<Option<Seq<char>>, FieldErrV>::Ok(Option::None),
            Result::Ok(Option::Some(s)) => spec_read_opt_string(obj_model(entries@), key@)
                == Result::<Option<Seq<char>>, FieldErrV>::Ok(Option::Some(s@)),
            Result::Err(e) => spec_read_opt_string(obj_model(entries@), key@) == Result::<
                Option<Seq<char>>,
                FieldErrV,
            >::Err(e@),
        },
{
    match get_field(entries, key) {
        Option::None => Result::Ok(Option::None),
        Option::Some(Value::Str(s)) => Result::Ok(Option::Some(s.as_str().to_owned())),
        Option::Some(_) => Result::Err(FieldError::Wrong(key.to_owned())),
    }
}

/// Reads a required boolean field.
pub fn read_req_bool_field(entries: &Vec<(String, Value)>, key: &str) -> (r: Result<
    bool,
    FieldError,
>)
    ensures
        match r {
            Result::Ok(b) => spec_read_req_bool(obj_model(entries@), key@) == Result::<
                bool,
                FieldErrV,
            >::Ok(b),
            Result::Err(e) => spec_read_req_bool(obj_model(entries@), key@) == Result::<
                bool,
                FieldErrV,
            >::Err(e@),
        },
{
    match get_field(entries, key) {
        Option::None => Result::Err(FieldError::Missing(key.to_owned())),
        Option::Some(Value::Bool(b)) => Result::Ok(*b),
        Option::Some(_) => Result::Err(FieldError::Wrong(key.to_owned())),
    }
}

/// Appends a required string field under its wire key.
pub fn push_str_field(out: &mut Vec<(String, Value)>, key: &str, s: &String)
    ensures
        obj_model(final(out)@) == obj_model(old(out)@).push((key@, SpecVal::Str(s@))),
{
    broadcast use crate::value::lemma_obj_model_push;

    out.push((key.to_owned(), Value::Str(s.as_str().to_owned())));
}

/// Appends a required string field given as a literal.
pub fn push_lit_field(out: &mut Vec<(String, Value)>, key: &str, val: &str)
    ensures
        obj_model(final(out)@) == obj_model(old(out)@).push((key@, SpecVal::Str(val@))),
{
    broadcast use crate::value::lemma_obj_model_push;

    out.push((key.to_owned(), Value::Str(val.to_owned())));
}

/// Appends a required integer field under its wire key.
pub fn push_int_field(out: &mut Vec<(String, Value)>, key: &str, n: i64)
    ensures
        obj_model(final(out)@) == obj_model(old(out)@).push((key@, SpecVal::Int(n as int))),
{
    broadcast use crate::value::lemma_obj_model_push;

    out.push((key.to_owned(), Value::Int(n)));
}

/// Appends a present integer field under its wire key.
pub fn push_opt_int_field(out: &mut Vec<(String, Value)>, key: &str, v: Option<i64>)
    ensures
        obj_model(final(out)@) == push_opt(
            obj_model(old(out)@),
            key@,
            match v {
                Option::Some(n) => Option::Some(SpecVal::Int(n as int)),
                Option::None => Option::None,
            },
        ),
{
    broadcast use crate::value::lemma_obj_model_push;

    match v {
        Option::Some(n) => out.push((key.to_owned(), Value::Int(n))),
        Option::None => (),
    }
}

/// Appends a present string field under its wire key.
pub fn push_opt_str_field(out: &mut Vec<(String, Value)>, key: &str, v: &Option<String>)
    ensures
        obj_model(final(out)@) == push_opt(
            obj_model(old(out)@),
            key@,
            match *v {
                Option::Some(s) => Option::Some(SpecVal::Str(s@)),
                Option::None => Option::None,
            },
        ),
{
    broadcast use crate::value::lemma_obj_model_push;

    match v {
        Option::Some(s) => out.push((key.to_owned(), Value::Str(s.as_str().to_owned()))),
        Option::None => (),
    }
}

/// Appends a required raw field under its wire key.
pub fn push_val_field(out: &mut Vec<(String, Value)>, key: &str, v: &Value)
    ensures
        obj_model(final(out)@) == obj_model(old(out)@).push((key@, v@)),
{
    broadcast use crate::value::lemma_obj_model_push;

    out.push((key.to_owned(), dup(v)));
}

/// Appends a present raw field under its wire key.
pub fn push_opt_val_field(out: &mut Vec<(String, Value)>, key: &str, v: &Option<Value>)
    ensures
        obj_model(final(out)@) == push_opt(
            obj_model(old(out)@),
            key@,
            match *v {
                Option::Some(x) => Option::Some(x@),
                Option::None => Option::None,
            },
        ),
{
    broadcast use crate::value::lemma_obj_model_push;

    match v {
        Option::Some(x) => out.push((key.to_owned(), dup(x))),
        Option::None => (),
    }
}

/// Appends a record-valued field under its wire key.
pub fn push_obj_field(out: &mut Vec<(String, Value)>, key: &str, entries: Vec<(String, Value)>)
    ensures
        obj_model(final(out)@) == obj_model(old(out)@).push(
            (key@, SpecVal::Obj(obj_model(entries@))),
        ),
{
    broadcast use crate::value::lemma_obj_model_push, crate::value::lemma_val_model_obj;

    out.push((key.to_owned(), Value::Obj(entries)));
}

} // verus!
