//! The library's model of a parsed JSON value.
//!
//! The admin API's wire format carries only integral numbers (counts
//! and millisecond timestamps), so numbers are restricted to signed
//! 64-bit integers. An object keeps its bindings in order; when a key
//! is looked up, the first binding wins.

use vstd::prelude::*;

use crate::timestamp::{spec_decode, Timestamp};

verus! {

#[derive(Debug)]
pub enum JsonValue {
    Null,
    Bool(bool),
    Int(i64),
    Str(String),
    Arr(Vec<JsonValue>),
    Obj(Vec<(String, JsonValue)>),
}

/// The value bound to `key` among `fields`; the first binding wins.
pub open spec fn obj_lookup(fields: Seq<(String, JsonValue)>, key: Seq<char>) -> Option<JsonValue>
    decreases fields.len(),
{
    if fields.len() == 0 {
        None
    } else if fields[0].0@ == key {
        Some(fields[0].1)
    } else {
        obj_lookup(fields.drop_first(), key)
    }
}

/// Looks `key` up in `v` when `v` is an object; `None` otherwise.
pub open spec fn lookup(v: JsonValue, key: Seq<char>) -> Option<JsonValue> {
    match v {
        JsonValue::Obj(fields) => obj_lookup(fields@, key),
        _ => None,
    }
}

/// The string bound to `key` in `v`, when there is one.
pub open spec fn lookup_str(v: JsonValue, key: Seq<char>) -> Option<String> {
    match lookup(v, key) {
        Some(JsonValue::Str(s)) => Some(s),
        _ => None,
    }
}

/// The bindings of an object, each key by its view.
pub open spec fn fields_view(fields: Seq<(String, JsonValue)>) -> Seq<(Seq<char>, JsonValue)> {
    fields.map_values(|p: (String, JsonValue)| (p.0@, p.1))
}

/// Whether `key` is bound to a string.
pub open spec fn has_str(fields: Seq<(String, JsonValue)>, key: Seq<char>) -> bool {
    obj_lookup(fields, key) matches Some(JsonValue::Str(_))
}

/// Whether `key` is absent, null, or bound to a string: the shapes an
/// optional string field accepts.
pub open spec fn opt_str_ok(fields: Seq<(String, JsonValue)>, key: Seq<char>) -> bool {
    match obj_lookup(fields, key) {
        None => true,
        Some(JsonValue::Null) => true,
        Some(JsonValue::Str(_)) => true,
        Some(_) => false,
    }
}

/// The string bound to `key`, when there is one.
pub open spec fn field_str(fields: Seq<(String, JsonValue)>, key: Seq<char>) -> Option<String> {
    match obj_lookup(fields, key) {
        Some(JsonValue::Str(s)) => Some(s),
        _ => None,
    }
}

/// Whether `key` is bound to an integer.
pub open spec fn has_int(fields: Seq<(String, JsonValue)>, key: Seq<char>) -> bool {
    obj_lookup(fields, key) matches Some(JsonValue::Int(_))
}

/// The integer bound to `key`, when there is one.
pub open spec fn field_int(fields: Seq<(String, JsonValue)>, key: Seq<char>) -> Option<i64> {
    match obj_lookup(fields, key) {
        Some(JsonValue::Int(n)) => Some(n),
        _ => None,
    }
}

/// Whether `key` is bound to an integer that fits a `usize`.
pub open spec fn has_usize(fields: Seq<(String, JsonValue)>, key: Seq<char>) -> bool {
    obj_lookup(fields, key) matches Some(JsonValue::Int(n)) && 0 <= n <= usize::MAX
}

/// Whether `key` is absent, null, or bound to an integer that fits a
/// `usize`.
pub open spec fn opt_usize_ok(fields: Seq<(String, JsonValue)>, key: Seq<char>) -> bool {
    match obj_lookup(fields, key) {
        None => true,
        Some(JsonValue::Null) => true,
        Some(JsonValue::Int(n)) => 0 <= n <= usize::MAX,
        Some(_) => false,
    }
}

/// The integer bound to `key` as a `usize`, when it is one and fits.
pub open spec fn field_usize(fields: Seq<(String, JsonValue)>, key: Seq<char>) -> Option<usize> {
    match obj_lookup(fields, key) {
        Some(JsonValue::Int(n)) => if 0 <= n <= usize::MAX {
            Some(n as usize)
        } else {
            None
        },
        _ => None,
    }
}

/// Whether `key` is bound to an integer that fits an `i32`.
pub open spec fn has_i32(fields: Seq<(String, JsonValue)>, key: Seq<char>) -> bool {
    obj_lookup(fields, key) matches Some(JsonValue::Int(n)) && i32::MIN <= n <= i32::MAX
}

/// Whether `key` is absent, null, or bound to an integer that fits an
/// `i32`.
pub open spec fn opt_i32_ok(fields: Seq<(String, JsonValue)>, key: Seq<char>) -> bool {
    match obj_lookup(fields, key) {
        None => true,
        Some(JsonValue::Null) => true,
        Some(JsonValue::Int(n)) => i32::MIN <= n <= i32::MAX,
        Some(_) => false,
    }
}

/// The integer bound to `key` as an `i32`, when it is one and fits.
pub open spec fn field_i32(fields: Seq<(String, JsonValue)>, key: Seq<char>) -> Option<i32> {
    match obj_lookup(fields, key) {
        Some(JsonValue::Int(n)) => if i32::MIN <= n <= i32::MAX {
            Some(n as i32)
        } else {
            None
        },
        _ => None,
    }
}

/// Whether `key` is absent, null, or bound to an integer that fits an
/// `i8`.
pub open spec fn opt_i8_ok(fields: Seq<(String, JsonValue)>, key: Seq<char>) -> bool {
    match obj_lookup(fields, key) {
        None => true,
        Some(JsonValue::Null) => true,
        Some(JsonValue::Int(n)) => i8::MIN <= n <= i8::MAX,
        Some(_) => false,
    }
}

/// The integer bound to `key` as an `i8`, when it is one and fits.
pub open spec fn field_i8(fields: Seq<(String, JsonValue)>, key: Seq<char>) -> Option<i8> {
    match obj_lookup(fields, key) {
        Some(JsonValue::Int(n)) => if i8::MIN <= n <= i8::MAX {
            Some(n as i8)
        } else {
            None
        },
        _ => None,
    }
}

/// Whether `key` is bound to a boolean.
pub open spec fn has_bool(fields: Seq<(String, JsonValue)>, key: Seq<char>) -> bool {
    obj_lookup(fields, key) matches Some(JsonValue::Bool(_))
}

/// The boolean bound to `key`, when there is one.
pub open spec fn field_bool(fields: Seq<(String, JsonValue)>, key: Seq<char>) -> Option<bool> {
    match obj_lookup(fields, key) {
        Some(JsonValue::Bool(b)) => Some(b),
        _ => None,
    }
}

/// Whether `key` is bound to a non-negative integer, the encoding of
/// an instant in milliseconds since the epoch.
pub open spec fn has_timestamp(fields: Seq<(String, JsonValue)>, key: Seq<char>) -> bool {
    obj_lookup(fields, key) matches Some(JsonValue::Int(n)) && 0 <= n
}

/// Whether `key` is absent, null, or bound to a non-negative integer.
pub open spec fn opt_timestamp_ok(fields: Seq<(String, JsonValue)>, key: Seq<char>) -> bool {
    match obj_lookup(fields, key) {
        None => true,
        Some(JsonValue::Null) => true,
        Some(JsonValue::Int(n)) => 0 <= n,
        Some(_) => false,
    }
}

/// The instant whose millisecond encoding is bound to `key`, when
/// there is one.
pub open spec fn field_timestamp(fields: Seq<(String, JsonValue)>, key: Seq<char>) -> Option<
    Timestamp,
> {
    match obj_lookup(fields, key) {
        Some(JsonValue::Int(n)) => if 0 <= n {
            Some(spec_decode(n as int))
        } else {
            None
        },
        _ => None,
    }
}

/// Whether `key` is bound to an array.
pub open spec fn has_arr(fields: Seq<(String, JsonValue)>, key: Seq<char>) -> bool {
    obj_lookup(fields, key) matches Some(JsonValue::Arr(_))
}

/// The array bound to `key`, when there is one.
pub open spec fn field_arr(fields: Seq<(String, JsonValue)>, key: Seq<char>) -> Option<
    Vec<JsonValue>,
> {
    match obj_lookup(fields, key) {
        Some(JsonValue::Arr(items)) => Some(items),
        _ => None,
    }
}

/// Whether `key` is absent, null, or bound to an array.
pub open spec fn opt_arr_ok(fields: Seq<(String, JsonValue)>, key: Seq<char>) -> bool {
    match obj_lookup(fields, key) {
        None => true,
        Some(JsonValue::Null) => true,
        Some(JsonValue::Arr(_)) => true,
        Some(_) => false,
    }
}

/// The elements of the array bound to `key`, or the empty sequence
/// when there is no such array.
pub open spec fn arr_items(fields: Seq<(String, JsonValue)>, key: Seq<char>) -> Seq<JsonValue> {
    match obj_lookup(fields, key) {
        Some(JsonValue::Arr(items)) => items@,
        _ => Seq::empty(),
    }
}

/// Whether every element of `items` is a string.
pub open spec fn all_strings(items: Seq<JsonValue>) -> bool {
    forall|i: int| 0 <= i < items.len() ==> (#[trigger] items[i]) matches JsonValue::Str(_)
}

/// The strings of an all-string array.
pub open spec fn string_values(items: Seq<JsonValue>) -> Seq<String> {
    items.map_values(
        |j: JsonValue|
            match j {
                JsonValue::Str(s) => s,
                _ => vstd::pervasive::arbitrary::<String>(),
            },
    )
}

proof fn lemma_obj_lookup_skip_step(fields: Seq<(String, JsonValue)>, key: Seq<char>, i: int)
    requires
        0 <= i < fields.len(),
        fields[i].0@ != key,
    ensures
        obj_lookup(fields.skip(i), key) == obj_lookup(fields.skip(i + 1), key),
{
    assert(fields.skip(i)[0] == fields[i]);
    assert(fields.skip(i).drop_first() =~= fields.skip(i + 1));
}

/// Finds the first binding of `key` among `fields`.
pub fn obj_get<'a>(fields: &'a Vec<(String, JsonValue)>, key: &str) -> (r: Option<&'a JsonValue>)
    ensures
        match r {
            Some(j) => obj_lookup(fields@, key@) == Some(*j),
            None => obj_lookup(fields@, key@) is None,
        },
{
    let k: String = key.to_owned();
    let n = fields.len();
    assert(fields@.skip(0) =~= fields@);
    for i in 0..n
        invariant
            n == fields.len(),
            k@ == key@,
            obj_lookup(fields@, key@) == obj_lookup(fields@.skip(i as int), key@),
    {
        if fields[i].0 == k {
            proof {
                assert(fields@.skip(i as int)[0] == fields@[i as int]);
            }
            return Some(&fields[i].1);
        }
        proof {
            lemma_obj_lookup_skip_step(fields@, key@, i as int);
        }
    }
    proof {
        assert(fields@.skip(n as int).len() == 0);
    }
    None
}

/// Finds the index of the first binding of `key` among `fields`.
pub fn obj_find(fields: &Vec<(String, JsonValue)>, key: &str) -> (r: Option<usize>)
    ensures
        r matches Some(i) ==> i < fields@.len() && fields@[i as int].0@ == key@ && obj_lookup(
            fields@,
            key@,
        ) == Some(fields@[i as int].1),
        r is None ==> obj_lookup(fields@, key@) is None,
{
    let k: String = key.to_owned();
    let n = fields.len();
    assert(fields@.skip(0) =~= fields@);
    for i in 0..n
        invariant
            n == fields.len(),
            k@ == key@,
            obj_lookup(fields@, key@) == obj_lookup(fields@.skip(i as int), key@),
    {
        if fields[i].0 == k {
            proof {
                assert(fields@.skip(i as int)[0] == fields@[i as int]);
            }
            return Some(i);
        }
        proof {
            lemma_obj_lookup_skip_step(fields@, key@, i as int);
        }
    }
    proof {
        assert(fields@.skip(n as int).len() == 0);
    }
    None
}

fn int_to_usize(n: i64) -> (r: Option<usize>)
    ensures
        if 0 <= n <= usize::MAX {
            r == Some(n as usize)
        } else {
            r is None
        },
{
    if n >= 0 && (n as u64) <= (usize::MAX as u64) {
        Some(n as usize)
    } else {
        None
    }
}

/// The required string field under `key`, cloned.
pub fn get_str_field(fields: &Vec<(String, JsonValue)>, key: &str) -> (r: Option<String>)
    ensures
        r == field_str(fields@, key@),
        r is Some <==> has_str(fields@, key@),
{
    match obj_get(fields, key) {
        Some(JsonValue::Str(s)) => Some(s.clone()),
        _ => None,
    }
}

/// The optional string field under `key`: absent and null give
/// `Some(None)`, a string gives its clone, any other shape fails.
pub fn get_opt_str_field(fields: &Vec<(String, JsonValue)>, key: &str) -> (r: Option<
    Option<String>,
>)
    ensures
        r is Some <==> opt_str_ok(fields@, key@),
        r matches Some(o) ==> o == field_str(fields@, key@),
{
    match obj_get(fields, key) {
        Some(JsonValue::Str(s)) => Some(Some(s.clone())),
        Some(JsonValue::Null) => Some(None),
        Some(_) => None,
        None => Some(None),
    }
}

/// The required integer field under `key`.
pub fn get_int_field(fields: &Vec<(String, JsonValue)>, key: &str) -> (r: Option<i64>)
    ensures
        r == field_int(fields@, key@),
        r is Some <==> has_int(fields@, key@),
{
    match obj_get(fields, key) {
        Some(JsonValue::Int(n)) => Some(*n),
        _ => None,
    }
}

/// The required integer field under `key`, as a `usize`.
pub fn get_usize_field(fields: &Vec<(String, JsonValue)>, key: &str) -> (r: Option<usize>)
    ensures
        r == field_usize(fields@, key@),
        r is Some <==> has_usize(fields@, key@),
{
    match obj_get(fields, key) {
        Some(JsonValue::Int(n)) => int_to_usize(*n),
        _ => None,
    }
}

/// The optional `usize` field under `key`.
pub fn get_opt_usize_field(fields: &Vec<(String, JsonValue)>, key: &str) -> (r: Option<
    Option<usize>,
>)
    ensures
        r is Some <==> opt_usize_ok(fields@, key@),
        r matches Some(o) ==> o == field_usize(fields@, key@),
{
    match obj_get(fields, key) {
        Some(JsonValue::Int(n)) => match int_to_usize(*n) {
            Some(u) => Some(Some(u)),
            None => None,
        },
        Some(JsonValue::Null) => Some(None),
        Some(_) => None,
        None => Some(None),
    }
}

/// The required integer field under `key`, as an `i32`.
pub fn get_i32_field(fields: &Vec<(String, JsonValue)>, key: &str) -> (r: Option<i32>)
    ensures
        r == field_i32(fields@, key@),
        r is Some <==> has_i32(fields@, key@),
{
    match obj_get(fields, key) {
        Some(JsonValue::Int(n)) => {
            if i32::MIN as i64 <= *n && *n <= i32::MAX as i64 {
                Some(*n as i32)
            } else {
                None
            }
        },
        _ => None,
    }
}

/// The optional `i32` field under `key`.
pub fn get_opt_i32_field(fields: &Vec<(String, JsonValue)>, key: &str) -> (r: Option<Option<i32>>)
    ensures
        r is Some <==> opt_i32_ok(fields@, key@),
        r matches Some(o) ==> o == field_i32(fields@, key@),
{
    match obj_get(fields, key) {
        Some(JsonValue::Int(n)) => {
            if i32::MIN as i64 <= *n && *n <= i32::MAX as i64 {
                Some(Some(*n as i32))
            } else {
                None
            }
        },
        Some(JsonValue::Null) => Some(None),
        Some(_) => None,
        None => Some(None),
    }
}

/// The optional `i8` field under `key`.
pub fn get_opt_i8_field(fields: &Vec<(String, JsonValue)>, key: &str) -> (r: Option<Option<i8>>)
    ensures
        r is Some <==> opt_i8_ok(fields@, key@),
        r matches Some(o) ==> o == field_i8(fields@, key@),
{
    match obj_get(fields, key) {
        Some(JsonValue::Int(n)) => {
            if i8::MIN as i64 <= *n && *n <= i8::MAX as i64 {
                Some(Some(*n as i8))
            } else {
                None
            }
        },
        Some(JsonValue::Null) => Some(None),
        Some(_) => None,
        None => Some(None),
    }
}

/// The required boolean field under `key`.
pub fn get_bool_field(fields: &Vec<(String, JsonValue)>, key: &str) -> (r: Option<bool>)
    ensures
        r == field_bool(fields@, key@),
        r is Some <==> has_bool(fields@, key@),
{
    match obj_get(fields, key) {
        Some(JsonValue::Bool(b)) => Some(*b),
        _ => None,
    }
}

/// The required timestamp field under `key`: a non-negative count of
/// milliseconds since the epoch.
pub fn get_timestamp_field(fields: &Vec<(String, JsonValue)>, key: &str) -> (r: Option<Timestamp>)
    ensures
        r == field_timestamp(fields@, key@),
        r is Some <==> has_timestamp(fields@, key@),
{
    match obj_get(fields, key) {
        Some(JsonValue::Int(n)) => {
            if *n >= 0 {
                Some(crate::timestamp::decode_millis(*n))
            } else {
                None
            }
        },
        _ => None,
    }
}

/// The optional timestamp field under `key`.
pub fn get_opt_timestamp_field(fields: &Vec<(String, JsonValue)>, key: &str) -> (r: Option<
    Option<Timestamp>,
>)
    ensures
        r is Some <==> opt_timestamp_ok(fields@, key@),
        r matches Some(o) ==> o == field_timestamp(fields@, key@),
{
    match obj_get(fields, key) {
        Some(JsonValue::Int(n)) => {
            if *n >= 0 {
                Some(Some(crate::timestamp::decode_millis(*n)))
            } else {
                None
            }
        },
        Some(JsonValue::Null) => Some(None),
        Some(_) => None,
        None => Some(None),
    }
}

/// The required array field under `key`, borrowed.
pub fn get_arr_field<'a>(fields: &'a Vec<(String, JsonValue)>, key: &str) -> (r: Option<
    &'a Vec<JsonValue>,
>)
    ensures
        r matches Some(items) ==> field_arr(fields@, key@) == Some(*items),
        r is Some <==> has_arr(fields@, key@),
{
    match obj_get(fields, key) {
        Some(JsonValue::Arr(items)) => Some(items),
        _ => None,
    }
}

/// Removing a binding whose key is not `key` leaves the lookup of
/// `key` unchanged.
pub proof fn lemma_obj_lookup_remove(fields: Seq<(String, JsonValue)>, i: int, key: Seq<char>)
    requires
        0 <= i < fields.len(),
        fields[i].0@ != key,
    ensures
        obj_lookup(fields.remove(i), key) == obj_lookup(fields, key),
    decreases fields.len(),
{
    if i == 0 {
        assert(fields.remove(0) =~= fields.drop_first());
    } else {
        assert(fields.remove(i)[0] == fields[0]);
        assert(fields.remove(i).len() > 0);
        if fields[0].0@ != key {
            assert(fields.remove(i).drop_first() =~= fields.drop_first().remove(i - 1));
            lemma_obj_lookup_remove(fields.drop_first(), i - 1, key);
        }
    }
}

/// Moves the array bound to `key` out of `fields`, handing back the
/// index the binding held.
pub fn take_arr_field(fields: &mut Vec<(String, JsonValue)>, key: &str) -> (r: Option<
    (usize, Vec<JsonValue>),
>)
    ensures
        r matches Some((i, items)) ==> 0 <= i < old(fields)@.len() && old(
            fields,
        )@[i as int].0@ == key@ && field_arr(old(fields)@, key@) == Some(items) && final(fields)@
            == old(fields)@.remove(i as int),
        r is None ==> !has_arr(old(fields)@, key@) && final(fields)@ == old(fields)@,
{
    let idx = match obj_find(fields, key) {
        Some(i) => i,
        None => {
            return None;
        },
    };
    match &fields[idx].1 {
        JsonValue::Arr(_) => {},
        _ => {
            return None;
        },
    }
    let pair = fields.remove(idx);
    match pair.1 {
        JsonValue::Arr(items) => Some((idx, items)),
        _ => {
            proof {
                assert(false);
            }
            None
        },
    }
}

/// Decodes an all-string array, cloning each element.
pub fn get_string_array(items: &Vec<JsonValue>) -> (r: Option<Vec<String>>)
    ensures
        r is Some <==> all_strings(items@),
        r matches Some(ss) ==> ss@ == string_values(items@),
{
    let mut out: Vec<String> = Vec::new();
    let n = items.len();
    for i in 0..n
        invariant
            n == items.len(),
            out@.len() == i,
            forall|j: int| 0 <= j < i ==> (#[trigger] items@[j]) matches JsonValue::Str(_),
            forall|j: int|
                0 <= j < i ==> #[trigger] out@[j] == string_values(items@.take(i as int))[j],
    {
        match &items[i] {
            JsonValue::Str(s) => {
                out.push(s.clone());
                proof {
                    assert(items@.take(i + 1 as int)[i as int] == items@[i as int]);
                    assert(forall|j: int|
                        0 <= j < i ==> items@.take(i + 1 as int)[j] == items@.take(i as int)[j]);
                }
            },
            _ => {
                return None;
            },
        }
    }
    proof {
        assert(items@.take(n as int) =~= items@);
        assert(out@ =~= string_values(items@));
    }
    Some(out)
}

} // verus!
