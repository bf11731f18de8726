//! JSON values as the control protocol reads them.
use crate::ieee::{F32, F64};
use crate::text::str_eq;
use vstd::prelude::*;

verus! {

/// A JSON number: as an integer where it is one, and as a real number in both
/// precisions.
#[derive(Debug, Clone, Copy, PartialEq, Eq, Structural)]
pub struct JsonNumber {
    pub signed: Option<i64>,
    pub unsigned: Option<u64>,
    pub wide: F64,
    pub single: F32,
}

/// A JSON value. An object holds its fields in order.
#[derive(Debug)]
pub enum JsonValue {
    Null,
    Bool(bool),
    Number(JsonNumber),
    String(String),
    Array(Vec<JsonValue>),
    Object(Vec<(String, JsonValue)>),
}

/// The value of the first field named `key`.
pub open spec fn field_of(fields: Seq<(String, JsonValue)>, key: Seq<char>) -> Option<JsonValue>
    decreases fields.len(),
{
    if fields.len() == 0 {
        None
    } else if fields[0].0@ == key {
        Some(fields[0].1)
    } else {
        field_of(fields.drop_first(), key)
    }
}

/// The value of the first field named `key`.
pub fn field<'a>(fields: &'a Vec<(String, JsonValue)>, key: &str) -> (r: Option<&'a JsonValue>)
    ensures
        match r {
            Some(v) => field_of(fields@, key@) == Some(*v),
            None => field_of(fields@, key@) is None,
        },
{
    let mut i: usize = 0;
    assert(fields@.skip(0) == fields@);
    while i < fields.len()
        invariant
            i <= fields@.len(),
            field_of(fields@, key@) == field_of(fields@.skip(i as int), key@),
        decreases fields@.len() - i,
    {
        assert(fields@.skip(i as int)[0] == fields@[i as int]);
        assert(fields@.skip(i as int).drop_first() == fields@.skip(i + 1));
        if str_eq(fields[i].0.as_str(), key) {
            return Some(&fields[i].1);
        }
        i += 1;
    }
    None
}

/// How many fields are named `key`.
pub open spec fn occurrences(fields: Seq<(String, JsonValue)>, key: Seq<char>) -> nat
    decreases fields.len(),
{
    if fields.len() == 0 {
        0
    } else {
        occurrences(fields.drop_last(), key) + if fields.last().0@ == key {
            1nat
        } else {
            0nat
        }
    }
}

/// Whether more than one field is named `key`.
pub fn is_repeated(fields: &Vec<(String, JsonValue)>, key: &str) -> (r: bool)
    ensures
        r == (occurrences(fields@, key@) > 1),
{
    let mut count: usize = 0;
    let mut i: usize = 0;
    assert(fields@.take(0) == Seq::<(String, JsonValue)>::empty());
    while i < fields.len()
        invariant
            i <= fields@.len(),
            count == occurrences(fields@.take(i as int), key@),
            count <= i,
        decreases fields@.len() - i,
    {
        assert(fields@.take(i + 1).drop_last() == fields@.take(i as int));
        if str_eq(fields[i].0.as_str(), key) {
            count += 1;
        }
        i += 1;
    }
    assert(fields@.take(fields@.len() as int) == fields@);
    count > 1
}

/// The first of `keys` that names a field, by its value.
pub open spec fn first_field_of(
    fields: Seq<(String, JsonValue)>,
    keys: Seq<&str>,
) -> Option<JsonValue>
    decreases keys.len(),
{
    if keys.len() == 0 {
        None
    } else {
        match field_of(fields, keys[0]@) {
            Some(v) => Some(v),
            None => first_field_of(fields, keys.drop_first()),
        }
    }
}

/// The value of the first of `keys` that names a field.
pub fn first_field<'a>(fields: &'a Vec<(String, JsonValue)>, keys: &[&str]) -> (r: Option<
    &'a JsonValue,
>)
    ensures
        match r {
            Some(v) => first_field_of(fields@, keys@) == Some(*v),
            None => first_field_of(fields@, keys@) is None,
        },
{
    let mut i: usize = 0;
    assert(keys@.skip(0) == keys@);
    while i < keys.len()
        invariant
            i <= keys@.len(),
            first_field_of(fields@, keys@) == first_field_of(fields@, keys@.skip(i as int)),
        decreases keys@.len() - i,
    {
        assert(keys@.skip(i as int)[0] == keys@[i as int]);
        assert(keys@.skip(i as int).drop_first() == keys@.skip(i + 1));
        if let Some(v) = field(fields, keys[i]) {
            return Some(v);
        }
        i += 1;
    }
    None
}

/// A field is found by the first one of its name, and in no other case.
pub proof fn fields_are_found_by_name(fields: Seq<(String, JsonValue)>, key: Seq<char>)
    ensures
        match field_of(fields, key) {
            Some(v) => exists|i: int|
                {
                    &&& 0 <= i < fields.len()
                    &&& #[trigger] fields[i].0@ == key
                    &&& fields[i].1 == v
                    &&& forall|k: int| 0 <= k < i ==> (#[trigger] fields[k]).0@ != key
                },
            None => forall|k: int| 0 <= k < fields.len() ==> (#[trigger] fields[k]).0@ != key,
        },
    decreases fields.len(),
{
    if fields.len() > 0 {
        if fields[0].0@ == key {
            assert(fields[0].0@ == key && fields[0].1 == field_of(fields, key)->0);
        } else {
            let rest = fields.drop_first();
            fields_are_found_by_name(rest, key);
            assert(forall|k: int| 1 <= k < fields.len() ==> #[trigger] fields[k] == rest[k - 1]);
            if field_of(fields, key) is Some {
                let i = choose|i: int|
                    {
                        &&& 0 <= i < rest.len()
                        &&& #[trigger] rest[i].0@ == key
                        &&& rest[i].1 == field_of(rest, key)->0
                        &&& forall|k: int| 0 <= k < i ==> (#[trigger] rest[k]).0@ != key
                    };
                assert(fields[i + 1] == rest[i]);
                assert(fields[i + 1].0@ == key);
            }
        }
    }
}

/// A name occurs more than once just where two fields have it.
pub proof fn repeated_names_occur_twice(fields: Seq<(String, JsonValue)>, key: Seq<char>)
    ensures
        occurrences(fields, key) > 0 <==> exists|i: int|
            0 <= i < fields.len() && #[trigger] fields[i].0@ == key,
        occurrences(fields, key) > 1 <==> exists|i: int, j: int|
            0 <= i < j < fields.len() && #[trigger] fields[i].0@ == key && #[trigger] fields[j].0@
                == key,
    decreases fields.len(),
{
    if fields.len() > 0 {
        let front = fields.drop_last();
        let last = fields.len() - 1;
        repeated_names_occur_twice(front, key);
        assert(forall|k: int| 0 <= k < last ==> #[trigger] fields[k] == front[k]);
        assert(fields[last] == fields.last());
        if occurrences(front, key) > 0 {
            let i = choose|i: int| 0 <= i < front.len() && #[trigger] front[i].0@ == key;
            assert(fields[i].0@ == key);
            if fields.last().0@ == key {
                assert(fields[i].0@ == key && fields[last].0@ == key);
            }
        }
        if occurrences(front, key) > 1 {
            let (i, j) = choose|i: int, j: int|
                0 <= i < j < front.len() && #[trigger] front[i].0@ == key && #[trigger] front[j].0@
                    == key;
            assert(fields[i].0@ == key && fields[j].0@ == key);
        }
    }
}

/// Of several names the first that a field has decides.
pub proof fn the_first_name_decides(fields: Seq<(String, JsonValue)>, keys: Seq<&str>)
    requires
        keys.len() > 0,
    ensures
        field_of(fields, keys[0]@) is Some ==> first_field_of(fields, keys) == field_of(
            fields,
            keys[0]@,
        ),
        field_of(fields, keys[0]@) is None ==> first_field_of(fields, keys) == first_field_of(
            fields,
            keys.drop_first(),
        ),
        first_field_of(fields, Seq::<&str>::empty()) is None,
{
}

} // verus!
