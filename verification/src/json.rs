//! A plain JSON document model. Timeline entries arrive as loosely-tagged
//! JSON objects; the polymorphic decoder works on this tree so that the
//! shape analysis is verified.

use vstd::prelude::*;
use crate::strutil::str_eq;

verus! {

/// A JSON value. Object fields keep their arrival order: the entry decoder's
/// behaviour depends on where the identifier stands relative to the content.
#[derive(Debug)]
pub enum JsonValue {
    Null,
    Bool(bool),
    Int(i64),
    Str(String),
    Arr(Vec<JsonValue>),
    Obj(Vec<(String, JsonValue)>),
}

/// The first field of `fields` named `key`, if any.
pub open spec fn spec_obj_get(fields: Seq<(String, JsonValue)>, key: Seq<char>) -> Option<
    JsonValue,
>
    decreases fields.len(),
{
    if fields.len() == 0 {
        None
    } else if fields[0].0@ == key {
        Some(fields[0].1)
    } else {
        spec_obj_get(fields.drop_first(), key)
    }
}

/// Look a field up by name, exactly as `spec_obj_get` says.
pub fn obj_get<'a>(fields: &'a Vec<(String, JsonValue)>, key: &str) -> (r: Option<&'a JsonValue>)
    ensures
        match r {
            Some(v) => spec_obj_get(fields@, key@) == Some(*v),
            None => spec_obj_get(fields@, key@) is None,
        },
{
    let n = fields.len();
    let mut i: usize = 0;
    proof {
        assert(fields@.skip(0) =~= fields@);
    }
    while i < n
        invariant
            i <= n,
            n == fields@.len(),
            spec_obj_get(fields@, key@) == spec_obj_get(fields@.skip(i as int), key@),
        decreases n - i,
    {
        let pair = &fields[i];
        if str_eq(pair.0.as_str(), key) {
            proof {
                assert(fields@.skip(i as int)[0] == fields@[i as int]);
            }
            return Some(&pair.1);
        }
        proof {
            assert(fields@.skip(i as int).drop_first() =~= fields@.skip(i as int + 1));
        }
        i = i + 1;
    }
    None
}

} // verus!
