//! A schema-less structured document, as the cluster API delivers it.
//!
//! A [`DocValue`] stands for an arbitrary structured payload: null, boolean,
//! integer, string, array or object. A number that is not an integer in the
//! `i64` range is kept as [`DocValue::OtherNum`]: no field that the
//! converters read may hold one, so its exact value never matters.

use vstd::prelude::*;

verus! {

/// One node of a structured document.
pub enum DocValue {
    Null,
    Bool(bool),
    Int(i64),
    /// A number outside the `i64` range, or not an integer.
    OtherNum,
    Str(String),
    Arr(Vec<DocValue>),
    Obj(Vec<(String, DocValue)>),
}

/// A schema-less representation of one cluster resource: type metadata,
/// cluster-assigned identity, and an arbitrary structured payload.
///
/// `kind` is `None` when the cluster delivered the object without type
/// metadata. `name` is the cluster-assigned resource name; a `namespace` is
/// present only for namespaced resources. The object is produced by the
/// transport layer, consumed once by a converter, and never mutated.
pub struct GenericObject {
    pub api_version: String,
    pub kind: Option<String>,
    pub name: String,
    pub namespace: Option<String>,
    pub data: DocValue,
}

/// The value of the first field named `key`, if any.
pub open spec fn field_lookup(fields: Seq<(String, DocValue)>, key: Seq<char>) -> Option<DocValue>
    decreases fields.len(),
{
    if fields.len() == 0 {
        None
    } else if fields[0].0@ == key {
        Some(fields[0].1)
    } else {
        field_lookup(fields.skip(1), key)
    }
}

/// Finds the first field named `key` in an object's field list.
pub fn find_field<'a>(fields: &'a Vec<(String, DocValue)>, key: &str) -> (r: Option<&'a DocValue>)
    ensures
        match r {
            Some(d) => field_lookup(fields@, key@) == Some(*d),
            None => field_lookup(fields@, key@) is None,
        },
{
    let owned_key: String = key.to_owned();
    proof {
        assert(fields@.skip(0) =~= fields@);
    }
    let mut i: usize = 0;
    while i < fields.len()
        invariant
            i <= fields.len(),
            owned_key@ == key@,
            field_lookup(fields@, key@) == field_lookup(fields@.skip(i as int), key@),
        decreases fields.len() - i,
    {
        proof {
            assert(fields@.skip(i as int)[0] == fields@[i as int]);
            assert(fields@.skip(i as int).skip(1) =~= fields@.skip(i as int + 1));
        }
        if fields[i].0 == owned_key {
            return Some(&fields[i].1);
        }
        i = i + 1;
    }
    None
}

} // verus!
