//! The structured-value representation under which the persistent store
//! keeps an entry on disk between process runs: both fields, exactly, so
//! that a round trip reproduces the entry.

use vstd::prelude::*;

use crate::error::{DeserializationError, ErrorModel};
use crate::json::{kind, kind_of, lemma_model_obj, obj_model, JsonKind, JsonModel, JsonValue};
use crate::typed::{find_key, lookup_from, obj_lookup};
use crate::value_modified::{EntryModel, ValueModified};

verus! {

/// The on-disk shape of an entry: an object with the document under `value`
/// and the marker under `last_modified`.
pub open spec fn store_encode(m: EntryModel) -> JsonModel {
    JsonModel::Obj(
        seq![("value"@, m.value), ("last_modified"@, JsonModel::Str(m.marker))],
    )
}

/// Reading an entry back from its on-disk shape: the first `value` field is
/// the document, the first `last_modified` field, which must be a string, is
/// the marker.
pub open spec fn store_decode(m: JsonModel) -> Result<EntryModel, ErrorModel> {
    if !(m is Obj) {
        Err(ErrorModel { path: Seq::empty(), expected: JsonKind::Obj, found: kind_of(m) })
    } else {
        match obj_lookup(m->Obj_0, "value"@) {
            None => Err(
                ErrorModel { path: "value"@, expected: JsonKind::Any, found: JsonKind::Absent },
            ),
            Some(doc) => match obj_lookup(m->Obj_0, "last_modified"@) {
                None => Err(
                    ErrorModel {
                        path: "last_modified"@,
                        expected: JsonKind::Str,
                        found: JsonKind::Absent,
                    },
                ),
                Some(mk) => if mk is Str {
                    Ok(EntryModel { value: doc, marker: mk->Str_0 })
                } else {
                    Err(
                        ErrorModel {
                            path: "last_modified"@,
                            expected: JsonKind::Str,
                            found: kind_of(mk),
                        },
                    )
                },
            },
        }
    }
}

/// Serializes an entry into the document the persistent store writes out.
pub fn to_store_value(entry: ValueModified) -> (r: JsonValue)
    ensures
        r@ == store_encode(entry@),
{
    let ghost entry_model = entry@;
    let parts = entry.into_parts();
    let mut fields: Vec<(String, JsonValue)> = Vec::new();
    fields.push(("value".to_owned(), parts.0));
    fields.push(("last_modified".to_owned(), JsonValue::Str(parts.1)));
    let ghost fields_model = fields@;
    let r = JsonValue::Obj(fields);
    proof {
        lemma_model_obj(r);
        assert(obj_model(fields_model) =~= seq![
            ("value"@, entry_model.value),
            ("last_modified"@, JsonModel::Str(entry_model.marker)),
        ]);
    }
    r
}

/// Deserializes the document the persistent store read back into an entry,
/// or reports exactly where its shape fell short.
pub fn from_store_value(v: JsonValue) -> (r: Result<ValueModified, DeserializationError>)
    ensures
        match r {
            Ok(entry) => store_decode(v@) == Result::<EntryModel, ErrorModel>::Ok(entry@),
            Err(e) => store_decode(v@) == Result::<EntryModel, ErrorModel>::Err(e@),
        },
{
    let ghost whole = v;
    match v {
        JsonValue::Obj(mut fields) => {
            proof {
                lemma_model_obj(whole);
            }
            let ghost fields_model = fields@;
            let vkey = "value".to_owned();
            let mkey = "last_modified".to_owned();
            let value_pos = find_key(&fields, &vkey);
            let marker_pos = find_key(&fields, &mkey);
            match (value_pos, marker_pos) {
                (Some(i), Some(k)) => {
                    proof {
                        reveal_strlit("value");
                        reveal_strlit("last_modified");
                        assert("value"@.len() == 5);
                        assert("last_modified"@.len() == 13);
                        assert(i != k);
                        fields_model.remove_ensures(i as int);
                        fields_model.remove_ensures(k as int);
                    }
                    let doc: JsonValue;
                    let mk: JsonValue;
                    if i < k {
                        let marker_pair = fields.remove(k);
                        let value_pair = fields.remove(i);
                        doc = value_pair.1;
                        mk = marker_pair.1;
                    } else {
                        let value_pair = fields.remove(i);
                        let marker_pair = fields.remove(k);
                        doc = value_pair.1;
                        mk = marker_pair.1;
                    }
                    proof {
                        assert(doc == fields_model[i as int].1);
                        assert(mk == fields_model[k as int].1);
                    }
                    match mk {
                        JsonValue::Str(s) => Ok(ValueModified::new(doc, s)),
                        other => Err(
                            DeserializationError::new(mkey, JsonKind::Str, kind(&other)),
                        ),
                    }
                },
                (None, _) => Err(DeserializationError::new(vkey, JsonKind::Any, JsonKind::Absent)),
                (Some(_), None) => Err(
                    DeserializationError::new(mkey, JsonKind::Str, JsonKind::Absent),
                ),
            }
        },
        other => Err(DeserializationError::new(String::new(), JsonKind::Obj, kind(&other))),
    }
}

/// Round trip through the persistent store's representation: decoding an
/// encoded entry reproduces it exactly, for any document and any marker, the
/// empty one included.
pub proof fn lemma_store_round_trip(m: EntryModel)
    ensures
        store_decode(store_encode(m)) == Result::<EntryModel, ErrorModel>::Ok(m),
{
    let fields = seq![("value"@, m.value), ("last_modified"@, JsonModel::Str(m.marker))];
    reveal_strlit("value");
    reveal_strlit("last_modified");
    assert("value"@.len() == 5);
    assert("last_modified"@.len() == 13);
    assert("value"@ != "last_modified"@);
    assert(lookup_from(fields, "value"@, 0) == Some(m.value));
    assert(lookup_from(fields, "last_modified"@, 0) == lookup_from(
        fields,
        "last_modified"@,
        1,
    ));
    assert(lookup_from(fields, "last_modified"@, 1) == Some(JsonModel::Str(m.marker)));
}

} // verus!
