//! Typed extraction: structural, schema-driven decoding of a dynamically
//! shaped document into a statically-typed structure.

use vstd::prelude::*;

use crate::error::{DeserializationError, ErrorModel};
use crate::json::{kind, kind_of, lemma_model_obj, obj_model, JsonKind, JsonModel, JsonValue};

verus! {

/// Looks a key up among an object's fields, first match wins, starting at
/// position `i`.
pub open spec fn lookup_from(
    fields: Seq<(Seq<char>, JsonModel)>,
    key: Seq<char>,
    i: int,
) -> Option<JsonModel>
    decreases fields.len() - i,
{
    if i < 0 || i >= fields.len() {
        None
    } else if fields[i].0 == key {
        Some(fields[i].1)
    } else {
        lookup_from(fields, key, i + 1)
    }
}

/// The value under the first field named `key`, if any.
pub open spec fn obj_lookup(fields: Seq<(Seq<char>, JsonModel)>, key: Seq<char>) -> Option<
    JsonModel,
> {
    lookup_from(fields, key, 0)
}

/// Finds the position of the first field named `key`.
pub(crate) fn find_key(fields: &Vec<(String, JsonValue)>, key: &String) -> (r: Option<usize>)
    ensures
        match r {
            Some(i) => i < fields@.len() && fields@[i as int].0@ == key@ && obj_lookup(
                obj_model(fields@),
                key@,
            ) == Some(crate::json::json_model(fields@[i as int].1)),
            None => obj_lookup(obj_model(fields@), key@) is None,
        },
{
    let ghost m = obj_model(fields@);
    let n = fields.len();
    let mut i: usize = 0;
    while i < n
        invariant
            n == fields@.len(),
            i <= n,
            m == obj_model(fields@),
            lookup_from(m, key@, 0) == lookup_from(m, key@, i as int),
        decreases n - i,
    {
        if fields[i].0.eq(key) {
            proof {
                assert(m[i as int].0 == key@);
                assert(lookup_from(m, key@, i as int) == Some(m[i as int].1));
            }
            return Some(i);
        }
        proof {
            assert(m[i as int].0 == fields@[i as int].0@);
            assert(lookup_from(m, key@, i as int) == lookup_from(m, key@, i as int + 1));
        }
        i += 1;
    }
    proof {
        assert(lookup_from(m, key@, n as int) is None);
    }
    None
}

/// A statically-typed structure that can be extracted from a document by
/// structural decoding. `decode_spec` pins, for every document shape, either
/// the model of the decoded value or the exact failure, so a decoder can
/// neither succeed on a mismatched shape nor hand back a partial result.
pub trait FromJson: View + Sized {
    /// What decoding yields on each document shape.
    spec fn decode_spec(m: JsonModel) -> Result<Self::V, ErrorModel>;

    /// Decodes a document into `Self`, or reports exactly where its shape
    /// fell short.
    fn from_json(v: JsonValue) -> (r: Result<Self, DeserializationError>)
        ensures
            match r {
                Ok(t) => Self::decode_spec(v@) == Result::<Self::V, ErrorModel>::Ok(t@),
                Err(e) => Self::decode_spec(v@) == Result::<Self::V, ErrorModel>::Err(e@),
            },
    ;
}

/// The asset-definitions document: an object whose `assets` field maps asset
/// identifiers to their (still dynamically shaped) definitions.
#[derive(Debug)]
pub struct AssetMap {
    assets: Vec<(String, JsonValue)>,
}

impl View for AssetMap {
    type V = Seq<(Seq<char>, JsonModel)>;

    closed spec fn view(&self) -> Seq<(Seq<char>, JsonModel)> {
        obj_model(self.assets@)
    }
}

impl AssetMap {
    /// How many assets the map holds.
    pub fn len(&self) -> (n: usize)
        ensures
            n == self@.len(),
    {
        self.assets.len()
    }

    /// The identifier and definition at position `i`.
    pub fn entry_at(&self, i: usize) -> (e: &(String, JsonValue))
        requires
            i < self@.len(),
        ensures
            e.0@ == self@[i as int].0,
            e.1@ == self@[i as int].1,
    {
        &self.assets[i]
    }
}

impl FromJson for AssetMap {
    open spec fn decode_spec(m: JsonModel) -> Result<Seq<(Seq<char>, JsonModel)>, ErrorModel> {
        if !(m is Obj) {
            Err(ErrorModel { path: Seq::empty(), expected: JsonKind::Obj, found: kind_of(m) })
        } else {
            match obj_lookup(m->Obj_0, "assets"@) {
                None => Err(
                    ErrorModel {
                        path: "assets"@,
                        expected: JsonKind::Obj,
                        found: JsonKind::Absent,
                    },
                ),
                Some(inner) => if inner is Obj {
                    Ok(inner->Obj_0)
                } else {
                    Err(
                        ErrorModel {
                            path: "assets"@,
                            expected: JsonKind::Obj,
                            found: kind_of(inner),
                        },
                    )
                },
            }
        }
    }

    fn from_json(v: JsonValue) -> (r: Result<Self, DeserializationError>) {
        let ghost whole = v;
        match v {
            JsonValue::Obj(mut fields) => {
                proof {
                    lemma_model_obj(whole);
                }
                let key = "assets".to_owned();
                match find_key(&fields, &key) {
                    Some(i) => {
                        let pair = fields.remove(i);
                        let ghost inner = pair.1;
                        match pair.1 {
                            JsonValue::Obj(entries) => {
                                proof {
                                    lemma_model_obj(inner);
                                }
                                Ok(AssetMap { assets: entries })
                            },
                            other => Err(
                                DeserializationError::new(key, JsonKind::Obj, kind(&other)),
                            ),
                        }
                    },
                    None => Err(DeserializationError::new(key, JsonKind::Obj, JsonKind::Absent)),
                }
            },
            other => Err(DeserializationError::new(String::new(), JsonKind::Obj, kind(&other))),
        }
    }
}

/// The models of a list of named icons.
pub open spec fn icon_view(icons: Seq<(String, String)>) -> Seq<(Seq<char>, Seq<char>)> {
    Seq::new(icons.len(), |i: int| (icons[i].0@, icons[i].1@))
}

/// Decodes an object's fields into named icons, from position `i` on: every
/// value must be a string, and the first one that is not names the failure.
pub open spec fn icon_entries_from(entries: Seq<(Seq<char>, JsonModel)>, i: int) -> Result<
    Seq<(Seq<char>, Seq<char>)>,
    ErrorModel,
>
    decreases entries.len() - i,
{
    if i < 0 || i >= entries.len() {
        Ok(Seq::empty())
    } else {
        match entries[i].1 {
            JsonModel::Str(s) => match icon_entries_from(entries, i + 1) {
                Ok(rest) => Ok(seq![(entries[i].0, s)] + rest),
                Err(e) => Err(e),
            },
            _ => Err(
                ErrorModel {
                    path: entries[i].0,
                    expected: JsonKind::Str,
                    found: kind_of(entries[i].1),
                },
            ),
        }
    }
}

/// The icon-images document: an object whose `icons` field maps asset
/// identifiers to encoded images, each a string.
#[derive(Debug)]
pub struct IconMap {
    icons: Vec<(String, String)>,
}

impl View for IconMap {
    type V = Seq<(Seq<char>, Seq<char>)>;

    closed spec fn view(&self) -> Seq<(Seq<char>, Seq<char>)> {
        icon_view(self.icons@)
    }
}

impl IconMap {
    /// How many icons the map holds.
    pub fn len(&self) -> (n: usize)
        ensures
            n == self@.len(),
    {
        self.icons.len()
    }

    /// The identifier and encoded image at position `i`.
    pub fn icon_at(&self, i: usize) -> (e: &(String, String))
        requires
            i < self@.len(),
        ensures
            e.0@ == self@[i as int].0,
            e.1@ == self@[i as int].1,
    {
        &self.icons[i]
    }
}

impl FromJson for IconMap {
    open spec fn decode_spec(m: JsonModel) -> Result<Seq<(Seq<char>, Seq<char>)>, ErrorModel> {
        if !(m is Obj) {
            Err(ErrorModel { path: Seq::empty(), expected: JsonKind::Obj, found: kind_of(m) })
        } else {
            match obj_lookup(m->Obj_0, "icons"@) {
                None => Err(
                    ErrorModel {
                        path: "icons"@,
                        expected: JsonKind::Obj,
                        found: JsonKind::Absent,
                    },
                ),
                Some(inner) => if inner is Obj {
                    icon_entries_from(inner->Obj_0, 0)
                } else {
                    Err(
                        ErrorModel {
                            path: "icons"@,
                            expected: JsonKind::Obj,
                            found: kind_of(inner),
                        },
                    )
                },
            }
        }
    }

    #[verifier::loop_isolation(false)]
    fn from_json(v: JsonValue) -> (r: Result<Self, DeserializationError>) {
        let ghost whole = v;
        match v {
            JsonValue::Obj(mut fields) => {
                proof {
                    lemma_model_obj(whole);
                }
                let key = "icons".to_owned();
                match find_key(&fields, &key) {
                    Some(i) => {
                        let pair = fields.remove(i);
                        let ghost inner = pair.1;
                        match pair.1 {
                            JsonValue::Obj(entries) => {
                                proof {
                                    lemma_model_obj(inner);
                                }
                                let ghost em = obj_model(entries@);
                                let n = entries.len();
                                let mut icons: Vec<(String, String)> = Vec::new();
                                let mut j: usize = 0;
                                while j < n
                                    invariant
                                        n == entries@.len(),
                                        j <= n,
                                        em == obj_model(entries@),
                                        icon_entries_from(em, 0) == (match icon_entries_from(
                                            em,
                                            j as int,
                                        ) {
                                            Ok(rest) => Ok::<_, ErrorModel>(
                                                icon_view(icons@) + rest,
                                            ),
                                            Err(e) => Err(e),
                                        }),
                                    decreases n - j,
                                {
                                    let name = entries[j].0.clone();
                                    let ghost icons_before = icons@;
                                    match &entries[j].1 {
                                        JsonValue::Str(s) => {
                                            icons.push((name, s.clone()));
                                            proof {
                                                assert(em[j as int].1 == crate::json::json_model(
                                                    entries@[j as int].1,
                                                ));
                                                assert(icon_view(icons@) =~= icon_view(
                                                    icons_before,
                                                ) + seq![(em[j as int].0, em[j as int].1->Str_0)]);
                                                if icon_entries_from(em, j as int + 1) is Ok {
                                                    let rest = icon_entries_from(
                                                        em,
                                                        j as int + 1,
                                                    )->Ok_0;
                                                    assert(icon_view(icons_before) + (seq![
                                                        (em[j as int].0, em[j as int].1->Str_0),
                                                    ] + rest) =~= icon_view(icons@) + rest);
                                                }
                                            }
                                        },
                                        other => {
                                            proof {
                                                assert(em[j as int].1 == crate::json::json_model(
                                                    entries@[j as int].1,
                                                ));
                                                assert(em[j as int].0 == entries@[j as int].0@);
                                                assert(!(em[j as int].1 is Str));
                                                assert(icon_entries_from(em, j as int) == Err::<
                                                    Seq<(Seq<char>, Seq<char>)>,
                                                    ErrorModel,
                                                >(
                                                    ErrorModel {
                                                        path: em[j as int].0,
                                                        expected: JsonKind::Str,
                                                        found: kind_of(em[j as int].1),
                                                    },
                                                ));
                                            }
                                            return Err(
                                                DeserializationError::new(
                                                    name,
                                                    JsonKind::Str,
                                                    kind(other),
                                                ),
                                            );
                                        },
                                    }
                                    j += 1;
                                }
                                proof {
                                    assert(icon_entries_from(em, n as int) == Ok::<
                                        _,
                                        ErrorModel,
                                    >(Seq::<(Seq<char>, Seq<char>)>::empty()));
                                    assert(icon_view(icons@) + Seq::empty() =~= icon_view(icons@));
                                }
                                Ok(IconMap { icons })
                            },
                            other => Err(
                                DeserializationError::new(key, JsonKind::Obj, kind(&other)),
                            ),
                        }
                    },
                    None => Err(DeserializationError::new(key, JsonKind::Obj, JsonKind::Absent)),
                }
            },
            other => Err(DeserializationError::new(String::new(), JsonKind::Obj, kind(&other))),
        }
    }
}

} // verus!
