//! The hard-coded fallback catalog: best-effort default content per network
//! and data kind, used to bootstrap before any network access has occurred.

use vstd::prelude::*;

use crate::assets_or_icons::AssetsOrIcons;
use crate::json::{lemma_model_obj, obj_model, JsonModel, JsonValue};
use crate::params::ElementsNetwork;

verus! {

/// What the catalog holds for a network and a data kind. It is total and
/// deterministic: every pair gets a document, and absence of real data is an
/// empty collection under the key that names the data kind, never a failure.
pub open spec fn catalog(network: ElementsNetwork, what: AssetsOrIcons) -> JsonModel {
    match what {
        AssetsOrIcons::Assets => JsonModel::Obj(
            seq![("assets"@, JsonModel::Obj(Seq::empty()))],
        ),
        AssetsOrIcons::Icons => JsonModel::Obj(
            seq![("icons"@, JsonModel::Obj(Seq::empty()))],
        ),
    }
}

/// The catalog always yields an object, never the null document that marks a
/// default-constructed entry.
pub proof fn lemma_catalog_is_obj(network: ElementsNetwork, what: AssetsOrIcons)
    ensures
        catalog(network, what) is Obj,
        catalog(network, what) != JsonModel::Null,
{
}

/// The default content for a network and a data kind.
pub fn value(network: ElementsNetwork, what: AssetsOrIcons) -> (v: JsonValue)
    ensures
        v@ == catalog(network, what),
{
    let key: String = match what {
        AssetsOrIcons::Assets => "assets".to_owned(),
        AssetsOrIcons::Icons => "icons".to_owned(),
    };
    let ghost key_model: Seq<char> = key@;
    let mut fields: Vec<(String, JsonValue)> = Vec::new();
    fields.push((key, JsonValue::Obj(Vec::new())));
    let ghost fields_model = fields@;
    let v = JsonValue::Obj(fields);
    proof {
        lemma_model_obj(v);
        lemma_model_obj(fields_model[0].1);
        assert(obj_model(fields_model[0].1->Obj_0@) =~= Seq::<(Seq<char>, JsonModel)>::empty());
        assert(obj_model(fields_model) =~= seq![(key_model, JsonModel::Obj(Seq::empty()))]);
        assert(v@ == catalog(network, what));
    }
    v
}

} // verus!
