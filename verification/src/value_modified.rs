//! The versioned cache entry: one cached document together with its
//! revalidation marker.

use vstd::prelude::*;
use vstd::std_specs::cmp::PartialEqSpec;

use crate::assets_or_icons::AssetsOrIcons;
use crate::error::{DeserializationError, ErrorModel};
use crate::hard_coded;
use crate::json::{JsonModel, JsonValue};
use crate::params::ElementsNetwork;
use crate::typed::FromJson;

verus! {

/// The model of a cache entry: the document it holds and its marker.
pub struct EntryModel {
    pub value: JsonModel,
    pub marker: Seq<char>,
}

/// One cached registry document and the opaque marker under which it was last
/// fetched. The marker gates conditional re-fetching downstream and is fully
/// significant in equality; an empty marker is the legitimate "never fetched"
/// state, not an error. Entries are immutable: an update is a replacement.
#[derive(Debug)]
pub struct ValueModified {
    /// The JSON document containing the assets or icons infos.
    value: JsonValue,
    /// The opaque revalidation marker; empty when never fetched.
    last_modified: String,
}

impl View for ValueModified {
    type V = EntryModel;

    closed spec fn view(&self) -> EntryModel {
        EntryModel { value: self.value@, marker: self.last_modified@ }
    }
}

impl ValueModified {
    /// Wraps a document and its revalidation marker. Total: any well-formed
    /// document and any marker, the empty one included, are accepted as they
    /// are.
    pub fn new(value: JsonValue, last_modified: String) -> (entry: Self)
        ensures
            entry@ == (EntryModel { value: value@, marker: last_modified@ }),
    {
        ValueModified { value, last_modified }
    }

    /// Builds the no-network bootstrap entry for a network and a data kind
    /// from the hard-coded catalog. It never fails, and the marker is left
    /// empty so that the next fetch is treated as not yet validated.
    pub fn from_hard_coded(network: ElementsNetwork, what: AssetsOrIcons) -> (entry: Self)
        ensures
            entry@ == (EntryModel {
                value: hard_coded::catalog(network, what),
                marker: Seq::empty(),
            }),
    {
        ValueModified { value: hard_coded::value(network, what), last_modified: String::new() }
    }

    /// Consumes the entry and interprets its document as a `T`. On a
    /// mismatched shape it reports exactly where the document fell short;
    /// the untyped entry is gone either way, so stale untyped data cannot be
    /// reused after a typed view has been taken.
    pub fn deserialize_into<T: FromJson>(self) -> (r: Result<T, DeserializationError>)
        ensures
            match r {
                Ok(t) => T::decode_spec(self@.value) == Result::<T::V, ErrorModel>::Ok(t@),
                Err(e) => T::decode_spec(self@.value) == Result::<T::V, ErrorModel>::Err(e@),
            },
    {
        T::from_json(self.value)
    }

    /// Surrenders the document and the marker to the caller, consuming the
    /// entry.
    pub fn into_parts(self) -> (parts: (JsonValue, String))
        ensures
            parts.0@ == self@.value,
            parts.1@ == self@.marker,
    {
        (self.value, self.last_modified)
    }

    /// The revalidation marker, by read-only reference.
    pub fn last_modified(&self) -> (marker: &str)
        ensures
            marker@ == self@.marker,
    {
        self.last_modified.as_str()
    }
}

impl Default for ValueModified {
    /// The "no data yet" entry: a null document and an empty marker.
    fn default() -> (entry: Self)
        ensures
            entry@ == (EntryModel { value: JsonModel::Null, marker: Seq::empty() }),
    {
        ValueModified { value: JsonValue::Null, last_modified: String::new() }
    }
}

impl PartialEq for ValueModified {
    fn eq(&self, other: &Self) -> (r: bool) {
        self.value == other.value && self.last_modified.eq(&other.last_modified)
    }
}

impl Eq for ValueModified {

}

impl vstd::std_specs::cmp::PartialEqSpecImpl for ValueModified {
    open spec fn obeys_eq_spec() -> bool {
        true
    }

    open spec fn eq_spec(&self, other: &Self) -> bool {
        self@ == other@
    }
}

/// Equality of entries is exactly structural equality of the document and
/// equality of the marker: two explicitly constructed entries are equal iff
/// both inputs were, and nothing else influences it.
pub proof fn lemma_construct_equality(
    a: ValueModified,
    b: ValueModified,
    v1: JsonValue,
    m1: String,
    v2: JsonValue,
    m2: String,
)
    requires
        a@ == (EntryModel { value: v1@, marker: m1@ }),
        b@ == (EntryModel { value: v2@, marker: m2@ }),
    ensures
        a.eq_spec(&b) <==> (v1@ == v2@ && m1@ == m2@),
{
}

/// A default-constructed entry equals one explicitly constructed from the
/// null document and an empty marker, and differs from every fallback entry,
/// whose document is an object out of the catalog.
pub proof fn lemma_default_entry(
    d: ValueModified,
    c: ValueModified,
    f: ValueModified,
    network: ElementsNetwork,
    what: AssetsOrIcons,
)
    requires
        d@ == (EntryModel { value: JsonModel::Null, marker: Seq::empty() }),
        c@ == (EntryModel { value: crate::json::json_model(JsonValue::Null), marker: Seq::empty() }),
        f@ == (EntryModel { value: hard_coded::catalog(network, what), marker: Seq::empty() }),
    ensures
        d.eq_spec(&c),
        !d.eq_spec(&f),
{
    hard_coded::lemma_catalog_is_obj(network, what);
}

/// Fallback construction is deterministic: two entries built from the same
/// network and data kind are equal.
pub proof fn lemma_fallback_deterministic(
    a: ValueModified,
    b: ValueModified,
    network: ElementsNetwork,
    what: AssetsOrIcons,
)
    requires
        a@ == (EntryModel { value: hard_coded::catalog(network, what), marker: Seq::empty() }),
        b@ == (EntryModel { value: hard_coded::catalog(network, what), marker: Seq::empty() }),
    ensures
        a.eq_spec(&b),
{
}

} // verus!
