//! A structured, dynamically-shaped document: a tree of objects, arrays and
//! scalars, together with its mathematical model and structural equality.

use vstd::prelude::*;

verus! {

/// A JSON-like document. Numbers are signed 64-bit integers; an object keeps
/// its fields as an ordered list of key/value pairs.
#[derive(Debug)]
pub enum JsonValue {
    Null,
    Bool(bool),
    Int(i64),
    Str(String),
    Arr(Vec<JsonValue>),
    Obj(Vec<(String, JsonValue)>),
}

/// The mathematical shape of a [`JsonValue`]: the same tree over `int`,
/// `Seq<char>` and `Seq`.
pub enum JsonModel {
    Null,
    Bool(bool),
    Int(int),
    Str(Seq<char>),
    Arr(Seq<JsonModel>),
    Obj(Seq<(Seq<char>, JsonModel)>),
}

/// The model of a document: scalars keep their value, arrays and objects
/// become sequences of the models of their parts.
pub open spec fn json_model(v: JsonValue) -> JsonModel
    decreases v,
{
    match v {
        JsonValue::Null => JsonModel::Null,
        JsonValue::Bool(b) => JsonModel::Bool(b),
        JsonValue::Int(i) => JsonModel::Int(i as int),
        JsonValue::Str(s) => JsonModel::Str(s@),
        JsonValue::Arr(elems) => JsonModel::Arr(
            Seq::new(
                elems@.len(),
                |i: int|
                    if 0 <= i < elems@.len() {
                        json_model(elems@[i])
                    } else {
                        JsonModel::Null
                    },
            ),
        ),
        JsonValue::Obj(fields) => JsonModel::Obj(
            Seq::new(
                fields@.len(),
                |i: int|
                    if 0 <= i < fields@.len() {
                        (fields@[i].0@, json_model(fields@[i].1))
                    } else {
                        (Seq::empty(), JsonModel::Null)
                    },
            ),
        ),
    }
}

impl View for JsonValue {
    type V = JsonModel;

    open spec fn view(&self) -> JsonModel {
        json_model(*self)
    }
}

/// The models of the fields of an object, in order.
pub open spec fn obj_model(fields: Seq<(String, JsonValue)>) -> Seq<(Seq<char>, JsonModel)> {
    Seq::new(fields.len(), |i: int| (fields[i].0@, json_model(fields[i].1)))
}

/// The model of an object is the sequence of the models of its fields.
pub proof fn lemma_model_obj(v: JsonValue)
    requires
        v is Obj,
    ensures
        v@ == JsonModel::Obj(obj_model(v->Obj_0@)),
{
    assert(v@->Obj_0 =~= obj_model(v->Obj_0@));
}

/// The shape category of a document node, used to report what a typed
/// extraction expected against what it found.
#[derive(Debug, Clone, Copy, PartialEq, Eq, Structural)]
pub enum JsonKind {
    /// Any shape is acceptable here.
    Any,
    Null,
    Bool,
    Int,
    Str,
    Arr,
    Obj,
    /// A required field was missing altogether.
    Absent,
}

/// The shape category of a model node.
pub open spec fn kind_of(m: JsonModel) -> JsonKind {
    match m {
        JsonModel::Null => JsonKind::Null,
        JsonModel::Bool(_) => JsonKind::Bool,
        JsonModel::Int(_) => JsonKind::Int,
        JsonModel::Str(_) => JsonKind::Str,
        JsonModel::Arr(_) => JsonKind::Arr,
        JsonModel::Obj(_) => JsonKind::Obj,
    }
}

/// The shape category of a document node.
pub fn kind(v: &JsonValue) -> (k: JsonKind)
    ensures
        k == kind_of(v@),
{
    match v {
        JsonValue::Null => JsonKind::Null,
        JsonValue::Bool(_) => JsonKind::Bool,
        JsonValue::Int(_) => JsonKind::Int,
        JsonValue::Str(_) => JsonKind::Str,
        JsonValue::Arr(_) => JsonKind::Arr,
        JsonValue::Obj(_) => JsonKind::Obj,
    }
}

/// Structural equality of two documents: their models are the same tree.
fn json_eq(a: &JsonValue, b: &JsonValue) -> (r: bool)
    ensures
        r == (a@ == b@),
    decreases *a,
{
    match (a, b) {
        (JsonValue::Null, JsonValue::Null) => true,
        (JsonValue::Bool(x), JsonValue::Bool(y)) => x == y,
        (JsonValue::Int(x), JsonValue::Int(y)) => x == y,
        (JsonValue::Str(x), JsonValue::Str(y)) => x.eq(y),
        (JsonValue::Arr(x), JsonValue::Arr(y)) => {
            if x.len() != y.len() {
                assert(a@ != b@) by {
                    assert(a@->Arr_0.len() != b@->Arr_0.len());
                }
                return false;
            }
            let n = x.len();
            let mut i: usize = 0;
            while i < n
                invariant
                    n == x@.len(),
                    n == y@.len(),
                    i <= n,
                    *a == JsonValue::Arr(*x),
                    *b == JsonValue::Arr(*y),
                    forall|j: int| 0 <= j < i ==> json_model(x@[j]) == json_model(y@[j]),
                decreases n - i,
            {
                proof {
                    assert(decreases_to!(*a => x@[i as int])) by {
                        assert(*a == JsonValue::Arr(*x));
                        assert(decreases_to!(JsonValue::Arr(*x) => *x));
                        assert(decreases_to!(*x => x@));
                        assert(decreases_to!(x@ => x@[i as int]));
                    }
                }
                if !json_eq(&x[i], &y[i]) {
                    assert(a@ != b@) by {
                        assert(a@->Arr_0[i as int] == json_model(x@[i as int]));
                        assert(b@->Arr_0[i as int] == json_model(y@[i as int]));
                    }
                    return false;
                }
                i += 1;
            }
            assert(a@ == b@) by {
                assert(a@->Arr_0 =~= b@->Arr_0);
            }
            true
        },
        (JsonValue::Obj(x), JsonValue::Obj(y)) => {
            if x.len() != y.len() {
                assert(a@ != b@) by {
                    assert(a@->Obj_0.len() != b@->Obj_0.len());
                }
                return false;
            }
            let n = x.len();
            let mut i: usize = 0;
            while i < n
                invariant
                    n == x@.len(),
                    n == y@.len(),
                    i <= n,
                    *a == JsonValue::Obj(*x),
                    *b == JsonValue::Obj(*y),
                    forall|j: int| 0 <= j < i ==> x@[j].0@ == y@[j].0@ && json_model(x@[j].1)
                        == json_model(y@[j].1),
                decreases n - i,
            {
                if !(x[i].0 == y[i].0) {
                    assert(a@ != b@) by {
                        assert(a@->Obj_0[i as int].0 == x@[i as int].0@);
                        assert(b@->Obj_0[i as int].0 == y@[i as int].0@);
                    }
                    return false;
                }
                proof {
                    assert(decreases_to!(*a => x@[i as int].1)) by {
                        assert(*a == JsonValue::Obj(*x));
                        assert(decreases_to!(JsonValue::Obj(*x) => *x));
                        assert(decreases_to!(*x => x@));
                        assert(decreases_to!(x@ => x@[i as int]));
                        assert(decreases_to!(x@[i as int] => x@[i as int].1));
                    }
                }
                if !json_eq(&x[i].1, &y[i].1) {
                    assert(a@ != b@) by {
                        assert(a@->Obj_0[i as int].1 == json_model(x@[i as int].1));
                        assert(b@->Obj_0[i as int].1 == json_model(y@[i as int].1));
                    }
                    return false;
                }
                i += 1;
            }
            assert(a@ == b@) by {
                assert(a@->Obj_0 =~= b@->Obj_0);
            }
            true
        },
        _ => {
            assert(a@ != b@);
            false
        },
    }
}

impl PartialEq for JsonValue {
    fn eq(&self, other: &JsonValue) -> (r: bool) {
        json_eq(self, other)
    }
}

impl Eq for JsonValue {

}

impl vstd::std_specs::cmp::PartialEqSpecImpl for JsonValue {
    open spec fn obeys_eq_spec() -> bool {
        true
    }

    open spec fn eq_spec(&self, other: &JsonValue) -> bool {
        self@ == other@
    }
}

} // verus!
