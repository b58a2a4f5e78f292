use vstd::prelude::*;

verus! {

/// The mathematical shape of one JSON-like tree value: null, boolean, number,
/// string, ordered sequence, or ordered mapping from key to value.
/// `serde_json::Number` is carried opaquely; the document logic never reads
/// inside a number.
#[verifier::ext_equal]
pub enum ValueModel {
    Null,
    Bool(bool),
    Num(serde_json::Number),
    Str(Seq<char>),
    Arr(Seq<ValueModel>),
    Object(FieldsModel),
}

/// The mathematical shape of one object region: its key-value pairs in
/// insertion order.
pub type FieldsModel = Seq<(Seq<char>, ValueModel)>;

/// Whether the object `m` holds the key `k`.
pub open spec fn obj_has(m: FieldsModel, k: Seq<char>) -> bool {
    exists|i: int| 0 <= i < m.len() && m[i].0 == k
}

/// The position of key `k` in `m`; meaningful when `obj_has(m, k)` and the
/// keys of `m` are unique.
pub open spec fn obj_idx(m: FieldsModel, k: Seq<char>) -> int {
    choose|i: int| 0 <= i < m.len() && m[i].0 == k
}

/// The value stored under key `k`; meaningful when `obj_has(m, k)`.
pub open spec fn obj_get(m: FieldsModel, k: Seq<char>) -> ValueModel {
    m[obj_idx(m, k)].1
}

/// Writing `v` under `k`: an absent key is appended at the end, a present key
/// is overwritten in place, its position unchanged.
pub open spec fn obj_set(m: FieldsModel, k: Seq<char>, v: ValueModel) -> FieldsModel {
    if obj_has(m, k) {
        m.update(obj_idx(m, k), (k, v))
    } else {
        m.push((k, v))
    }
}

/// No key occurs twice in `m`.
pub open spec fn keys_unique(m: FieldsModel) -> bool {
    forall|i: int, j: int| 0 <= i < j < m.len() ==> m[i].0 != m[j].0
}

/// Every object nested anywhere inside `v` has unique keys.
pub open spec fn value_wf(v: ValueModel) -> bool
    decreases v,
{
    match v {
        ValueModel::Arr(items) => forall|i: int|
            0 <= i < items.len() ==> value_wf(#[trigger] items[i]),
        ValueModel::Object(fields) => fields_wf(fields),
        _ => true,
    }
}

/// The keys of `m` are unique and every stored value is itself well formed.
pub open spec fn fields_wf(m: FieldsModel) -> bool
    decreases m,
{
    keys_unique(m) && forall|i: int| 0 <= i < m.len() ==> value_wf(#[trigger] m[i].1)
}

/// Whether every chain of nested containers (arrays and objects) inside `v`
/// is shorter than `n`: a scalar needs nothing, a container needs `n >= 1`
/// and its elements below `n - 1`.
pub open spec fn value_depth_below(v: ValueModel, n: int) -> bool
    decreases v,
{
    match v {
        ValueModel::Arr(items) => n >= 1 && forall|i: int|
            0 <= i < items.len() ==> value_depth_below(#[trigger] items[i], n - 1),
        ValueModel::Object(fields) => fields_depth_below(fields, n),
        _ => true,
    }
}

/// Whether the object `m`, counted as one container, nests at most `n`
/// containers deep.
pub open spec fn fields_depth_below(m: FieldsModel, n: int) -> bool
    decreases m,
{
    n >= 1 && forall|i: int| 0 <= i < m.len() ==> value_depth_below(#[trigger] m[i].1, n - 1)
}

/// Reading `k` with a fallback `v`: a present key returns the stored value
/// and leaves the object unchanged; an absent key appends `(k, v)` and
/// returns `v`. The pair is (object afterwards, value returned).
pub open spec fn obj_get_or_insert(m: FieldsModel, k: Seq<char>, v: ValueModel) -> (
    FieldsModel,
    ValueModel,
) {
    if obj_has(m, k) {
        (m, obj_get(m, k))
    } else {
        (m.push((k, v)), v)
    }
}

/// Under unique keys, a witness position for `k` is the position `obj_idx`
/// names.
pub proof fn lemma_idx_of(m: FieldsModel, k: Seq<char>, i: int)
    requires
        keys_unique(m),
        0 <= i < m.len(),
        m[i].0 == k,
    ensures
        obj_has(m, k),
        obj_idx(m, k) == i,
{
    assert(obj_has(m, k));
    let w = obj_idx(m, k);
    assert(0 <= w < m.len() && m[w].0 == k);
    if w < i {
        assert(m[w].0 != m[i].0);
    } else if i < w {
        assert(m[i].0 != m[w].0);
    }
}

} // verus!
