use vstd::prelude::*;

use crate::model::{
    keys_unique, lemma_idx_of, obj_get, obj_get_or_insert, obj_has, obj_idx, obj_set,
    FieldsModel, ValueModel,
};

verus! {

/// Writing a key and reading it back yields the written value, whether the
/// key was absent (insert) or present (overwrite).
pub proof fn lemma_set_then_get(m: FieldsModel, k: Seq<char>, v: ValueModel)
    requires
        keys_unique(m),
    ensures
        obj_has(obj_set(m, k, v), k),
        obj_get(obj_set(m, k, v), k) == v,
{
    let m1 = obj_set(m, k, v);
    if obj_has(m, k) {
        let i = obj_idx(m, k);
        assert(0 <= i < m.len() && m[i].0 == k);
        assert(keys_unique(m1));
        lemma_idx_of(m1, k, i);
    } else {
        lemma_idx_of(m1, k, m.len() as int);
    }
}

/// Overwriting a present key changes nothing but the value stored there: the
/// object keeps its length, the key keeps its position in insertion order,
/// and every other entry is untouched.
pub proof fn lemma_overwrite_keeps_order(m: FieldsModel, k: Seq<char>, v: ValueModel)
    requires
        keys_unique(m),
        obj_has(m, k),
    ensures
        obj_set(m, k, v).len() == m.len(),
        obj_idx(obj_set(m, k, v), k) == obj_idx(m, k),
        forall|j: int| 0 <= j < m.len() && j != obj_idx(m, k) ==> obj_set(m, k, v)[j] == m[j],
        keys_unique(obj_set(m, k, v)),
{
    let i = obj_idx(m, k);
    assert(0 <= i < m.len() && m[i].0 == k);
    let m1 = obj_set(m, k, v);
    assert(forall|j: int| 0 <= j < m.len() ==> m1[j].0 == m[j].0);
    assert(keys_unique(m1));
    lemma_idx_of(m1, k, i);
}

/// Writing an absent key appends it at the end and leaves every existing
/// entry untouched, in place.
pub proof fn lemma_insert_appends(m: FieldsModel, k: Seq<char>, v: ValueModel)
    requires
        keys_unique(m),
        !obj_has(m, k),
    ensures
        obj_set(m, k, v).len() == m.len() + 1,
        obj_set(m, k, v)[m.len() as int] == (k, v),
        forall|j: int| 0 <= j < m.len() ==> obj_set(m, k, v)[j] == m[j],
        keys_unique(obj_set(m, k, v)),
        obj_idx(obj_set(m, k, v), k) == m.len(),
{
    let m1 = obj_set(m, k, v);
    assert(forall|j: int| 0 <= j < m.len() ==> m1[j] == m[j]);
    assert(keys_unique(m1));
    lemma_idx_of(m1, k, m.len() as int);
}

/// A key not written keeps its presence and its value across any write to
/// another key.
pub proof fn lemma_set_keeps_others(m: FieldsModel, k: Seq<char>, v: ValueModel, k2: Seq<char>)
    requires
        keys_unique(m),
        k2 != k,
    ensures
        obj_has(obj_set(m, k, v), k2) == obj_has(m, k2),
        obj_has(m, k2) ==> obj_get(obj_set(m, k, v), k2) == obj_get(m, k2),
{
    let m1 = obj_set(m, k, v);
    if obj_has(m, k) {
        lemma_overwrite_keeps_order(m, k, v);
    } else {
        lemma_insert_appends(m, k, v);
    }
    if obj_has(m, k2) {
        let j = obj_idx(m, k2);
        assert(0 <= j < m.len() && m[j].0 == k2);
        assert(m1[j] == m[j]);
        lemma_idx_of(m1, k2, j);
    }
    if obj_has(m1, k2) {
        let j = obj_idx(m1, k2);
        assert(0 <= j < m1.len() && m1[j].0 == k2);
        assert(j < m.len());
        assert(m[j].0 == k2);
    }
}

/// Reading with a fallback is idempotent: the first call on an absent key
/// stores and returns the fallback; a second call with any other fallback
/// returns the first stored value, unchanged, and changes nothing.
pub proof fn lemma_read_or_insert_idempotent(
    m: FieldsModel,
    k: Seq<char>,
    v1: ValueModel,
    v2: ValueModel,
)
    requires
        keys_unique(m),
        !obj_has(m, k),
    ensures
        obj_get_or_insert(m, k, v1).1 == v1,
        obj_get_or_insert(obj_get_or_insert(m, k, v1).0, k, v2) == (
            obj_get_or_insert(m, k, v1).0,
            v1,
        ),
{
    let m1 = obj_get_or_insert(m, k, v1).0;
    assert(m1 == m.push((k, v1)));
    assert(m1 == obj_set(m, k, v1));
    lemma_insert_appends(m, k, v1);
    lemma_idx_of(m1, k, m.len() as int);
    assert(obj_has(m1, k));
    assert(obj_get(m1, k) == v1);
}

} // verus!
