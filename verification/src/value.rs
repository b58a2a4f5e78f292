use vstd::prelude::*;

use crate::error::{Error, KEY_NOT_FOUND, NOT_AN_OBJECT};
use crate::model::{
    fields_wf, keys_unique, obj_get, obj_has, obj_idx, obj_set, value_wf, lemma_idx_of,
    FieldsModel, ValueModel,
};

verus! {

broadcast use vstd::std_specs::vec::group_vec_axioms;

/// One JSON-like tree value. The object variant preserves insertion order and
/// keeps its keys unique; see [`JObject`].
#[derive(Debug)]
pub enum Value {
    Null,
    Bool(bool),
    Num(serde_json::Number),
    Str(String),
    Arr(Vec<Value>),
    Object(JObject),
}

/// An insertion-order-preserving, key-unique mapping from string keys to
/// [`Value`]s: the shape of the document root and of every section.
#[derive(Debug)]
pub struct JObject {
    entries: Vec<(String, Value)>,
}

/// The abstraction of a [`Value`].
pub open spec fn value_model(v: Value) -> ValueModel
    decreases v,
    via value_model_dec
{
    match v {
        Value::Null => ValueModel::Null,
        Value::Bool(b) => ValueModel::Bool(b),
        Value::Num(n) => ValueModel::Num(n),
        Value::Str(s) => ValueModel::Str(s@),
        Value::Arr(items) => ValueModel::Arr(
            Seq::new(
                items@.len(),
                |i: int|
                    if 0 <= i < items@.len() {
                        value_model(items@[i])
                    } else {
                        ValueModel::Null
                    },
            ),
        ),
        Value::Object(o) => ValueModel::Object(obj_model(o)),
    }
}

/// The abstraction of a [`JObject`].
pub closed spec fn obj_model(o: JObject) -> FieldsModel
    decreases o,
    via obj_model_dec
{
    entries_model(o.entries@)
}

#[via_fn]
proof fn obj_model_dec(o: JObject) {
    assert(decreases_to!(o => o.entries));
    assert(decreases_to!(o.entries => o.entries@));
}

#[via_fn]
proof fn value_model_dec(v: Value) {
    match v {
        Value::Arr(items) => {
            assert forall|i: int| 0 <= i < items@.len() implies decreases_to!(v => items@[i]) by {
                assert(decreases_to!(v => items));
                assert(decreases_to!(items => items[i]));
            }
        },
        Value::Object(o) => {
            assert(decreases_to!(v => o));
        },
        _ => {},
    }
}

/// The abstraction of an entry vector: each key as its characters, each value
/// as its model.
pub closed spec fn entries_model(es: Seq<(String, Value)>) -> FieldsModel
    decreases es,
    via entries_model_dec
{
    Seq::new(
        es.len(),
        |i: int|
            if 0 <= i < es.len() {
                (es[i].0@, value_model(es[i].1))
            } else {
                (Seq::<char>::empty(), ValueModel::Null)
            },
    )
}

#[via_fn]
proof fn entries_model_dec(es: Seq<(String, Value)>) {
    broadcast use vstd::seq::group_seq_axioms;

    assert forall|i: int| 0 <= i < es.len() implies decreases_to!(es => es[i].1) by {
        assert(decreases_to!(es => es[i]));
        assert(decreases_to!(es[i] => es[i].1));
    }
}

impl View for Value {
    type V = ValueModel;

    open spec fn view(&self) -> ValueModel {
        value_model(*self)
    }
}

impl View for JObject {
    type V = FieldsModel;

    open spec fn view(&self) -> FieldsModel {
        obj_model(*self)
    }
}

impl JObject {
    /// Unique keys at this level, and every stored value well formed.
    pub open spec fn wf(&self) -> bool {
        fields_wf(self@)
    }

    /// The empty object.
    pub fn new() -> (r: JObject)
        ensures
            r@ == Seq::<(Seq<char>, ValueModel)>::empty(),
            r.wf(),
    {
        let r = JObject { entries: Vec::new() };
        proof {
            assert(r@ =~= Seq::<(Seq<char>, ValueModel)>::empty());
        }
        r
    }

    /// Wraps an entry vector as an object; the codec uses this to carry a
    /// parsed `serde_json` object in.
    pub(crate) fn from_entries(entries: Vec<(String, Value)>) -> (r: JObject)
        ensures
            r@ == entries_model(entries@),
    {
        JObject { entries }
    }

    /// The entry vector itself; the codec uses this to carry the object out
    /// to `serde_json`.
    pub(crate) fn entry_pairs(&self) -> (r: &Vec<(String, Value)>)
        ensures
            entries_model(r@) == self@,
    {
        &self.entries
    }

    /// The position of `key`, if present.
    fn find(&self, key: &str) -> (r: Option<usize>)
        ensures
            match r {
                Some(i) => i < self@.len() && self@[i as int].0 == key@,
                None => !obj_has(self@, key@),
            },
    {
        let n = self.entries.len();
        let mut i: usize = 0;
        while i < n
            invariant
                n == self.entries@.len(),
                i <= n,
                forall|j: int| 0 <= j < i ==> self@[j].0 != key@,
            decreases n - i,
        {
            if crate::codec::str_eq(self.entries[i].0.as_str(), key) {
                return Some(i);
            }
            i += 1;
        }
        None
    }

    /// A borrow of the value stored under `key`, or `None` when absent.
    pub fn get(&self, key: &str) -> (r: Option<&Value>)
        requires
            self.wf(),
        ensures
            match r {
                Some(v) => obj_has(self@, key@) && v@ == obj_get(self@, key@),
                None => !obj_has(self@, key@),
            },
    {
        match self.find(key) {
            Some(i) => {
                proof {
                    lemma_idx_of(self@, key@, i as int);
                }
                Some(&self.entries[i].1)
            },
            None => None,
        }
    }

    /// Writes `value` under `key`: appended when absent, overwritten in place
    /// when present.
    pub fn set(&mut self, key: &str, value: Value)
        requires
            old(self).wf(),
            value_wf(value@),
        ensures
            final(self)@ == obj_set(old(self)@, key@, value@),
            final(self).wf(),
            obj_has(final(self)@, key@),
            obj_get(final(self)@, key@) == value@,
    {
        match self.find(key) {
            Some(i) => {
                proof {
                    lemma_idx_of(self@, key@, i as int);
                }
                let ghost m0 = self@;
                self.entries[i].1 = value;
                proof {
                    assert(self@ =~= obj_set(m0, key@, value@));
                    lemma_idx_of(self@, key@, i as int);
                }
            },
            None => {
                let ghost m0 = self@;
                self.entries.push((key.to_owned(), value));
                proof {
                    assert(self@ =~= m0.push((key@, value@)));
                    lemma_idx_of(self@, key@, m0.len() as int);
                }
            },
        }
    }

    /// Serializes `value` through the codec and writes the resulting tree
    /// under `key`: appended when the key is absent, overwritten in place when
    /// present; the object is untouched when serialization fails.
    pub fn write_value<V: serde::Serialize>(&mut self, key: &str, value: V) -> (r: Result<
        (),
        Error,
    >)
        requires
            old(self).wf(),
        ensures
            final(self).wf(),
            r is Ok ==> exists|m: ValueModel|
                final(self)@ == #[trigger] obj_set(old(self)@, key@, m) && value_wf(m),
            r is Ok ==> obj_has(final(self)@, key@),
            r is Err ==> final(self)@ == old(self)@ && r->Err_0 is Json,
    {
        match crate::codec::to_tree(&value) {
            Ok(v) => {
                self.set(key, v);
                Ok(())
            },
            Err(e) => Err(Error::Json(e)),
        }
    }

    /// Looks `key` up and deserializes the stored tree into `V`. Fails with
    /// the key-not-found error exactly when the key is absent; a present key
    /// can only fail with a codec error.
    pub fn read_value<V: serde::de::DeserializeOwned>(&self, key: &str) -> (r: Result<V, Error>)
        requires
            self.wf(),
        ensures
            !obj_has(self@, key@) ==> (r matches Err(e) && e.is_key_not_found()),
            obj_has(self@, key@) && r is Err ==> r->Err_0 is Json,
    {
        match self.get(key) {
            None => Err(Error::Config(KEY_NOT_FOUND)),
            Some(v) => match crate::codec::from_tree::<V>(v) {
                Ok(x) => Ok(x),
                Err(e) => Err(Error::Json(e)),
            },
        }
    }

    /// On an absent key, inserts the serialized `value` and returns `value`
    /// unchanged; on a present key, leaves the object untouched and returns
    /// the stored value deserialized.
    pub fn read_or_insert<V: serde::Serialize + serde::de::DeserializeOwned>(
        &mut self,
        key: &str,
        value: V,
    ) -> (r: Result<V, Error>)
        requires
            old(self).wf(),
        ensures
            final(self).wf(),
            obj_has(old(self)@, key@) ==> final(self)@ == old(self)@ && (r is Err ==> r->Err_0
                is Json),
            !obj_has(old(self)@, key@) ==> (r matches Ok(out) ==> out == value),
            !obj_has(old(self)@, key@) && r is Ok ==> exists|m: ValueModel|
                final(self)@ == #[trigger] obj_set(old(self)@, key@, m) && value_wf(m),
            !obj_has(old(self)@, key@) && r is Err ==> final(self)@ == old(self)@ && r->Err_0
                is Json,
    {
        match self.find(key) {
            Some(i) => {
                proof {
                    lemma_idx_of(self@, key@, i as int);
                }
                match crate::codec::from_tree::<V>(&self.entries[i].1) {
                    Ok(x) => Ok(x),
                    Err(e) => Err(Error::Json(e)),
                }
            },
            None => {
                match crate::codec::to_tree(&value) {
                    Ok(jv) => {
                        self.set(key, jv);
                        Ok(value)
                    },
                    Err(e) => Err(Error::Json(e)),
                }
            },
        }
    }

    /// Deserializes the value under `key`, applies `f_upd`, and writes the
    /// serialized output back under the same key, returning the output. Fails
    /// with the key-not-found error exactly when the key is absent; the
    /// object is untouched on every failure.
    #[verifier::spinoff_prover]
    #[verifier::rlimit(50)]
    pub fn update_value<V: serde::de::DeserializeOwned, Out: serde::Serialize, F: FnOnce(&V) -> Out>(
        &mut self,
        key: &str,
        f_upd: F,
    ) -> (r: Result<Out, Error>)
        requires
            old(self).wf(),
            forall|v: &V| call_requires(f_upd, (v,)),
        ensures
            final(self).wf(),
            !obj_has(old(self)@, key@) ==> final(self)@ == old(self)@ && (r matches Err(e)
                && e.is_key_not_found()),
            obj_has(old(self)@, key@) && r is Ok ==> exists|m: ValueModel|
                final(self)@ == #[trigger] obj_set(old(self)@, key@, m) && value_wf(m),
            r matches Ok(out) ==> exists|v: &V| call_ensures(f_upd, (v,), out),
            obj_has(old(self)@, key@) && r is Err ==> final(self)@ == old(self)@ && r->Err_0
                is Json,
    {
        match self.find(key) {
            None => Err(Error::Config(KEY_NOT_FOUND)),
            Some(i) => {
                proof {
                    lemma_idx_of(self@, key@, i as int);
                }
                let decoded: Result<V, serde_json::Error> = crate::codec::from_tree(
                    &self.entries[i].1,
                );
                match decoded {
                    Err(e) => Err(Error::Json(e)),
                    Ok(v) => {
                        let out = f_upd(&v);
                        proof {
                            assert(exists|w: &V| call_ensures(f_upd, (w,), out));
                        }
                        match crate::codec::to_tree(&out) {
                            Err(e) => Err(Error::Json(e)),
                            Ok(jv) => {
                                self.set(key, jv);
                                let r: Result<Out, Error> = Ok(out);
                                proof {
                                    assert(r matches Ok(o2) ==> o2 == out);
                                    assert(r matches Ok(o2) ==> exists|w: &V|
                                        call_ensures(f_upd, (w,), o2));
                                }
                                r
                            },
                        }
                    },
                }
            },
        }
    }

    /// A read-only borrow of the object stored under `key`. Fails with the
    /// key-not-found error exactly when the key is absent, and with the
    /// not-an-object error exactly when the stored value is not an object.
    pub fn get_obj(&self, key: &str) -> (r: Result<&JObject, Error>)
        requires
            self.wf(),
        ensures
            match r {
                Ok(sub) => obj_has(self@, key@) && obj_get(self@, key@) == ValueModel::Object(
                    sub@,
                ) && sub.wf(),
                Err(e) => {
                    &&& (e.is_key_not_found() || e.is_not_an_object())
                    &&& (e.is_key_not_found() <==> !obj_has(self@, key@))
                    &&& (e.is_not_an_object() <==> obj_has(self@, key@) && !(obj_get(self@, key@)
                        is Object))
                },
            },
    {
        proof {
            crate::error::lemma_messages_differ();
        }
        match self.find(key) {
            None => Err(Error::Config(KEY_NOT_FOUND)),
            Some(i) => {
                proof {
                    lemma_idx_of(self@, key@, i as int);
                }
                match &self.entries[i].1 {
                    Value::Object(o) => Ok(o),
                    _ => Err(Error::Config(NOT_AN_OBJECT)),
                }
            },
        }
    }

    /// A read-write borrow of the object stored under `key`; writes through
    /// the borrow are writes into this object. Fails with the key-not-found
    /// error exactly when the key is absent, and with the not-an-object error
    /// exactly when the stored value is not an object; the object is
    /// untouched on failure.
    pub fn get_section_mut(&mut self, key: &str) -> (r: Result<&mut JObject, Error>)
        requires
            old(self).wf(),
        ensures
            match r {
                Ok(sub) => {
                    &&& obj_has(old(self)@, key@)
                    &&& obj_get(old(self)@, key@) == ValueModel::Object((*sub)@)
                    &&& (*sub).wf()
                    &&& final(self)@ == obj_set(
                        old(self)@,
                        key@,
                        ValueModel::Object((*final(sub))@),
                    )
                    &&& (fields_wf((*final(sub))@) ==> final(self).wf())
                },
                Err(e) => {
                    &&& final(self)@ == old(self)@
                    &&& final(self).wf()
                    &&& (e.is_key_not_found() || e.is_not_an_object())
                    &&& (e.is_key_not_found() <==> !obj_has(old(self)@, key@))
                    &&& (e.is_not_an_object() <==> obj_has(old(self)@, key@) && !(obj_get(
                        old(self)@,
                        key@,
                    ) is Object))
                },
            },
    {
        proof {
            crate::error::lemma_messages_differ();
        }
        match self.find(key) {
            None => Err(Error::Config(KEY_NOT_FOUND)),
            Some(i) => {
                let ghost es0 = self.entries@;
                let ghost idx = i as int;
                proof {
                    lemma_idx_of(self@, key@, idx);
                    assert forall|p: (String, Value)| #![trigger es0.update(idx, p)]
                        entries_model(es0.update(idx, p)) == entries_model(es0).update(
                        idx,
                        (p.0@, value_model(p.1)),
                    ) by {
                        assert(entries_model(es0.update(idx, p)) =~= entries_model(es0).update(
                            idx,
                            (p.0@, value_model(p.1)),
                        ));
                    }
                }
                let entry = &mut self.entries[i];
                match &mut entry.1 {
                    Value::Object(o) => Ok(o),
                    _ => Err(Error::Config(NOT_AN_OBJECT)),
                }
            },
        }
    }

    /// Replaces every entry of this object with the entries of `data`, in the
    /// order given; the aliasing of this object with its owner is kept.
    pub fn copy_from(&mut self, data: JObject)
        requires
            data.wf(),
        ensures
            final(self)@ == data@,
            final(self).wf(),
    {
        self.entries = data.entries;
    }

    /// A deep, fully independent copy of this object.
    pub fn clone_data(&self) -> (r: JObject)
        ensures
            r@ == self@,
        decreases self,
    {
        let mut out: Vec<(String, Value)> = Vec::new();
        let n = self.entries.len();
        let mut i: usize = 0;
        while i < n
            invariant
                n == self.entries@.len(),
                i <= n,
                out@.len() == i,
                forall|j: int| 0 <= j < i ==> #[trigger] out@[j].0@ == self.entries@[j].0@,
                forall|j: int| 0 <= j < i ==> #[trigger] out@[j].1@ == self.entries@[j].1@,
            decreases n - i,
        {
            let key = self.entries[i].0.clone();
            let val = self.entries[i].1.deep_clone();
            let ghost prev = out@;
            out.push((key, val));
            proof {
                assert forall|j: int| 0 <= j < i + 1 implies #[trigger] out@[j].0@
                    == self.entries@[j].0@ by {
                    if j < i {
                        assert(out@[j] == prev[j]);
                    }
                }
                assert forall|j: int| 0 <= j < i + 1 implies #[trigger] out@[j].1@
                    == self.entries@[j].1@ by {
                    if j < i {
                        assert(out@[j] == prev[j]);
                    }
                }
            }
            i += 1;
        }
        let ghost outv = out@;
        let r = JObject { entries: out };
        proof {
            assert forall|j: int| 0 <= j < outv.len() implies entries_model(outv)[j]
                == entries_model(self.entries@)[j] by {
                assert(outv[j].0@ == self.entries@[j].0@);
                assert(outv[j].1@ == self.entries@[j].1@);
            }
            assert(entries_model(outv) =~= entries_model(self.entries@));
            assert(r@ == self@);
        }
        r
    }
}

impl Value {
    /// A deep, fully independent copy of this value.
    pub fn deep_clone(&self) -> (r: Value)
        ensures
            r@ == self@,
        decreases self,
    {
        match self {
            Value::Null => Value::Null,
            Value::Bool(b) => Value::Bool(*b),
            Value::Num(n) => Value::Num(crate::codec::clone_number(n)),
            Value::Str(s) => Value::Str(s.clone()),
            Value::Arr(items) => {
                let mut out: Vec<Value> = Vec::new();
                let n = items.len();
                let mut i: usize = 0;
                while i < n
                    invariant
                        *self == Value::Arr(*items),
                        n == items@.len(),
                        i <= n,
                        out@.len() == i,
                        forall|j: int| 0 <= j < i ==> #[trigger] out@[j]@ == items@[j]@,
                    decreases n - i,
                {
                    proof {
                        let v0 = *self;
                        match v0 {
                            Value::Arr(its) => {
                                assert(decreases_to!(v0 => its));
                                assert(its == *items);
                            },
                            _ => {},
                        }
                        assert(decreases_to!(*items => items@[i as int]));
                    }
                    out.push(items[i].deep_clone());
                    i += 1;
                }
                let ghost outsq = out@;
                let r = Value::Arr(out);
                proof {
                    assert(self->Arr_0 == *items);
                    assert forall|j: int| 0 <= j < outsq.len() implies value_model(outsq[j])
                        == value_model(items@[j]) by {
                        assert(outsq[j]@ == items@[j]@);
                    }
                    assert(r@->Arr_0 =~= self@->Arr_0);
                    assert(r@ =~~= self@);
                }
                r
            },
            Value::Object(o) => Value::Object(o.clone_data()),
        }
    }
}

} // verus!
