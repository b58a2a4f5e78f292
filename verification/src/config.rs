use vstd::prelude::*;

use crate::codec::{parsed_fields, rendered_text};
use crate::error::Error;
use crate::model::{
    fields_depth_below, fields_wf, obj_get, obj_has, obj_set, value_wf, FieldsModel, ValueModel,
};
use crate::value::JObject;

verus! {

/// The root of an open document: the whole tree, owned. The backing file is
/// handled by the caller, who loads the document with [`Config::from_text`]
/// and writes back what [`Config::render`] returns.
#[derive(Debug)]
pub struct Config {
    data: JObject,
}

/// A read-only view over one nested object of a document; it borrows the
/// owner's storage rather than copying it. The read-write counterpart of this
/// view is a `&mut JObject` returned by `get_section_mut`.
#[derive(Debug)]
pub struct Section<'a> {
    data: &'a JObject,
}

impl View for Config {
    type V = FieldsModel;

    closed spec fn view(&self) -> FieldsModel {
        self.data@
    }
}

impl<'a> View for Section<'a> {
    type V = FieldsModel;

    closed spec fn view(&self) -> FieldsModel {
        self.data@
    }
}

impl Config {
    /// Unique keys in the root and in every nested object.
    pub open spec fn wf(&self) -> bool {
        fields_wf(self@)
    }

    /// Loads a document from the full text of its file: empty text is the
    /// empty document, anything else must parse as a JSON object.
    pub fn from_text(s: &str) -> (r: Result<Config, Error>)
        ensures
            s@.len() == 0 ==> (r matches Ok(c) && c@ == Seq::<(Seq<char>, ValueModel)>::empty()),
            s@.len() > 0 ==> match r {
                Ok(c) => parsed_fields(s@) == Some(c@),
                Err(e) => parsed_fields(s@) is None && e is Json,
            },
            r matches Ok(c) ==> c.wf(),
    {
        if s.is_empty() {
            Ok(Config { data: JObject::new() })
        } else {
            match crate::codec::parse_json(s) {
                Ok(o) => Ok(Config { data: o }),
                Err(e) => Err(Error::Json(e)),
            }
        }
    }

    /// Renders the current tree as pretty-printed JSON text: the full
    /// contents the backing file is to be overwritten with. Rendering always
    /// succeeds, with the same text for the same tree; as long as the tree
    /// stays under the parser's nesting limit, the text parses back to the
    /// current tree, so a document saved and reopened holds the same keys and
    /// values.
    pub fn render(&self) -> (r: Result<String, Error>)
        requires
            self.wf(),
        ensures
            r matches Ok(t) && t@ == rendered_text(self@) && t@.len() > 0,
            r matches Ok(t) ==> (fields_depth_below(self@, 127) ==> parsed_fields(t@) == Some(
                self@,
            )),
    {
        match crate::codec::render_json(&self.data) {
            Ok(t) => Ok(t),
            Err(e) => Err(Error::Json(e)),
        }
    }

    /// Serializes `value` and writes it under `key`: inserted at the end when
    /// absent, overwritten in place when present.
    pub fn write_value<V: serde::Serialize>(&mut self, key: &str, value: V) -> (r: Result<
        (),
        Error,
    >)
        requires
            old(self).wf(),
        ensures
            final(self).wf(),
            r is Ok ==> exists|m: ValueModel|
                final(self)@ == #[trigger] obj_set(old(self)@, key@, m) && value_wf(m),
            r is Ok ==> obj_has(final(self)@, key@),
            r is Err ==> final(self)@ == old(self)@ && r->Err_0 is Json,
    {
        self.data.write_value(key, value)
    }

    /// Reads the value under `key`, deserialized into `V`. Fails with the
    /// key-not-found error exactly when the key is absent.
    pub fn read_value<V: serde::de::DeserializeOwned>(&self, key: &str) -> (r: Result<V, Error>)
        requires
            self.wf(),
        ensures
            !obj_has(self@, key@) ==> (r matches Err(e) && e.is_key_not_found()),
            obj_has(self@, key@) && r is Err ==> r->Err_0 is Json,
    {
        self.data.read_value(key)
    }

    /// On an absent key, inserts the serialized `value` and returns `value`
    /// unchanged; on a present key, returns the stored value instead and
    /// leaves the document untouched.
    pub fn read_or_insert<V: serde::Serialize + serde::de::DeserializeOwned>(
        &mut self,
        key: &str,
        value: V,
    ) -> (r: Result<V, Error>)
        requires
            old(self).wf(),
        ensures
            final(self).wf(),
            obj_has(old(self)@, key@) ==> final(self)@ == old(self)@ && (r is Err ==> r->Err_0
                is Json),
            !obj_has(old(self)@, key@) ==> (r matches Ok(out) ==> out == value),
            !obj_has(old(self)@, key@) && r is Ok ==> exists|m: ValueModel|
                final(self)@ == #[trigger] obj_set(old(self)@, key@, m) && value_wf(m),
            !obj_has(old(self)@, key@) && r is Err ==> final(self)@ == old(self)@ && r->Err_0
                is Json,
    {
        self.data.read_or_insert(key, value)
    }

    /// Deserializes the value under `key`, applies `f_upd`, writes the output
    /// back under the same key and returns it. Fails with the key-not-found
    /// error exactly when the key is absent; the document is untouched on
    /// every failure.
    pub fn update_value<V: serde::de::DeserializeOwned, Out: serde::Serialize, F: FnOnce(&V) -> Out>(
        &mut self,
        key: &str,
        f_upd: F,
    ) -> (r: Result<Out, Error>)
        requires
            old(self).wf(),
            forall|v: &V| call_requires(f_upd, (v,)),
        ensures
            final(self).wf(),
            !obj_has(old(self)@, key@) ==> final(self)@ == old(self)@ && (r matches Err(e)
                && e.is_key_not_found()),
            obj_has(old(self)@, key@) && r is Ok ==> exists|m: ValueModel|
                final(self)@ == #[trigger] obj_set(old(self)@, key@, m) && value_wf(m),
            r matches Ok(out) ==> exists|v: &V| call_ensures(f_upd, (v,), out),
            obj_has(old(self)@, key@) && r is Err ==> final(self)@ == old(self)@ && r->Err_0
                is Json,
    {
        self.data.update_value(key, f_upd)
    }

    /// A read-only section over the object stored at `key`. Fails with the
    /// key-not-found error exactly when the key is absent, and with the
    /// not-an-object error exactly when the stored value is not an object.
    pub fn get_section(&self, key: &str) -> (r: Result<Section<'_>, Error>)
        requires
            self.wf(),
        ensures
            match r {
                Ok(sect) => obj_has(self@, key@) && obj_get(self@, key@) == ValueModel::Object(
                    sect@,
                ) && sect.wf(),
                Err(e) => {
                    &&& (e.is_key_not_found() || e.is_not_an_object())
                    &&& (e.is_key_not_found() <==> !obj_has(self@, key@))
                    &&& (e.is_not_an_object() <==> obj_has(self@, key@) && !(obj_get(self@, key@)
                        is Object))
                },
            },
    {
        match self.data.get_obj(key) {
            Ok(o) => Ok(Section { data: o }),
            Err(e) => Err(e),
        }
    }

    /// A read-write section over the object stored at `key`: every write
    /// through the returned borrow is a write into this document, visible
    /// through it as soon as the borrow ends. Fails as `get_section` does.
    pub fn get_section_mut(&mut self, key: &str) -> (r: Result<&mut JObject, Error>)
        requires
            old(self).wf(),
        ensures
            match r {
                Ok(sub) => {
                    &&& obj_has(old(self)@, key@)
                    &&& obj_get(old(self)@, key@) == ValueModel::Object((*sub)@)
                    &&& (*sub).wf()
                    &&& final(self)@ == obj_set(
                        old(self)@,
                        key@,
                        ValueModel::Object((*final(sub))@),
                    )
                    &&& (fields_wf((*final(sub))@) ==> final(self).wf())
                },
                Err(e) => {
                    &&& final(self)@ == old(self)@
                    &&& final(self).wf()
                    &&& (e.is_key_not_found() || e.is_not_an_object())
                    &&& (e.is_key_not_found() <==> !obj_has(old(self)@, key@))
                    &&& (e.is_not_an_object() <==> obj_has(old(self)@, key@) && !(obj_get(
                        old(self)@,
                        key@,
                    ) is Object))
                },
            },
    {
        self.data.get_section_mut(key)
    }

    /// A deep, fully independent copy of the whole tree.
    pub fn clone_data(&self) -> (r: JObject)
        ensures
            r@ == self@,
    {
        self.data.clone_data()
    }

    /// Discards the current tree and substitutes `data` wholesale; the file
    /// is untouched until the next save.
    pub fn copy_from(&mut self, data: JObject)
        requires
            data.wf(),
        ensures
            final(self)@ == data@,
            final(self).wf(),
    {
        self.data.copy_from(data)
    }
}

impl<'a> Section<'a> {
    /// Unique keys in this section and in every object nested below it.
    pub open spec fn wf(&self) -> bool {
        fields_wf(self@)
    }

    /// Reads the value under `key`, deserialized into `V`. Fails with the
    /// key-not-found error exactly when the key is absent.
    pub fn read_value<V: serde::de::DeserializeOwned>(&self, key: &str) -> (r: Result<V, Error>)
        requires
            self.wf(),
        ensures
            !obj_has(self@, key@) ==> (r matches Err(e) && e.is_key_not_found()),
            obj_has(self@, key@) && r is Err ==> r->Err_0 is Json,
    {
        self.data.read_value(key)
    }

    /// A read-only section over the object stored at `key` of this section.
    /// Fails as `Config::get_section` does.
    pub fn get_section(&self, key: &str) -> (r: Result<Section<'a>, Error>)
        requires
            self.wf(),
        ensures
            match r {
                Ok(sect) => obj_has(self@, key@) && obj_get(self@, key@) == ValueModel::Object(
                    sect@,
                ) && sect.wf(),
                Err(e) => {
                    &&& (e.is_key_not_found() || e.is_not_an_object())
                    &&& (e.is_key_not_found() <==> !obj_has(self@, key@))
                    &&& (e.is_not_an_object() <==> obj_has(self@, key@) && !(obj_get(self@, key@)
                        is Object))
                },
            },
    {
        match self.data.get_obj(key) {
            Ok(o) => Ok(Section { data: o }),
            Err(e) => Err(e),
        }
    }

    /// A deep copy of this section's object, independent of the owner.
    pub fn clone_data(&self) -> (r: JObject)
        ensures
            r@ == self@,
    {
        self.data.clone_data()
    }
}

} // verus!
