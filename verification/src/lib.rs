//! A typed accessor layer over a JSON-like document kept in memory as an
//! insertion-ordered tree of values.
//!
//! The root of an open document is a [`Config`]; nested objects are reached
//! as sections, either read-only ([`Section`]) or read-write (`&mut JObject`).
//! Conversion between the tree and caller types, and between the tree and its
//! textual form, goes through `serde` and `serde_json`.

mod codec;
mod config;
mod error;
mod laws;
mod model;
mod value;

pub use codec::{parsed_fields, rendered_text};
pub use config::{Config, Section};
pub use error::{Error, KEY_NOT_FOUND, NOT_AN_OBJECT, NO_HOME_DIR};
pub use laws::{
    lemma_insert_appends, lemma_overwrite_keeps_order, lemma_read_or_insert_idempotent,
    lemma_set_keeps_others, lemma_set_then_get,
};
pub use model::{
    fields_depth_below, fields_wf, keys_unique, lemma_idx_of, obj_get, obj_get_or_insert, obj_has, obj_idx, obj_set,
    value_depth_below, value_wf, FieldsModel, ValueModel,
};
pub use value::{entries_model, obj_model, value_model, JObject, Value};
