use vstd::prelude::*;

verus! {

/// Message carried by `Error::Config` when a requested key is absent.
pub const KEY_NOT_FOUND: &'static str = "Key not found";

/// Message carried by `Error::Config` when the value at a key is not a JSON object.
pub const NOT_AN_OBJECT: &'static str = "Key's Value is not a json object";

/// Message carried by `Error::Config` when no home directory can be resolved.
pub const NO_HOME_DIR: &'static str = "No valid home directory path could be retrived from OS";

/// Every failure a document operation can report: a codec failure from
/// `serde_json`, an I/O failure from the backing file, or a logical misuse
/// described by one of the fixed messages above.
#[derive(Debug)]
pub enum Error {
    Json(serde_json::Error),
    IO(std::io::Error),
    Config(&'static str),
}

impl Error {
    /// Holds exactly of the error reported for a key that is absent.
    pub open spec fn is_key_not_found(&self) -> bool {
        self matches Error::Config(s) && s@ == KEY_NOT_FOUND@
    }

    /// Holds exactly of the error reported when a section is requested at a
    /// key whose value is not an object.
    pub open spec fn is_not_an_object(&self) -> bool {
        self matches Error::Config(s) && s@ == NOT_AN_OBJECT@
    }
}

/// The three fixed messages are pairwise distinct, so each `Error::Config`
/// value reports exactly one condition.
pub proof fn lemma_messages_differ()
    ensures
        KEY_NOT_FOUND@ != NOT_AN_OBJECT@,
        KEY_NOT_FOUND@ != NO_HOME_DIR@,
        NOT_AN_OBJECT@ != NO_HOME_DIR@,
{
    reveal_strlit("Key not found");
    reveal_strlit("Key's Value is not a json object");
    reveal_strlit("No valid home directory path could be retrived from OS");
    assert(KEY_NOT_FOUND@.len() != NOT_AN_OBJECT@.len());
    assert(KEY_NOT_FOUND@.len() != NO_HOME_DIR@.len());
    assert(NOT_AN_OBJECT@.len() != NO_HOME_DIR@.len());
}

impl From<&'static str> for Error {
    fn from(value: &'static str) -> Self {
        Error::Config(value)
    }
}

impl vstd::std_specs::convert::FromSpecImpl<&'static str> for Error {
    open spec fn obeys_from_spec() -> bool {
        true
    }

    open spec fn from_spec(value: &'static str) -> Self {
        Error::Config(value)
    }
}

} // verus!
