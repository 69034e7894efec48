//! What a provider captures.
use crate::json::{Json, JsonValue};
use vstd::prelude::*;

verus! {

/// Something captured, which can be written down as a document.
pub trait Captured {
    /// The document that stands for this capture.
    spec fn json(&self) -> Json;

    /// Writes the capture down as a document.
    fn to_json(&self) -> (doc: JsonValue)
        ensures
            doc@ == self.json(),
    ;
}

impl Captured for JsonValue {
    open spec fn json(&self) -> Json {
        self@
    }

    fn to_json(&self) -> (doc: JsonValue) {
        self.duplicate()
    }
}

} // verus!
