//! The record of the catalogue: a named entry with three dimension texts.
//!
//! Dimensions are kept as the decimal texts the user typed (or the
//! persistence layer loaded), so the record round-trips losslessly; the
//! number grammar in [`crate::text`] says when such a text denotes a
//! positive number. Derived quantities such as a volume are computed by the
//! presentation layer from these texts.

use vstd::prelude::*;
use crate::text::{is_positive_number_text, trim_spec};

verus! {

/// One catalogue entry: a name and three dimension texts.
#[derive(Debug, Clone)]
pub struct FruitDimensions {
    pub name: String,
    pub length: String,
    pub width: String,
    pub height: String,
}

impl FruitDimensions {
    /// A record the modal editor would build: trimmed non-empty name and
    /// three positive dimension texts.
    pub open spec fn wf(&self) -> bool {
        &&& self.name@ == trim_spec(self.name@)
        &&& self.name@.len() > 0
        &&& is_positive_number_text(self.length@)
        &&& is_positive_number_text(self.width@)
        &&& is_positive_number_text(self.height@)
    }
}

} // verus!
