//! Level data, as the loader hands it over: entities authored in the level
//! editor carry named fields, and a door reads its initial state from them.

use vstd::prelude::*;

verus! {

/// The value of one authored field.
pub enum FieldValue {
    Bool(bool),
    Int(i64),
    Text(String),
}

/// One named field of a level entity instance.
pub struct LevelField {
    pub identifier: String,
    pub value: FieldValue,
}

} // verus!
