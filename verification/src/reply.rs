//! Answers that are not errors.
use vstd::prelude::*;

verus! {

/// An answer: a status with a JSON body, or a status with a text body.
pub enum Reply<T> {
    Json(u16, T),
    Text(u16, String),
}

} // verus!
