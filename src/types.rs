use vstd::prelude::*;

pub use crate::response::{TdbResponse, TdbResponseMany};

verus! {

/// Column types of a TobsDB schema, as records carry them.
pub type TdbInt = i64;

pub type TdbString = String;

pub type TdbVector<T> = Vec<T>;

pub type TdbBool = bool;

pub type TdbBytes = Vec<u8>;

} // verus!
