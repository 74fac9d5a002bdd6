//! A runtime for dynamically typed values: a closed set of tagged values,
//! owned and borrowed handles to them, typed views, array and map access
//! with cursors, and the search policy of the plugin module loader.

use vstd::prelude::*;

pub mod laws;
pub mod loader;
pub mod model;
pub mod value;

pub use loader::{search_start, search_step, SearchStep};
pub use model::{DyVal, Type};
pub use value::{
    ArrIter, As, AsArrValue, AsBoolArrValue, AsBoolValue, AsBytesValue, AsFloatArrValue,
    AsFloatValue, AsIntArrValue, AsIntValue, AsMapValue, AsNullValue, AsStrValue, Borrowed,
    Entry, KeyValPair, MapIter, Owned, Value, ValuePtr,
};

verus! {

} // verus!
