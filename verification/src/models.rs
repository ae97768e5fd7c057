//! The records that the program stores.

use vstd::prelude::*;
use vstd::string::StringExecFns;

verus! {

/// A record of the test table.
#[derive(Debug)]
pub struct Test {
    /// The key that the store gives the record; none before it is stored.
    pub id: Option<i32>,
    pub name: String,
}

impl Test {
    /// A record that is not stored yet.
    pub fn new(name: &str) -> (record: Self)
        ensures
            record.id is None,
            record.name@ == name@,
    {
        Test { id: None, name: String::from_str(name) }
    }
}

} // verus!
