//! The mathematical model of the record that the server sends and the client
//! receives.

use vstd::prelude::*;

verus! {

/// Three field values: a text, an integer and a text. Both the server's and
/// the client's record type have this as their view.
pub struct RecordView {
    pub field_one: Seq<char>,
    pub field_two: int,
    pub field_three: Seq<char>,
}

impl RecordView {
    /// Whether the integer field fits the `i32` that a record holds.
    pub open spec fn in_range(self) -> bool {
        i32::MIN <= self.field_two <= i32::MAX
    }
}

} // verus!
