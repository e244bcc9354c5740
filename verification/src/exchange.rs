//! What holds between the server's side of the record and the client's.

use crate::fetch_json::{member_keys, member_value, record_of_members};
use crate::json::JsonValueView;
use crate::lookup::lemma_first_index_found;
use crate::record::RecordView;
use crate::routes::return_json_data::{lemma_record_keys_distinct, record_members};
use vstd::prelude::*;

verus! {

/// In the members that the server writes for a record, each key leads to the
/// value of the field that it names.
pub proof fn lemma_record_member_values(record: RecordView)
    ensures
        member_value(record_members(record), "field_one"@) == Some(
            JsonValueView::Text(record.field_one),
        ),
        member_value(record_members(record), "field_two"@) == Some(
            JsonValueView::Integer(record.field_two),
        ),
        member_value(record_members(record), "field_three"@) == Some(
            JsonValueView::Text(record.field_three),
        ),
{
    lemma_record_keys_distinct();
    let keys = member_keys(record_members(record));
    lemma_first_index_found(keys, "field_one"@, 0);
    lemma_first_index_found(keys, "field_two"@, 1);
    lemma_first_index_found(keys, "field_three"@, 2);
}

/// The schema of the two sides agrees: the members that the server writes for
/// a record are read back by the client as a record with the same three field
/// values.
pub proof fn lemma_record_round_trip(record: RecordView)
    requires
        record.in_range(),
    ensures
        record_of_members(record_members(record)) == Some(record),
{
    lemma_record_member_values(record);
}

} // verus!
