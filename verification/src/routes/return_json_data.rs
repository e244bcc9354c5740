//! The route that answers with a fixed record as a JSON object.

use crate::json::{json_object_text, write_object, JsonValue, JsonValueView, Member, MemberView};
use crate::record::RecordView;
use vstd::prelude::*;

verus! {

/// The record as the server holds it.
#[derive(Clone, Debug, PartialEq, Eq)]
pub struct TargetData {
    pub field_one: String,
    pub field_two: i32,
    pub field_three: String,
}

impl View for TargetData {
    type V = RecordView;

    open spec fn view(&self) -> RecordView {
        RecordView {
            field_one: self.field_one@,
            field_two: self.field_two as int,
            field_three: self.field_three@,
        }
    }
}

impl DeepView for TargetData {
    type V = RecordView;

    open spec fn deep_view(&self) -> RecordView {
        self@
    }
}

/// The members of the JSON object that stands for a record on the wire: one
/// per field, keyed by the field's name, in the order of the fields.
pub open spec fn record_members(record: RecordView) -> Seq<MemberView> {
    seq![
        MemberView { key: "field_one"@, value: JsonValueView::Text(record.field_one) },
        MemberView { key: "field_two"@, value: JsonValueView::Integer(record.field_two) },
        MemberView { key: "field_three"@, value: JsonValueView::Text(record.field_three) },
    ]
}

/// The record that the route answers with.
pub open spec fn fixed_record() -> RecordView {
    RecordView { field_one: "Field One"@, field_two: 1, field_three: "Field Three"@ }
}

/// The three keys under which a record is written are pairwise distinct.
pub proof fn lemma_record_keys_distinct()
    ensures
        "field_one"@ != "field_two"@,
        "field_one"@ != "field_three"@,
        "field_two"@ != "field_three"@,
{
    reveal_strlit("field_one");
    reveal_strlit("field_two");
    reveal_strlit("field_three");
    assert("field_one"@[6] != "field_two"@[6]);
    assert("field_one"@.len() != "field_three"@.len());
    assert("field_two"@.len() != "field_three"@.len());
}

impl TargetData {
    /// The record as the members of a JSON object.
    pub fn to_members(&self) -> (members: Vec<Member>)
        ensures
            members.deep_view() == record_members(self@),
    {
        let mut members: Vec<Member> = Vec::new();
        members.push(
            Member { key: "field_one".to_owned(), value: JsonValue::Text(self.field_one.clone()) },
        );
        members.push(
            Member { key: "field_two".to_owned(), value: JsonValue::Integer(self.field_two as i64) },
        );
        members.push(
            Member {
                key: "field_three".to_owned(),
                value: JsonValue::Text(self.field_three.clone()),
            },
        );
        assert(members.deep_view() =~= record_members(self@));
        members
    }

    /// The record as the text of a JSON object.
    pub fn to_json(&self) -> (text: String)
        ensures
            text@ == json_object_text(record_members(self@)),
    {
        let members = self.to_members();
        proof {
            lemma_record_keys_distinct();
        }
        write_object(&members)
    }
}

/// Builds the record that the route answers with. It takes no input and
/// gives the same three values on every call.
pub fn return_json_data() -> (target_data: TargetData)
    ensures
        target_data@ == fixed_record(),
{
    TargetData {
        field_one: "Field One".to_owned(),
        field_two: 1,
        field_three: "Field Three".to_owned(),
    }
}

} // verus!
