//! The client's side of the record: reading it from a JSON object and
//! rendering it.

use crate::json::{json_object_members, read_object, JsonValue, JsonValueView, Member, MemberView};
use crate::lookup::{first_index, lemma_first_index_absent, lemma_first_index_found};
use crate::markup::{labelled_element, text_element, Content, ContentView, Element, ElementView, Tag};
use crate::record::RecordView;
use vstd::prelude::*;

verus! {

/// The record as the client holds it. Its fields mirror, in name and type,
/// those of the record that the server sends.
#[derive(Clone, Debug, PartialEq, Eq)]
pub struct TargetData {
    pub field_one: String,
    pub field_two: i32,
    pub field_three: String,
}

impl View for TargetData {
    type V = RecordView;

    open spec fn view(&self) -> RecordView {
        RecordView {
            field_one: self.field_one@,
            field_two: self.field_two as int,
            field_three: self.field_three@,
        }
    }
}

impl DeepView for TargetData {
    type V = RecordView;

    open spec fn deep_view(&self) -> RecordView {
        self@
    }
}

/// The keys of `members`, in their order.
pub open spec fn member_keys(members: Seq<MemberView>) -> Seq<Seq<char>> {
    members.map_values(|member: MemberView| member.key)
}

/// The value of the first member of `members` whose key is `key`, if there
/// is one.
pub open spec fn member_value(members: Seq<MemberView>, key: Seq<char>) -> Option<JsonValueView> {
    match first_index(member_keys(members), key) {
        Some(index) => Some(members[index].value),
        None => None,
    }
}

/// The record that the members of a JSON object stand for. There is one
/// exactly where `field_one` and `field_three` hold strings and `field_two`
/// holds an integer in the range of `i32`; members with other keys do not
/// count, and of two members with one key only the first does.
///
/// Members that were read from a text never hold a key twice: where the text
/// repeats a key, the reader keeps one member for it, with the value that
/// the text gives last. So a body that repeats a field's key is read as a
/// record with the last of its values, and is not refused.
pub open spec fn record_of_members(members: Seq<MemberView>) -> Option<RecordView> {
    match (
        member_value(members, "field_one"@),
        member_value(members, "field_two"@),
        member_value(members, "field_three"@),
    ) {
        (
            Some(JsonValueView::Text(field_one)),
            Some(JsonValueView::Integer(field_two)),
            Some(JsonValueView::Text(field_three)),
        ) => if i32::MIN <= field_two <= i32::MAX {
            Some(RecordView { field_one, field_two, field_three })
        } else {
            None
        },
        _ => None,
    }
}

/// The record that a response body stands for: that of the members of the
/// JSON object in it.
pub open spec fn record_of_text(text: Seq<char>) -> Option<RecordView> {
    match json_object_members(text) {
        Some(members) => record_of_members(members),
        None => None,
    }
}

/// Looks up the value of the first member with the given key.
fn find_value<'a>(members: &'a Vec<Member>, key: &str) -> (value: Option<&'a JsonValue>)
    ensures
        value.deep_view() == member_value(members.deep_view(), key@),
{
    let wanted = key.to_owned();
    let ghost keys = member_keys(members.deep_view());
    let mut i: usize = 0;
    while i < members.len()
        invariant
            i <= members.len(),
            keys == member_keys(members.deep_view()),
            wanted@ == key@,
            forall|j: int| 0 <= j < i ==> #[trigger] keys[j] != key@,
        decreases members.len() - i,
    {
        assert(keys[i as int] == members[i as int].key@);
        if members[i].key == wanted {
            proof {
                lemma_first_index_found(keys, key@, i as int);
            }
            return Some(&members[i].value);
        }
        i += 1;
    }
    proof {
        lemma_first_index_absent(keys, key@);
    }
    None
}

impl TargetData {
    /// Reads a record from the members of a JSON object.
    pub fn from_members(members: &Vec<Member>) -> (target_data: Option<TargetData>)
        ensures
            target_data.deep_view() == record_of_members(members.deep_view()),
    {
        let field_one = find_value(members, "field_one");
        let field_two = find_value(members, "field_two");
        let field_three = find_value(members, "field_three");
        match (field_one, field_two, field_three) {
            (
                Some(JsonValue::Text(field_one)),
                Some(JsonValue::Integer(field_two)),
                Some(JsonValue::Text(field_three)),
            ) => {
                if -2147483648 <= *field_two && *field_two <= 2147483647 {
                    Some(
                        TargetData {
                            field_one: field_one.clone(),
                            field_two: *field_two as i32,
                            field_three: field_three.clone(),
                        },
                    )
                } else {
                    None
                }
            },
            _ => None,
        }
    }

    /// Reads a record from the text of a response body.
    pub fn from_json(text: &str) -> (target_data: Option<TargetData>)
        ensures
            target_data.deep_view() == record_of_text(text@),
    {
        match read_object(text) {
            Some(members) => TargetData::from_members(&members),
            None => None,
        }
    }
}

/// What the record component shows for a record: a heading, then one
/// paragraph for each field, holding the field's name and its value.
pub open spec fn record_markup(record: RecordView) -> Seq<ElementView> {
    seq![
        text_element(Tag::H2, "I fetched some data"@),
        labelled_element(Tag::P, "field_one:"@, ContentView::Text(record.field_one)),
        labelled_element(Tag::P, "field_two:"@, ContentView::Integer(record.field_two)),
        labelled_element(Tag::P, "field_three:"@, ContentView::Text(record.field_three)),
    ]
}

/// Renders a record.
pub fn fetch_json(target_data: &TargetData) -> (markup: Vec<Element>)
    ensures
        markup.deep_view() == record_markup(target_data@),
{
    let mut markup: Vec<Element> = Vec::new();
    markup.push(Element::text(Tag::H2, "I fetched some data".to_owned()));
    markup.push(
        Element::labelled(
            Tag::P,
            "field_one:".to_owned(),
            Content::Text(target_data.field_one.clone()),
        ),
    );
    markup.push(
        Element::labelled(Tag::P, "field_two:".to_owned(), Content::Integer(target_data.field_two)),
    );
    markup.push(
        Element::labelled(
            Tag::P,
            "field_three:".to_owned(),
            Content::Text(target_data.field_three.clone()),
        ),
    );
    assert(markup.deep_view() =~= record_markup(target_data@));
    markup
}

} // verus!
