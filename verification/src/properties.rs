//! Properties: named texts and named numbers.
//!
//! On the wire a list of properties is one JSON object, each property a
//! member of it.  Here it is a list, so that the order and the doubles of
//! the text are kept.  A numeric property holds the text of a JSON number,
//! which [`crate::json::is_number_text`] tells from other text.

use crate::json::{is_number, printable, Json, JsonValue, Member, MemberValue};
use crate::wire::{all_printable, lemma_object_printable, lookup, member, member_values};
use vstd::prelude::*;

verus! {

/// A property with a text as its value.
#[derive(Debug, Clone, Default, PartialEq)]
pub struct Property {
    pub name: String,
    pub value: String,
}

/// A property with a number as its value: `value` is the text of a JSON
/// number.
#[derive(Debug, Clone, Default, PartialEq)]
pub struct NumericProperty {
    pub name: String,
    pub value: String,
}

/// A [`Property`], as mathematics.
pub struct PropertyView {
    pub name: Seq<char>,
    pub value: Seq<char>,
}

/// A [`NumericProperty`], as mathematics.
pub struct NumericPropertyView {
    pub name: Seq<char>,
    pub value: Seq<char>,
}

impl DeepView for Property {
    type V = PropertyView;

    open spec fn deep_view(&self) -> PropertyView {
        PropertyView { name: self.name@, value: self.value@ }
    }
}

impl DeepView for NumericProperty {
    type V = NumericPropertyView;

    open spec fn deep_view(&self) -> NumericPropertyView {
        NumericPropertyView { name: self.name@, value: self.value@ }
    }
}

/// The members that properties are written as.
pub open spec fn property_members(properties: Seq<PropertyView>) -> Seq<MemberValue> {
    Seq::new(
        properties.len(),
        |i: int| member(properties[i].name, JsonValue::Text(properties[i].value)),
    )
}

/// The object that properties are written as.
pub open spec fn properties_json(properties: Seq<PropertyView>) -> JsonValue {
    JsonValue::Object(property_members(properties))
}

/// The properties that members are read as, if each holds a text.
pub open spec fn properties_of(members: Seq<MemberValue>) -> Option<Seq<PropertyView>>
    decreases members.len(),
{
    if members.len() == 0 {
        Some(Seq::empty())
    } else {
        match properties_of(members.drop_last()) {
            Some(before) => match members.last().value {
                JsonValue::Text(text) => Some(
                    before.push(PropertyView { name: members.last().name, value: text }),
                ),
                _ => None,
            },
            None => None,
        }
    }
}

/// The properties that an object is read as.
pub open spec fn read_properties(json: JsonValue) -> Option<Seq<PropertyView>> {
    match json {
        JsonValue::Object(members) => properties_of(members),
        _ => None,
    }
}

/// Reading written properties gives them back.
pub proof fn lemma_properties(properties: Seq<PropertyView>)
    ensures
        read_properties(properties_json(properties)) == Some(properties),
        printable(properties_json(properties), 1),
    decreases properties.len(),
{
    let members = property_members(properties);
    assert(all_printable(members, 0)) by {
        reveal(all_printable);
    }
    lemma_object_printable(members, 1);
    if properties.len() == 0 {
        assert(properties =~= Seq::<PropertyView>::empty());
    } else {
        assert(members.drop_last() =~= property_members(properties.drop_last()));
        lemma_properties(properties.drop_last());
        assert(properties.drop_last().push(properties.last()) =~= properties);
    }
}

/// The members that numeric properties are written as.
pub open spec fn number_members(properties: Seq<NumericPropertyView>) -> Seq<MemberValue> {
    Seq::new(
        properties.len(),
        |i: int| member(properties[i].name, JsonValue::Number(properties[i].value)),
    )
}

/// The object that numeric properties are written as.
pub open spec fn numbers_json(properties: Seq<NumericPropertyView>) -> JsonValue {
    JsonValue::Object(number_members(properties))
}

/// The numeric properties that members are read as, if each holds a
/// number.
pub open spec fn numbers_of(members: Seq<MemberValue>) -> Option<Seq<NumericPropertyView>>
    decreases members.len(),
{
    if members.len() == 0 {
        Some(Seq::empty())
    } else {
        match numbers_of(members.drop_last()) {
            Some(before) => match members.last().value {
                JsonValue::Number(text) => Some(
                    before.push(NumericPropertyView { name: members.last().name, value: text }),
                ),
                _ => None,
            },
            None => None,
        }
    }
}

/// The numeric properties that an object is read as.
pub open spec fn read_numbers(json: JsonValue) -> Option<Seq<NumericPropertyView>> {
    match json {
        JsonValue::Object(members) => numbers_of(members),
        _ => None,
    }
}

/// Whether the value of each property is the text of a JSON number.
pub open spec fn numbers_valid(properties: Seq<NumericPropertyView>) -> bool {
    forall|i: int| 0 <= i < properties.len() ==> is_number((#[trigger] properties[i]).value)
}

/// Reading written numeric properties gives them back; they can be written
/// as text if their values are numbers.
pub proof fn lemma_numbers(properties: Seq<NumericPropertyView>)
    ensures
        read_numbers(numbers_json(properties)) == Some(properties),
        numbers_valid(properties) ==> printable(numbers_json(properties), 1),
    decreases properties.len(),
{
    let members = number_members(properties);
    if numbers_valid(properties) {
        assert(all_printable(members, 0)) by {
            reveal(all_printable);
            assert forall|i: int| 0 <= i < members.len() implies printable(
                (#[trigger] members[i]).value,
                0,
            ) by {
                assert(is_number(properties[i].value));
            }
        }
        lemma_object_printable(members, 1);
    }
    if properties.len() == 0 {
        assert(properties =~= Seq::<NumericPropertyView>::empty());
    } else {
        assert(members.drop_last() =~= number_members(properties.drop_last()));
        lemma_numbers(properties.drop_last());
        assert(properties.drop_last().push(properties.last()) =~= properties);
    }
}

/// Writes properties as one object.
pub fn properties_to_json(properties: &Vec<Property>) -> (json: Json)
    ensures
        json@ == properties_json(properties.deep_view()),
{
    let mut members: Vec<Member> = Vec::new();
    let mut i: usize = 0;
    while i < properties.len()
        invariant
            i <= properties.len(),
            members.len() == i,
            forall|k: int|
                0 <= k < i ==> (#[trigger] members[k]).name@ == properties[k].name@
                    && members[k].value@ == JsonValue::Text(properties[k].value@),
        decreases properties.len() - i,
    {
        members.push(
            Member {
                name: properties[i].name.clone(),
                value: Json::Text(properties[i].value.clone()),
            },
        );
        i = i + 1;
    }
    let json = Json::Object(members);
    assert(json@->Object_0 =~= property_members(properties.deep_view()));
    json
}

/// Reads properties from one object.
pub fn properties_from_json(json: &Json) -> (read: Option<Vec<Property>>)
    ensures
        match read {
            Some(properties) => read_properties(json@) == Some(properties.deep_view()),
            None => read_properties(json@) is None,
        },
{
    let members = match json {
        Json::Object(members) => members,
        _ => {
            return None;
        },
    };
    let ghost all = json@->Object_0;
    assert(all =~= member_values(members@));
    let mut properties: Vec<Property> = Vec::new();
    let mut i: usize = 0;
    while i < members.len()
        invariant
            i <= members.len(),
            json@ == JsonValue::Object(all),
            all == member_values(members@),
            properties_of(all.take(i as int)) == Some(properties.deep_view()),
        decreases members.len() - i,
    {
        assert(all.take(i + 1).drop_last() =~= all.take(i as int));
        match &members[i].value {
            Json::Text(text) => {
                let ghost before = properties.deep_view();
                let property = Property { name: members[i].name.clone(), value: text.clone() };
                properties.push(property);
                assert(properties.deep_view() =~= before.push(property.deep_view()));
            },
            _ => {
                proof {
                    lemma_properties_none(all, i as int);
                }
                return None;
            },
        }
        i = i + 1;
    }
    assert(all.take(i as int) =~= all);
    Some(properties)
}

proof fn lemma_properties_none(members: Seq<MemberValue>, at: int)
    requires
        0 <= at < members.len(),
        !(members[at].value is Text),
    ensures
        properties_of(members) is None,
    decreases members.len(),
{
    if at < members.len() - 1 {
        lemma_properties_none(members.drop_last(), at);
    }
}

/// Writes numeric properties as one object.
pub fn numbers_to_json(properties: &Vec<NumericProperty>) -> (json: Json)
    ensures
        json@ == numbers_json(properties.deep_view()),
{
    let mut members: Vec<Member> = Vec::new();
    let mut i: usize = 0;
    while i < properties.len()
        invariant
            i <= properties.len(),
            members.len() == i,
            forall|k: int|
                0 <= k < i ==> (#[trigger] members[k]).name@ == properties[k].name@
                    && members[k].value@ == JsonValue::Number(properties[k].value@),
        decreases properties.len() - i,
    {
        members.push(
            Member {
                name: properties[i].name.clone(),
                value: Json::Number(properties[i].value.clone()),
            },
        );
        i = i + 1;
    }
    let json = Json::Object(members);
    assert(json@->Object_0 =~= number_members(properties.deep_view()));
    json
}

/// Reads numeric properties from one object.
pub fn numbers_from_json(json: &Json) -> (read: Option<Vec<NumericProperty>>)
    ensures
        match read {
            Some(properties) => read_numbers(json@) == Some(properties.deep_view()),
            None => read_numbers(json@) is None,
        },
{
    let members = match json {
        Json::Object(members) => members,
        _ => {
            return None;
        },
    };
    let ghost all = json@->Object_0;
    assert(all =~= member_values(members@));
    let mut properties: Vec<NumericProperty> = Vec::new();
    let mut i: usize = 0;
    while i < members.len()
        invariant
            i <= members.len(),
            json@ == JsonValue::Object(all),
            all == member_values(members@),
            numbers_of(all.take(i as int)) == Some(properties.deep_view()),
        decreases members.len() - i,
    {
        assert(all.take(i + 1).drop_last() =~= all.take(i as int));
        match &members[i].value {
            Json::Number(text) => {
                let ghost before = properties.deep_view();
                let property = NumericProperty {
                    name: members[i].name.clone(),
                    value: text.clone(),
                };
                properties.push(property);
                assert(properties.deep_view() =~= before.push(property.deep_view()));
            },
            _ => {
                proof {
                    lemma_numbers_none(all, i as int);
                }
                return None;
            },
        }
        i = i + 1;
    }
    assert(all.take(i as int) =~= all);
    Some(properties)
}

proof fn lemma_numbers_none(members: Seq<MemberValue>, at: int)
    requires
        0 <= at < members.len(),
        !(members[at].value is Number),
    ensures
        numbers_of(members) is None,
    decreases members.len(),
{
    if at < members.len() - 1 {
        lemma_numbers_none(members.drop_last(), at);
    }
}

/// The properties under `name`, which must be there.
pub open spec fn req_properties(members: Seq<MemberValue>, name: Seq<char>) -> Option<
    Seq<PropertyView>,
> {
    match lookup(members, name) {
        Some(json) => read_properties(json),
        None => None,
    }
}

/// The numeric properties under `name`, which must be there.
pub open spec fn req_numbers(members: Seq<MemberValue>, name: Seq<char>) -> Option<
    Seq<NumericPropertyView>,
> {
    match lookup(members, name) {
        Some(json) => read_numbers(json),
        None => None,
    }
}

} // verus!
