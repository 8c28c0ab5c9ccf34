//! The pieces that every record is written from and read with.
//!
//! A record is a JSON object.  Each of its fields is a member under a fixed
//! name; a field that is optional and absent has no member.  Reading looks
//! each field up by its name, takes the last member if a name comes twice,
//! passes over members that it does not know, and gives up if a field that
//! must be there is missing or holds the wrong kind of value.

use crate::correlation::{
    decimal_digits, decimal_string, decimal_text, is_digit, lemma_decimal_digits,
    lemma_parse_cid_text, parse_cid, parse_cid_spec,
};
use crate::json::{
    digits_end, is_number, items_printable, members_printable, printable, Json, JsonValue,
    Member, MemberValue,
};
use vstd::prelude::*;

verus! {

/// `str::eq` tells whether two texts hold the same characters.
#[verifier::external_body]
pub(crate) fn same_text(a: &str, b: &str) -> (same: bool)
    ensures
        same == (a@ == b@),
{
    a == b
}

/// The value of the last member of `members` that is called `name`.
#[verifier::opaque]
pub open spec fn lookup(members: Seq<MemberValue>, name: Seq<char>) -> Option<JsonValue>
    decreases members.len(),
{
    if members.len() == 0 {
        None
    } else if members.last().name == name {
        Some(members.last().value)
    } else {
        lookup(members.drop_last(), name)
    }
}

/// The members of `members`, as mathematics.
pub open spec fn member_values(members: Seq<Member>) -> Seq<MemberValue> {
    Seq::new(
        members.len(),
        |i: int|
            if 0 <= i < members.len() {
                MemberValue { name: members[i].name@, value: members[i].value@ }
            } else {
                MemberValue { name: Seq::empty(), value: JsonValue::Null }
            },
    )
}

/// The value of the last member of `members` that is called `name`.
pub fn find<'a>(members: &'a Vec<Member>, name: &str) -> (found: Option<&'a Json>)
    ensures
        match found {
            Some(value) => lookup(member_values(members@), name@) == Some(value@),
            None => lookup(member_values(members@), name@) is None,
        },
{
    reveal(lookup);
    let ghost all = member_values(members@);
    let mut i: usize = members.len();
    assert(all.take(i as int) =~= all);
    while i > 0
        invariant
            i <= members.len(),
            all == member_values(members@),
            lookup(all, name@) == lookup(all.take(i as int), name@),
        decreases i,
    {
        reveal(lookup);
        i = i - 1;
        assert(all.take(i + 1).drop_last() =~= all.take(i as int));
        if same_text(members[i].name.as_str(), name) {
            return Some(&members[i].value);
        }
    }
    None
}

/// Looking a name up in members that were joined: the later ones count
/// first.
pub broadcast proof fn lemma_lookup_add(a: Seq<MemberValue>, b: Seq<MemberValue>, name: Seq<char>)
    ensures
        #[trigger] lookup(a + b, name) == match lookup(b, name) {
            Some(value) => Some(value),
            None => lookup(a, name),
        },
    decreases b.len(),
{
    reveal(lookup);
    if b.len() == 0 {
        assert(a + b =~= a);
    } else {
        assert((a + b).drop_last() =~= a + b.drop_last());
        lemma_lookup_add(a, b.drop_last(), name);
    }
}

/// Looking a name up in one member.
pub broadcast proof fn lemma_lookup_one(member: MemberValue, name: Seq<char>)
    ensures
        #[trigger] lookup(seq![member], name) == if member.name == name {
            Some(member.value)
        } else {
            None
        },
{
    reveal(lookup);
    assert(seq![member].drop_last() =~= Seq::<MemberValue>::empty());
    assert(lookup(Seq::<MemberValue>::empty(), name) is None);
}

/// Looking a name up in no members.
pub broadcast proof fn lemma_lookup_none(name: Seq<char>)
    ensures
        #[trigger] lookup(Seq::<MemberValue>::empty(), name) is None,
{
    reveal(lookup);
}

/// A member under another name makes no difference to what is found
/// under `name`, wherever it stands.
pub proof fn lemma_lookup_insert(
    members: Seq<MemberValue>,
    at: int,
    extra: MemberValue,
    name: Seq<char>,
)
    requires
        0 <= at <= members.len(),
        extra.name != name,
    ensures
        lookup(members.insert(at, extra), name) == lookup(members, name),
    decreases members.len() - at,
{
    reveal(lookup);
    let with_extra = members.insert(at, extra);
    if at == members.len() {
        assert(with_extra.drop_last() =~= members);
        assert(with_extra.last() == extra);
    } else {
        assert(with_extra.drop_last() =~= members.drop_last().insert(at, extra));
        assert(with_extra.last() == members.last());
        lemma_lookup_insert(members.drop_last(), at, extra, name);
    }
}

pub broadcast group group_lookup {
    lemma_lookup_add,
    lemma_lookup_one,
    lemma_lookup_none,
}

/// Whether the value of every member can be written and read back.
#[verifier::opaque]
pub open spec fn all_printable(members: Seq<MemberValue>, depth: nat) -> bool {
    forall|i: int| 0 <= i < members.len() ==> printable((#[trigger] members[i]).value, depth)
}

/// Whether every item can be written and read back.
pub open spec fn each_printable(items: Seq<JsonValue>, depth: nat) -> bool {
    forall|i: int| 0 <= i < items.len() ==> printable(#[trigger] items[i], depth)
}

/// An object whose members can all be written can be written.
pub proof fn lemma_object_printable(members: Seq<MemberValue>, depth: nat)
    requires
        depth > 0,
        all_printable(members, (depth - 1) as nat),
    ensures
        printable(JsonValue::Object(members), depth),
{
    reveal(all_printable);
    lemma_members_from(members, 0, (depth - 1) as nat);
}

proof fn lemma_members_from(members: Seq<MemberValue>, from: int, depth: nat)
    requires
        0 <= from,
        all_printable(members, depth),
    ensures
        members_printable(members, from, depth),
    decreases members.len() - from,
{
    reveal(all_printable);
    if from < members.len() {
        assert(printable(members[from].value, depth));
        lemma_members_from(members, from + 1, depth);
    }
}

/// An array whose items can all be written can be written.
pub proof fn lemma_array_printable(items: Seq<JsonValue>, depth: nat)
    requires
        depth > 0,
        each_printable(items, (depth - 1) as nat),
    ensures
        printable(JsonValue::Array(items), depth),
{
    lemma_items_from(items, 0, (depth - 1) as nat);
}

proof fn lemma_items_from(items: Seq<JsonValue>, from: int, depth: nat)
    requires
        0 <= from,
        each_printable(items, depth),
    ensures
        items_printable(items, from, depth),
    decreases items.len() - from,
{
    if from < items.len() {
        assert(printable(items[from], depth));
        lemma_items_from(items, from + 1, depth);
    }
}

/// What can be written with some nesting can be written with more.
pub proof fn lemma_printable_deeper(value: JsonValue, depth: nat, deeper: nat)
    requires
        printable(value, depth),
        depth <= deeper,
    ensures
        printable(value, deeper),
    decreases value,
{
    match value {
        JsonValue::Array(items) => {
            lemma_items_deeper(items, 0, (depth - 1) as nat, (deeper - 1) as nat);
        },
        JsonValue::Object(members) => {
            lemma_members_deeper(members, 0, (depth - 1) as nat, (deeper - 1) as nat);
        },
        _ => {},
    }
}

proof fn lemma_items_deeper(items: Seq<JsonValue>, from: int, depth: nat, deeper: nat)
    requires
        0 <= from,
        items_printable(items, from, depth),
        depth <= deeper,
    ensures
        items_printable(items, from, deeper),
    decreases items, items.len() - from,
{
    if from < items.len() {
        lemma_printable_deeper(items[from], depth, deeper);
        lemma_items_deeper(items, from + 1, depth, deeper);
    }
}

proof fn lemma_members_deeper(members: Seq<MemberValue>, from: int, depth: nat, deeper: nat)
    requires
        0 <= from,
        members_printable(members, from, depth),
        depth <= deeper,
    ensures
        members_printable(members, from, deeper),
    decreases members, members.len() - from,
{
    if from < members.len() {
        lemma_printable_deeper(members[from].value, depth, deeper);
        lemma_members_deeper(members, from + 1, depth, deeper);
    }
}

/// Digits only, as far as the text goes.
proof fn lemma_digits_to_end(text: Seq<char>, from: int)
    requires
        0 <= from <= text.len(),
        forall|i: int| from <= i < text.len() ==> is_digit(#[trigger] text[i]),
    ensures
        digits_end(text, from) == text.len(),
    decreases text.len() - from,
{
    if from < text.len() {
        lemma_digits_to_end(text, from + 1);
    }
}

/// The decimal digits of a number start with a zero only if the number
/// is zero.
proof fn lemma_leading_digit(n: nat)
    ensures
        decimal_digits(n)[0] == '0' ==> n == 0,
        n == 0 ==> decimal_digits(n) == seq!['0'],
    decreases n,
{
    lemma_decimal_digits(n);
    if n >= 10 {
        lemma_leading_digit(n / 10);
        lemma_decimal_digits(n / 10);
    }
}

/// The decimal text of an integer is a JSON number, and reading it gives
/// the integer back.
pub proof fn lemma_integer(n: i64)
    ensures
        is_number(decimal_text(n as int)),
        parse_cid_spec(decimal_text(n as int)) == Some(n),
        printable(JsonValue::Number(decimal_text(n as int)), 0),
{
    lemma_parse_cid_text(n);
    let text = decimal_text(n as int);
    let magnitude = if n < 0 {
        (-n) as nat
    } else {
        n as nat
    };
    let digits = decimal_digits(magnitude);
    lemma_decimal_digits(magnitude);
    lemma_leading_digit(magnitude);
    let first = if n < 0 {
        1int
    } else {
        0int
    };
    assert forall|i: int| first <= i < text.len() implies is_digit(#[trigger] text[i]) by {
        assert(text[i] == digits[i - first]);
    }
    assert(text[first] == digits[0]);
    lemma_digits_to_end(text, first);
    if text[first] == '0' {
        assert(digits =~= seq!['0']);
    }
}

/// A member with its name and its value.
pub open spec fn member(name: Seq<char>, value: JsonValue) -> MemberValue {
    MemberValue { name, value }
}

/// The members of an object, and none for any other value.
pub open spec fn members_of(json: JsonValue) -> Option<Seq<MemberValue>> {
    match json {
        JsonValue::Object(members) => Some(members),
        _ => None,
    }
}

/// The text under `name`, which must be there.
pub open spec fn req_text(members: Seq<MemberValue>, name: Seq<char>) -> Option<Seq<char>> {
    match lookup(members, name) {
        Some(JsonValue::Text(text)) => Some(text),
        _ => None,
    }
}

/// The text under `name`, which may be missing or null.
pub open spec fn opt_text(members: Seq<MemberValue>, name: Seq<char>) -> Option<
    Option<Seq<char>>,
> {
    match lookup(members, name) {
        None => Some(None),
        Some(JsonValue::Null) => Some(None),
        Some(JsonValue::Text(text)) => Some(Some(text)),
        _ => None,
    }
}

/// The truth value under `name`, which must be there.
pub open spec fn req_bool(members: Seq<MemberValue>, name: Seq<char>) -> Option<bool> {
    match lookup(members, name) {
        Some(JsonValue::Bool(b)) => Some(b),
        _ => None,
    }
}

/// The integer that a value holds: a number without fraction or
/// exponent, within 64 bits.
pub open spec fn integer_of(json: JsonValue) -> Option<i64> {
    match json {
        JsonValue::Number(text) => parse_cid_spec(text),
        _ => None,
    }
}

/// The integer under `name`, which must be there.
pub open spec fn req_i64(members: Seq<MemberValue>, name: Seq<char>) -> Option<i64> {
    match lookup(members, name) {
        Some(json) => integer_of(json),
        None => None,
    }
}

/// The integer under `name`, which must be there and fit in 32 bits.
pub open spec fn req_i32(members: Seq<MemberValue>, name: Seq<char>) -> Option<i32> {
    match req_i64(members, name) {
        Some(n) => if i32::MIN <= n <= i32::MAX {
            Some(n as i32)
        } else {
            None
        },
        None => None,
    }
}

/// The value that stands for an integer.
pub open spec fn integer_json(n: int) -> JsonValue {
    JsonValue::Number(decimal_text(n))
}

/// The members of the object that `json` is, if it is one.
pub fn object_members(json: &Json) -> (members: Option<&Vec<Member>>)
    ensures
        match members {
            Some(members) => members_of(json@) == Some(member_values(members@)),
            None => members_of(json@) is None,
        },
{
    match json {
        Json::Object(members) => {
            assert(json@->Object_0 =~= member_values(members@));
            Some(members)
        },
        _ => None,
    }
}

/// An object with `members`.
pub fn object(members: Vec<Member>) -> (json: Json)
    ensures
        json@ == JsonValue::Object(member_values(members@)),
{
    let json = Json::Object(members);
    assert(json@->Object_0 =~= member_values(members@));
    json
}

/// Adds a member to `members`.
pub fn put(members: &mut Vec<Member>, name: &str, value: Json)
    ensures
        member_values(final(members)@) == member_values(old(members)@) + seq![
            member(name@, value@),
        ],
{
    members.push(Member { name: name.to_owned(), value });
    assert(member_values(members@) =~= member_values(old(members)@) + seq![
        member(name@, value@),
    ]);
}

/// Adds a member that holds a text.
pub fn put_text(members: &mut Vec<Member>, name: &str, text: &str)
    ensures
        member_values(final(members)@) == member_values(old(members)@) + seq![
            member(name@, JsonValue::Text(text@)),
        ],
{
    put(members, name, Json::Text(text.to_owned()));
}

/// Adds a member that holds a truth value.
pub fn put_bool(members: &mut Vec<Member>, name: &str, value: bool)
    ensures
        member_values(final(members)@) == member_values(old(members)@) + seq![
            member(name@, JsonValue::Bool(value)),
        ],
{
    put(members, name, Json::Bool(value));
}

/// Adds a member that holds an integer.
pub fn put_integer(members: &mut Vec<Member>, name: &str, n: i64)
    ensures
        member_values(final(members)@) == member_values(old(members)@) + seq![
            member(name@, integer_json(n as int)),
        ],
{
    put(members, name, Json::Number(decimal_string(n)));
}

/// Reads the text under `name`, which must be there.
pub fn text_field(members: &Vec<Member>, name: &str) -> (text: Option<String>)
    ensures
        match text {
            Some(text) => req_text(member_values(members@), name@) == Some(text@),
            None => req_text(member_values(members@), name@) is None,
        },
{
    match find(members, name) {
        Some(Json::Text(text)) => Some(text.clone()),
        _ => None,
    }
}

/// Reads the text under `name`, which may be missing or null.
pub fn opt_text_field(members: &Vec<Member>, name: &str) -> (text: Option<Option<String>>)
    ensures
        match text {
            Some(Some(text)) => opt_text(member_values(members@), name@) == Some(Some(text@)),
            Some(None) => opt_text(member_values(members@), name@) == Some(
                None::<Seq<char>>,
            ),
            None => opt_text(member_values(members@), name@) is None,
        },
{
    match find(members, name) {
        None => Some(None),
        Some(Json::Null) => Some(None),
        Some(Json::Text(text)) => Some(Some(text.clone())),
        _ => None,
    }
}

/// Reads the truth value under `name`, which must be there.
pub fn bool_field(members: &Vec<Member>, name: &str) -> (value: Option<bool>)
    ensures
        value == req_bool(member_values(members@), name@),
{
    match find(members, name) {
        Some(Json::Bool(b)) => Some(*b),
        _ => None,
    }
}

/// Reads the integer that `json` holds.
pub fn integer(json: &Json) -> (n: Option<i64>)
    ensures
        n == integer_of(json@),
{
    match json {
        Json::Number(text) => parse_cid(text.as_str()),
        _ => None,
    }
}

/// Reads the integer under `name`, which must be there.
pub fn i64_field(members: &Vec<Member>, name: &str) -> (n: Option<i64>)
    ensures
        n == req_i64(member_values(members@), name@),
{
    match find(members, name) {
        Some(json) => integer(json),
        None => None,
    }
}

/// Reads the integer under `name`, which must be there and fit in 32
/// bits.
pub fn i32_field(members: &Vec<Member>, name: &str) -> (n: Option<i32>)
    ensures
        n == req_i32(member_values(members@), name@),
{
    match i64_field(members, name) {
        Some(n) => if -0x8000_0000 <= n && n <= 0x7fff_ffff {
            Some(n as i32)
        } else {
            None
        },
        None => None,
    }
}

/// What every item of an array is read as, if every item can be read.
pub open spec fn read_each<T>(
    items: Seq<JsonValue>,
    read: spec_fn(JsonValue) -> Option<T>,
) -> Option<Seq<T>>
    decreases items.len(),
{
    if items.len() == 0 {
        Some(Seq::empty())
    } else {
        match read_each(items.drop_last(), read) {
            Some(before) => match read(items.last()) {
                Some(last) => Some(before.push(last)),
                None => None,
            },
            None => None,
        }
    }
}

/// What every item of a sequence is written as.
pub open spec fn write_each<T>(items: Seq<T>, write: spec_fn(T) -> JsonValue) -> Seq<JsonValue> {
    Seq::new(items.len(), |i: int| write(items[i]))
}

/// What the items of the array that `json` is are read as.
pub open spec fn read_array<T>(json: JsonValue, read: spec_fn(JsonValue) -> Option<T>) -> Option<
    Seq<T>,
> {
    match json {
        JsonValue::Array(items) => read_each(items, read),
        _ => None,
    }
}

/// What the items of the array under `name`, which must be there, are
/// read as.
pub open spec fn req_array<T>(
    members: Seq<MemberValue>,
    name: Seq<char>,
    read: spec_fn(JsonValue) -> Option<T>,
) -> Option<Seq<T>> {
    match lookup(members, name) {
        Some(json) => read_array(json, read),
        None => None,
    }
}

/// The array of what the items of a sequence are written as.
pub open spec fn array_json<T>(items: Seq<T>, write: spec_fn(T) -> JsonValue) -> JsonValue {
    JsonValue::Array(write_each(items, write))
}

/// If reading undoes writing for each item, it does so for all of them.
pub proof fn lemma_read_each<T>(
    items: Seq<T>,
    read: spec_fn(JsonValue) -> Option<T>,
    write: spec_fn(T) -> JsonValue,
)
    requires
        forall|i: int| 0 <= i < items.len() ==> read(write(#[trigger] items[i])) == Some(items[i]),
    ensures
        read_each(write_each(items, write), read) == Some(items),
        read_array(array_json(items, write), read) == Some(items),
    decreases items.len(),
{
    let written = write_each(items, write);
    if items.len() == 0 {
        assert(items =~= Seq::<T>::empty());
    } else {
        assert(written.drop_last() =~= write_each(items.drop_last(), write));
        assert forall|i: int| 0 <= i < items.drop_last().len() implies read(
            write(#[trigger] items.drop_last()[i]),
        ) == Some(items.drop_last()[i]) by {
            assert(items.drop_last()[i] == items[i]);
        }
        lemma_read_each(items.drop_last(), read, write);
        assert(items.last() == items[items.len() - 1]);
        assert(items.drop_last().push(items.last()) =~= items);
    }
}

/// An array can be written if each of its items can.
pub proof fn lemma_each_printable<T>(items: Seq<T>, write: spec_fn(T) -> JsonValue, depth: nat)
    requires
        depth > 0,
        forall|i: int| 0 <= i < items.len() ==> printable(write(#[trigger] items[i]), (depth - 1) as nat),
    ensures
        printable(array_json(items, write), depth),
{
    let written = write_each(items, write);
    assert forall|i: int| 0 <= i < written.len() implies printable(
        #[trigger] written[i],
        (depth - 1) as nat,
    ) by {
        assert(written[i] == write(items[i]));
    }
    lemma_array_printable(written, depth);
}

/// Members that were joined can all be written if those of each part can.
pub broadcast proof fn lemma_all_printable_add(a: Seq<MemberValue>, b: Seq<MemberValue>, depth: nat)
    ensures
        #[trigger] all_printable(a + b, depth) == (all_printable(a, depth) && all_printable(
            b,
            depth,
        )),
{
    reveal(all_printable);
    if all_printable(a, depth) && all_printable(b, depth) {
        assert forall|i: int| 0 <= i < (a + b).len() implies printable(
            (#[trigger] (a + b)[i]).value,
            depth,
        ) by {
            if i < a.len() {
                assert((a + b)[i] == a[i]);
            } else {
                assert((a + b)[i] == b[i - a.len()]);
            }
        }
    }
    if all_printable(a + b, depth) {
        assert forall|i: int| 0 <= i < a.len() implies printable((#[trigger] a[i]).value, depth) by {
            assert((a + b)[i] == a[i]);
        }
        assert forall|i: int| 0 <= i < b.len() implies printable((#[trigger] b[i]).value, depth) by {
            assert((a + b)[i + a.len()] == b[i]);
        }
    }
}

/// One member can be written if its value can.
pub broadcast proof fn lemma_all_printable_one(member: MemberValue, depth: nat)
    ensures
        #[trigger] all_printable(seq![member], depth) == printable(member.value, depth),
{
    reveal(all_printable);
    if all_printable(seq![member], depth) {
        assert(seq![member][0] == member);
    }
}

/// No members can be written.
pub broadcast proof fn lemma_all_printable_none(depth: nat)
    ensures
        #[trigger] all_printable(Seq::<MemberValue>::empty(), depth),
{
    reveal(all_printable);
}

pub broadcast group group_printable {
    lemma_all_printable_add,
    lemma_all_printable_one,
    lemma_all_printable_none,
}

/// If one item cannot be read, the items cannot.
pub proof fn lemma_read_each_none<T>(
    items: Seq<JsonValue>,
    at: int,
    read: spec_fn(JsonValue) -> Option<T>,
)
    requires
        0 <= at < items.len(),
        read(items[at]) is None,
    ensures
        read_each(items, read) is None,
    decreases items.len(),
{
    if at < items.len() - 1 {
        lemma_read_each_none(items.drop_last(), at, read);
    }
}

/// How a byte is written: as its number.
pub open spec fn byte_writer() -> spec_fn(u8) -> JsonValue {
    |byte: u8| integer_json(byte as int)
}

/// How a byte is read: from an integer between 0 and 255.
pub open spec fn byte_reader() -> spec_fn(JsonValue) -> Option<u8> {
    |json: JsonValue|
        match integer_of(json) {
            Some(n) => if 0 <= n <= 255 {
                Some(n as u8)
            } else {
                None
            },
            None => None,
        }
}

/// How a text is written.
pub open spec fn text_writer() -> spec_fn(Seq<char>) -> JsonValue {
    |text: Seq<char>| JsonValue::Text(text)
}

/// How a text is read.
pub open spec fn text_reader() -> spec_fn(JsonValue) -> Option<Seq<char>> {
    |json: JsonValue|
        match json {
            JsonValue::Text(text) => Some(text),
            _ => None,
        }
}

/// Reading written bytes gives them back.
pub proof fn lemma_bytes(bytes: Seq<u8>)
    ensures
        read_array(array_json(bytes, byte_writer()), byte_reader()) == Some(bytes),
        printable(array_json(bytes, byte_writer()), 1),
{
    assert forall|i: int| 0 <= i < bytes.len() implies (byte_reader())(
        (byte_writer())(#[trigger] bytes[i]),
    ) == Some(bytes[i]) && printable((byte_writer())(bytes[i]), 0) by {
        lemma_integer(bytes[i] as i64);
    }
    lemma_read_each(bytes, byte_reader(), byte_writer());
    lemma_each_printable(bytes, byte_writer(), 1);
}

/// Reading written texts gives them back.
pub proof fn lemma_texts(texts: Seq<Seq<char>>)
    ensures
        read_array(array_json(texts, text_writer()), text_reader()) == Some(texts),
        printable(array_json(texts, text_writer()), 1),
{
    lemma_read_each(texts, text_reader(), text_writer());
    lemma_each_printable(texts, text_writer(), 1);
}

/// Writes bytes as an array of numbers.
pub fn bytes_to_json(bytes: &Vec<u8>) -> (json: Json)
    ensures
        json@ == array_json(bytes.deep_view(), byte_writer()),
{
    let mut written: Vec<Json> = Vec::new();
    let mut i: usize = 0;
    while i < bytes.len()
        invariant
            i <= bytes.len(),
            written.len() == i,
            forall|k: int| 0 <= k < i ==> (#[trigger] written[k])@ == integer_json(bytes[k] as int),
        decreases bytes.len() - i,
    {
        written.push(Json::Number(decimal_string(bytes[i] as i64)));
        i = i + 1;
    }
    let json = Json::Array(written);
    assert(json@->Array_0 =~= write_each(bytes.deep_view(), byte_writer()));
    json
}

/// Reads bytes from an array of numbers.
pub fn bytes_from_json(json: &Json) -> (read: Option<Vec<u8>>)
    ensures
        match read {
            Some(bytes) => read_array(json@, byte_reader()) == Some(bytes.deep_view()),
            None => read_array(json@, byte_reader()) is None,
        },
{
    let written = match json {
        Json::Array(written) => written,
        _ => {
            return None;
        },
    };
    let ghost all = json@->Array_0;
    assert(all.len() == written.len());
    let mut bytes: Vec<u8> = Vec::new();
    let mut i: usize = 0;
    while i < written.len()
        invariant
            i <= written.len(),
            json@ == JsonValue::Array(all),
            all.len() == written.len(),
            forall|k: int| 0 <= k < written.len() ==> all[k] == (#[trigger] written[k])@,
            read_each(all.take(i as int), byte_reader()) == Some(bytes.deep_view()),
        decreases written.len() - i,
    {
        assert(all.take(i + 1).drop_last() =~= all.take(i as int));
        let byte: u8 = match integer(&written[i]) {
            Some(n) => if 0 <= n && n <= 255 {
                n as u8
            } else {
                proof {
                    lemma_read_each_none(all, i as int, byte_reader());
                }
                return None;
            },
            None => {
                proof {
                    lemma_read_each_none(all, i as int, byte_reader());
                }
                return None;
            },
        };
        let ghost before = bytes.deep_view();
        bytes.push(byte);
        assert(bytes.deep_view() =~= before.push(byte));
        i = i + 1;
    }
    assert(all.take(i as int) =~= all);
    Some(bytes)
}

/// Writes texts as an array of strings.
pub fn texts_to_json(texts: &Vec<String>) -> (json: Json)
    ensures
        json@ == array_json(texts.deep_view(), text_writer()),
{
    let mut written: Vec<Json> = Vec::new();
    let mut i: usize = 0;
    while i < texts.len()
        invariant
            i <= texts.len(),
            written.len() == i,
            forall|k: int| 0 <= k < i ==> (#[trigger] written[k])@ == JsonValue::Text(texts[k]@),
        decreases texts.len() - i,
    {
        written.push(Json::Text(texts[i].clone()));
        i = i + 1;
    }
    let json = Json::Array(written);
    assert(json@->Array_0 =~= write_each(texts.deep_view(), text_writer()));
    json
}

/// Reads texts from an array of strings.
pub fn texts_from_json(json: &Json) -> (read: Option<Vec<String>>)
    ensures
        match read {
            Some(texts) => read_array(json@, text_reader()) == Some(texts.deep_view()),
            None => read_array(json@, text_reader()) is None,
        },
{
    let written = match json {
        Json::Array(written) => written,
        _ => {
            return None;
        },
    };
    let ghost all = json@->Array_0;
    assert(all.len() == written.len());
    let mut texts: Vec<String> = Vec::new();
    let mut i: usize = 0;
    while i < written.len()
        invariant
            i <= written.len(),
            json@ == JsonValue::Array(all),
            all.len() == written.len(),
            forall|k: int| 0 <= k < written.len() ==> all[k] == (#[trigger] written[k])@,
            read_each(all.take(i as int), text_reader()) == Some(texts.deep_view()),
        decreases written.len() - i,
    {
        assert(all.take(i + 1).drop_last() =~= all.take(i as int));
        match &written[i] {
            Json::Text(text) => {
                let ghost before = texts.deep_view();
                texts.push(text.clone());
                assert(texts.deep_view() =~= before.push(text@));
            },
            _ => {
                proof {
                    lemma_read_each_none(all, i as int, text_reader());
                }
                return None;
            },
        }
        i = i + 1;
    }
    assert(all.take(i as int) =~= all);
    Some(texts)
}

/// What the value under `name`, which must be there, is read as.
pub open spec fn req_record<T>(
    members: Seq<MemberValue>,
    name: Seq<char>,
    read: spec_fn(JsonValue) -> Option<T>,
) -> Option<T> {
    match lookup(members, name) {
        Some(json) => read(json),
        None => None,
    }
}

/// What the value under `name`, which may be missing or null, is read
/// as.
pub open spec fn opt_record<T>(
    members: Seq<MemberValue>,
    name: Seq<char>,
    read: spec_fn(JsonValue) -> Option<T>,
) -> Option<Option<T>> {
    match lookup(members, name) {
        None => Some(None),
        Some(JsonValue::Null) => Some(None),
        Some(json) => match read(json) {
            Some(value) => Some(Some(value)),
            None => None,
        },
    }
}

} // verus!
