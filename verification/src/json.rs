//! JSON values and their text.
//!
//! The wire speaks JSON.  This module reads a text into a value and writes
//! a value as text, and proves that reading undoes writing.  Writing is
//! compact: no blanks, members in the order in which the value holds them.
//! Reading takes any blanks that JSON allows, and every escape.

use crate::correlation::is_digit;
use vstd::prelude::*;
use vstd::string::*;

verus! {

/// A JSON value, as mathematics.
///
/// A number is kept as its text, so that no digit is lost; an object is
/// the sequence of its members, in the order of the text.
pub enum JsonValue {
    Null,
    Bool(bool),
    Number(Seq<char>),
    Text(Seq<char>),
    Array(Seq<JsonValue>),
    Object(Seq<MemberValue>),
}

/// A member of a JSON object, as mathematics: a name and a value.
pub struct MemberValue {
    pub name: Seq<char>,
    pub value: JsonValue,
}

/// A JSON value.  Its view is the [`JsonValue`] that it stands for.
#[derive(Debug, PartialEq)]
pub enum Json {
    Null,
    Bool(bool),
    Number(String),
    Text(String),
    Array(Vec<Json>),
    Object(Vec<Member>),
}

/// A member of a JSON object: a name and a value.
#[derive(Debug, PartialEq)]
pub struct Member {
    pub name: String,
    pub value: Json,
}

impl View for Json {
    type V = JsonValue;

    open spec fn view(&self) -> JsonValue
        decreases self,
    {
        match self {
            Json::Null => JsonValue::Null,
            Json::Bool(b) => JsonValue::Bool(*b),
            Json::Number(text) => JsonValue::Number(text@),
            Json::Text(text) => JsonValue::Text(text@),
            Json::Array(items) => JsonValue::Array(
                Seq::new(
                    items.len() as nat,
                    |i: int|
                        if 0 <= i < items.len() {
                            items[i]@
                        } else {
                            JsonValue::Null
                        },
                ),
            ),
            Json::Object(members) => JsonValue::Object(
                Seq::new(
                    members.len() as nat,
                    |i: int|
                        if 0 <= i < members.len() {
                            MemberValue { name: members[i].name@, value: members[i].value@ }
                        } else {
                            MemberValue { name: Seq::empty(), value: JsonValue::Null }
                        },
                ),
            ),
        }
    }
}

/// The digit that stands for `n` in base 16, for `0 <= n < 16`.
pub open spec fn hex_digit(n: int) -> char {
    seq!['0', '1', '2', '3', '4', '5', '6', '7', '8', '9', 'a', 'b', 'c', 'd', 'e', 'f'][n]
}

/// How one character of a string is written: a quote and a backslash
/// behind a backslash, a control character as `\u00` and two digits of
/// base 16, any other character as it is.
pub open spec fn escape_char(c: char) -> Seq<char> {
    if c == '"' {
        seq!['\\', '"']
    } else if c == '\\' {
        seq!['\\', '\\']
    } else if (c as u32) < 0x20 {
        seq!['\\', 'u', '0', '0', hex_digit((c as u32 / 16) as int), hex_digit((c as u32 % 16) as int)]
    } else {
        seq![c]
    }
}

/// How the characters of a string are written, without the quotes around
/// them.
pub open spec fn escape(text: Seq<char>) -> Seq<char>
    decreases text.len(),
{
    if text.len() == 0 {
        Seq::empty()
    } else {
        escape_char(text[0]) + escape(text.drop_first())
    }
}

/// How a string is written: its characters between quotes.
pub open spec fn print_text(text: Seq<char>) -> Seq<char> {
    seq!['"'] + escape(text) + seq!['"']
}

/// The text of a value.
pub open spec fn print(value: JsonValue) -> Seq<char>
    decreases value,
{
    match value {
        JsonValue::Null => seq!['n', 'u', 'l', 'l'],
        JsonValue::Bool(true) => seq!['t', 'r', 'u', 'e'],
        JsonValue::Bool(false) => seq!['f', 'a', 'l', 's', 'e'],
        JsonValue::Number(text) => text,
        JsonValue::Text(text) => print_text(text),
        JsonValue::Array(items) => if items.len() == 0 {
            seq!['[', ']']
        } else {
            seq!['['] + print_items(items, 0)
        },
        JsonValue::Object(members) => if members.len() == 0 {
            seq!['{', '}']
        } else {
            seq!['{'] + print_members(members, 0)
        },
    }
}

/// The text of the items of an array from the one at `from` on, with the
/// commas between them and the closing bracket.
pub open spec fn print_items(items: Seq<JsonValue>, from: int) -> Seq<char>
    decreases items, items.len() - from,
{
    if 0 <= from < items.len() {
        print(items[from]) + if from + 1 < items.len() {
            seq![','] + print_items(items, from + 1)
        } else {
            seq![']']
        }
    } else {
        Seq::empty()
    }
}

/// The text of the members of an object from the one at `from` on, with
/// the commas between them and the closing brace.
pub open spec fn print_members(members: Seq<MemberValue>, from: int) -> Seq<char>
    decreases members, members.len() - from,
{
    if 0 <= from < members.len() {
        print_text(members[from].name) + seq![':'] + print(members[from].value) + if from + 1
            < members.len() {
            seq![','] + print_members(members, from + 1)
        } else {
            seq!['}']
        }
    } else {
        Seq::empty()
    }
}

/// `String::push` appends one character to the text.
#[verifier::external_body]
fn push_char(text: &mut String, c: char)
    ensures
        final(text)@ == old(text)@.push(c),
{
    text.push(c)
}

fn hex_digit_of(n: u32) -> (digit: char)
    requires
        n < 16,
    ensures
        digit == hex_digit(n as int),
{
    if n == 0 {
        '0'
    } else if n == 1 {
        '1'
    } else if n == 2 {
        '2'
    } else if n == 3 {
        '3'
    } else if n == 4 {
        '4'
    } else if n == 5 {
        '5'
    } else if n == 6 {
        '6'
    } else if n == 7 {
        '7'
    } else if n == 8 {
        '8'
    } else if n == 9 {
        '9'
    } else if n == 10 {
        'a'
    } else if n == 11 {
        'b'
    } else if n == 12 {
        'c'
    } else if n == 13 {
        'd'
    } else if n == 14 {
        'e'
    } else {
        'f'
    }
}

/// Writing distributes over joining.
pub proof fn lemma_escape_add(a: Seq<char>, b: Seq<char>)
    ensures
        escape(a + b) == escape(a) + escape(b),
    decreases a.len(),
{
    if a.len() == 0 {
        assert(a + b =~= b);
        assert(escape(a) + escape(b) =~= escape(b));
    } else {
        assert((a + b).drop_first() =~= a.drop_first() + b);
        lemma_escape_add(a.drop_first(), b);
        assert(escape(a + b) =~= escape(a) + escape(b));
    }
}

fn write_char(c: char, out: &mut String)
    ensures
        final(out)@ == old(out)@ + escape_char(c),
{
    let code: u32 = c as u32;
    if c == '"' {
        push_char(out, '\\');
        push_char(out, '"');
    } else if c == '\\' {
        push_char(out, '\\');
        push_char(out, '\\');
    } else if code < 0x20 {
        push_char(out, '\\');
        push_char(out, 'u');
        push_char(out, '0');
        push_char(out, '0');
        push_char(out, hex_digit_of(code / 16));
        push_char(out, hex_digit_of(code % 16));
    } else {
        push_char(out, c);
    }
    assert(out@ =~= old(out)@ + escape_char(c));
}

/// Writes `text` as a JSON string.
pub fn write_text(text: &str, out: &mut String)
    ensures
        final(out)@ == old(out)@ + print_text(text@),
{
    push_char(out, '"');
    let ghost base = out@;
    for c in it: text.chars()
        invariant
            it.seq() == text@,
            out@ == base + escape(text@.take(it.index())),
    {
        proof {
            let before = text@.take(it.index());
            let after = text@.take(it.index() + 1);
            assert(after =~= before + seq![c]);
            lemma_escape_add(before, seq![c]);
            assert(seq![c].drop_first() =~= Seq::<char>::empty());
            assert(escape(Seq::<char>::empty()) =~= Seq::<char>::empty());
            assert(escape(seq![c]) =~= escape_char(c) + escape(seq![c].drop_first()));
            assert(escape(seq![c]) =~= escape_char(c));
        }
        write_char(c, out);
        assert(out@ =~= base + escape(text@.take(it.index() + 1)));
    }
    assert(text@.take(text@.len() as int) =~= text@);
    push_char(out, '"');
    assert(out@ =~= old(out)@ + print_text(text@));
}

impl Json {
    /// Writes the text of this value.
    #[verifier::loop_isolation(false)]
    pub fn write(&self, out: &mut String)
        ensures
            final(out)@ == old(out)@ + print(self@),
        decreases self,
    {
        broadcast use vstd::std_specs::vec::group_vec_axioms;

        match self {
            Json::Null => {
                proof {
                    reveal_strlit("null");
                }
                out.append("null");
                assert(out@ =~= old(out)@ + print(self@));
            },
            Json::Bool(true) => {
                proof {
                    reveal_strlit("true");
                }
                out.append("true");
                assert(out@ =~= old(out)@ + print(self@));
            },
            Json::Bool(false) => {
                proof {
                    reveal_strlit("false");
                }
                out.append("false");
                assert(out@ =~= old(out)@ + print(self@));
            },
            Json::Number(text) => {
                out.append(text.as_str());
            },
            Json::Text(text) => {
                write_text(text.as_str(), out);
            },
            Json::Array(items) => {
                let ghost all = self@->Array_0;
                push_char(out, '[');
                if items.len() == 0 {
                    push_char(out, ']');
                    assert(out@ =~= old(out)@ + print(self@));
                } else {
                    let ghost target = old(out)@ + print(self@);
                    assert(target =~= out@ + print_items(all, 0));
                    let mut i: usize = 0;
                    while i < items.len()
                        invariant
                            i <= items.len(),
                            all.len() == items.len(),
                            forall|k: int| 0 <= k < items.len() ==> all[k] == items[k]@,
                            i < items.len() ==> target == out@ + print_items(all, i as int),
                            i == items.len() ==> target == out@,
                        decreases items.len() - i,
                    {
                        let ghost before = out@;
                        items[i].write(out);
                        if i + 1 < items.len() {
                            push_char(out, ',');
                            assert(before + print_items(all, i as int) =~= out@ + print_items(
                                all,
                                i + 1,
                            ));
                        } else {
                            push_char(out, ']');
                            assert(before + print_items(all, i as int) =~= out@);
                        }
                        i = i + 1;
                    }
                }
            },
            Json::Object(members) => {
                let ghost all = self@->Object_0;
                assert(all.len() == members.len());
                push_char(out, '{');
                if members.len() == 0 {
                    push_char(out, '}');
                    assert(out@ =~= old(out)@ + print(self@));
                } else {
                    let ghost target = old(out)@ + print(self@);
                    assert(target =~= out@ + print_members(all, 0));
                    let mut i: usize = 0;
                    while i < members.len()
                        invariant
                            i <= members.len(),
                            all.len() == members.len(),
                            forall|k: int|
                                0 <= k < members.len() ==> all[k] == (MemberValue {
                                    name: members[k].name@,
                                    value: members[k].value@,
                                }),
                            i < members.len() ==> target == out@ + print_members(all, i as int),
                            i == members.len() ==> target == out@,
                        decreases members.len() - i,
                    {
                        let ghost before = out@;
                        write_text(members[i].name.as_str(), out);
                        push_char(out, ':');
                        members[i].value.write(out);
                        if i + 1 < members.len() {
                            push_char(out, ',');
                            assert(before + print_members(all, i as int) =~= out@ + print_members(
                                all,
                                i + 1,
                            ));
                        } else {
                            push_char(out, '}');
                            assert(before + print_members(all, i as int) =~= out@);
                        }
                        i = i + 1;
                    }
                }
            },
        }
    }

    /// The text of this value.
    pub fn to_text(&self) -> (text: String)
        ensures
            text@ == print(self@),
    {
        let mut text = String::new();
        self.write(&mut text);
        assert(text@ =~= print(self@));
        text
    }
}

/// What reading gave, and where the text that was read ends.
pub struct Parsed<T> {
    pub value: T,
    pub end: int,
}

/// How deep arrays and objects may be nested in a text that is read.
pub const MAX_DEPTH: usize = 64;

/// Whether `c` is one of the blanks that may stand between the parts of a
/// JSON text.
pub open spec fn is_blank(c: char) -> bool {
    c == ' ' || c == '\n' || c == '\r' || c == '\t'
}

/// The first place at or after `i` that holds no blank.
pub open spec fn skip_blanks(s: Seq<char>, i: int) -> int
    decreases s.len() - i,
{
    if 0 <= i < s.len() && is_blank(s[i]) {
        skip_blanks(s, i + 1)
    } else {
        i
    }
}

/// Whether `part` stands in `s` at `i`.
pub open spec fn occurs_at(s: Seq<char>, i: int, part: Seq<char>) -> bool {
    &&& 0 <= i
    &&& i + part.len() <= s.len()
    &&& s.subrange(i, i + part.len()) == part
}

/// The value of `c` as a digit of base 16.
pub open spec fn hex_value(c: char) -> Option<int> {
    if '0' <= c && c <= '9' {
        Some(c as u32 - '0' as u32)
    } else if 'a' <= c && c <= 'f' {
        Some(c as u32 - 'a' as u32 + 10)
    } else if 'A' <= c && c <= 'F' {
        Some(c as u32 - 'A' as u32 + 10)
    } else {
        None
    }
}

/// The number that the four digits of base 16 at `i` denote.
pub open spec fn hex4(s: Seq<char>, i: int) -> Option<int> {
    if 0 <= i && i + 4 <= s.len() && hex_value(s[i]) is Some && hex_value(s[i + 1]) is Some
        && hex_value(s[i + 2]) is Some && hex_value(s[i + 3]) is Some {
        Some(
            ((hex_value(s[i])->0 * 16 + hex_value(s[i + 1])->0) * 16 + hex_value(s[i + 2])->0) * 16
                + hex_value(s[i + 3])->0,
        )
    } else {
        None
    }
}

/// The character that an escape denotes, `i` being the place behind the
/// backslash.  A `\u` escape gives the character with that number; the
/// two halves of a surrogate pair give one character together, and half a
/// pair gives none.
pub open spec fn parse_escape(s: Seq<char>, i: int) -> Option<Parsed<char>> {
    if i < 0 || i >= s.len() {
        None
    } else if s[i] == '"' {
        Some(Parsed { value: '"', end: i + 1 })
    } else if s[i] == '\\' {
        Some(Parsed { value: '\\', end: i + 1 })
    } else if s[i] == '/' {
        Some(Parsed { value: '/', end: i + 1 })
    } else if s[i] == 'b' {
        Some(Parsed { value: '\u{8}', end: i + 1 })
    } else if s[i] == 'f' {
        Some(Parsed { value: '\u{c}', end: i + 1 })
    } else if s[i] == 'n' {
        Some(Parsed { value: '\n', end: i + 1 })
    } else if s[i] == 'r' {
        Some(Parsed { value: '\r', end: i + 1 })
    } else if s[i] == 't' {
        Some(Parsed { value: '\t', end: i + 1 })
    } else if s[i] == 'u' {
        match hex4(s, i + 1) {
            None => None,
            Some(code) => if 0xD800 <= code <= 0xDBFF {
                if i + 7 <= s.len() && s[i + 5] == '\\' && s[i + 6] == 'u' {
                    match hex4(s, i + 7) {
                        Some(low) => if 0xDC00 <= low <= 0xDFFF {
                            Some(
                                Parsed {
                                    value: ((0x10000 + (code - 0xD800) * 0x400 + (low
                                        - 0xDC00)) as u32) as char,
                                    end: i + 11,
                                },
                            )
                        } else {
                            None
                        },
                        None => None,
                    }
                } else {
                    None
                }
            } else if 0xDC00 <= code <= 0xDFFF {
                None
            } else {
                Some(Parsed { value: (code as u32) as char, end: i + 5 })
            },
        }
    } else {
        None
    }
}

/// The characters of the string whose text goes on at `i`, up to the
/// closing quote, and the place behind that quote.
pub open spec fn parse_chars(s: Seq<char>, i: int) -> Option<Parsed<Seq<char>>>
    decreases s.len() - i,
{
    if i < 0 || i >= s.len() {
        None
    } else if s[i] == '"' {
        Some(Parsed { value: Seq::empty(), end: i + 1 })
    } else if s[i] == '\\' {
        match parse_escape(s, i + 1) {
            Some(escaped) => if escaped.end > i {
                match parse_chars(s, escaped.end) {
                    Some(rest) => Some(
                        Parsed { value: seq![escaped.value] + rest.value, end: rest.end },
                    ),
                    None => None,
                }
            } else {
                None
            },
            None => None,
        }
    } else if (s[i] as u32) < 0x20 {
        None
    } else {
        match parse_chars(s, i + 1) {
            Some(rest) => Some(Parsed { value: seq![s[i]] + rest.value, end: rest.end }),
            None => None,
        }
    }
}

/// The first place at or after `i` that holds no digit.
pub open spec fn digits_end(s: Seq<char>, i: int) -> int
    decreases s.len() - i,
{
    if 0 <= i < s.len() && is_digit(s[i]) {
        digits_end(s, i + 1)
    } else {
        i
    }
}

/// Where the whole part of the number at `i` ends: behind the sign, if
/// there is one, comes a single zero or a run of digits.
pub open spec fn whole_end(s: Seq<char>, i: int) -> Option<int> {
    let first = if 0 <= i < s.len() && s[i] == '-' {
        i + 1
    } else {
        i
    };
    if 0 <= first < s.len() && is_digit(s[first]) {
        if s[first] == '0' {
            Some(first + 1)
        } else {
            Some(digits_end(s, first))
        }
    } else {
        None
    }
}

/// Where the fraction that may stand at `i` ends: a point asks for at
/// least one digit behind it.
pub open spec fn fraction_end(s: Seq<char>, i: int) -> Option<int> {
    if 0 <= i < s.len() && s[i] == '.' {
        if i + 1 < s.len() && is_digit(s[i + 1]) {
            Some(digits_end(s, i + 1))
        } else {
            None
        }
    } else {
        Some(i)
    }
}

/// Where the exponent that may stand at `i` ends: an `e` asks for at
/// least one digit behind it, with or without a sign.
pub open spec fn exponent_end(s: Seq<char>, i: int) -> Option<int> {
    if 0 <= i < s.len() && (s[i] == 'e' || s[i] == 'E') {
        let digits = if i + 1 < s.len() && (s[i + 1] == '+' || s[i + 1] == '-') {
            i + 2
        } else {
            i + 1
        };
        if digits < s.len() && is_digit(s[digits]) {
            Some(digits_end(s, digits))
        } else {
            None
        }
    } else {
        Some(i)
    }
}

/// Where the number at `i` ends, if a number stands there.
pub open spec fn number_end(s: Seq<char>, i: int) -> Option<int> {
    match whole_end(s, i) {
        None => None,
        Some(whole) => match fraction_end(s, whole) {
            None => None,
            Some(fraction) => exponent_end(s, fraction),
        },
    }
}

/// Whether `text` is the text of one JSON number, and nothing else.
pub open spec fn is_number(text: Seq<char>) -> bool {
    number_end(text, 0) == Some(text.len() as int)
}

/// The value whose text starts at `i`, with at most `depth` levels of
/// arrays and objects, and the place where that text ends.
#[verifier::opaque]
pub open spec fn parse_value(s: Seq<char>, i: int, depth: nat) -> Option<Parsed<JsonValue>>
    decreases depth, s.len() - i, 0nat,
{
    if i < 0 || i >= s.len() {
        None
    } else if s[i] == '"' {
        match parse_chars(s, i + 1) {
            Some(text) => Some(Parsed { value: JsonValue::Text(text.value), end: text.end }),
            None => None,
        }
    } else if s[i] == '[' {
        if depth == 0 {
            None
        } else {
            match parse_items(s, skip_blanks(s, i + 1), (depth - 1) as nat) {
                Some(items) => Some(Parsed { value: JsonValue::Array(items.value), end: items.end }),
                None => None,
            }
        }
    } else if s[i] == '{' {
        if depth == 0 {
            None
        } else {
            match parse_members(s, skip_blanks(s, i + 1), (depth - 1) as nat) {
                Some(members) => Some(
                    Parsed { value: JsonValue::Object(members.value), end: members.end },
                ),
                None => None,
            }
        }
    } else if s[i] == 't' {
        if occurs_at(s, i, seq!['t', 'r', 'u', 'e']) {
            Some(Parsed { value: JsonValue::Bool(true), end: i + 4 })
        } else {
            None
        }
    } else if s[i] == 'f' {
        if occurs_at(s, i, seq!['f', 'a', 'l', 's', 'e']) {
            Some(Parsed { value: JsonValue::Bool(false), end: i + 5 })
        } else {
            None
        }
    } else if s[i] == 'n' {
        if occurs_at(s, i, seq!['n', 'u', 'l', 'l']) {
            Some(Parsed { value: JsonValue::Null, end: i + 4 })
        } else {
            None
        }
    } else if s[i] == '-' || is_digit(s[i]) {
        match number_end(s, i) {
            Some(end) => if i < end <= s.len() {
                Some(Parsed { value: JsonValue::Number(s.subrange(i, end)), end })
            } else {
                None
            },
            None => None,
        }
    } else {
        None
    }
}

/// The items of the array whose text goes on at `i`, behind the opening
/// bracket and the blanks after it.
#[verifier::opaque]
pub open spec fn parse_items(s: Seq<char>, i: int, depth: nat) -> Option<Parsed<Seq<JsonValue>>>
    decreases depth, s.len() - i, 2nat,
{
    if 0 <= i < s.len() && s[i] == ']' {
        Some(Parsed { value: Seq::empty(), end: i + 1 })
    } else {
        parse_more_items(s, i, depth)
    }
}

/// The items of an array from the one whose text starts at `i` on.
#[verifier::opaque]
pub open spec fn parse_more_items(s: Seq<char>, i: int, depth: nat) -> Option<
    Parsed<Seq<JsonValue>>,
>
    decreases depth, s.len() - i, 1nat,
{
    match parse_value(s, i, depth) {
        None => None,
        Some(item) => {
            let next = skip_blanks(s, item.end);
            if item.end <= i || next < item.end || next >= s.len() {
                None
            } else if s[next] == ']' {
                Some(Parsed { value: seq![item.value], end: next + 1 })
            } else if s[next] == ',' {
                let start = skip_blanks(s, next + 1);
                if start <= next || start > s.len() {
                    None
                } else {
                    match parse_more_items(s, start, depth) {
                        Some(rest) => Some(
                            Parsed { value: seq![item.value] + rest.value, end: rest.end },
                        ),
                        None => None,
                    }
                }
            } else {
                None
            }
        },
    }
}

/// The members of the object whose text goes on at `i`, behind the
/// opening brace and the blanks after it.
#[verifier::opaque]
pub open spec fn parse_members(s: Seq<char>, i: int, depth: nat) -> Option<
    Parsed<Seq<MemberValue>>,
>
    decreases depth, s.len() - i, 2nat,
{
    if 0 <= i < s.len() && s[i] == '}' {
        Some(Parsed { value: Seq::empty(), end: i + 1 })
    } else {
        parse_more_members(s, i, depth)
    }
}

/// The members of an object from the one whose text starts at `i` on.
#[verifier::opaque]
pub open spec fn parse_more_members(s: Seq<char>, i: int, depth: nat) -> Option<
    Parsed<Seq<MemberValue>>,
>
    decreases depth, s.len() - i, 1nat,
{
    if i < 0 || i >= s.len() || s[i] != '"' {
        None
    } else {
        match parse_chars(s, i + 1) {
            None => None,
            Some(name) => {
                let colon = skip_blanks(s, name.end);
                if name.end <= i || colon < name.end || colon >= s.len() || s[colon] != ':' {
                    None
                } else {
                    let start = skip_blanks(s, colon + 1);
                    if start <= colon || start > s.len() {
                        None
                    } else {
                        match parse_value(s, start, depth) {
                            None => None,
                            Some(item) => {
                                let next = skip_blanks(s, item.end);
                                let member = MemberValue { name: name.value, value: item.value };
                                if item.end <= start || next < item.end || next >= s.len() {
                                    None
                                } else if s[next] == '}' {
                                    Some(Parsed { value: seq![member], end: next + 1 })
                                } else if s[next] == ',' {
                                    let more = skip_blanks(s, next + 1);
                                    if more <= next || more > s.len() {
                                        None
                                    } else {
                                        match parse_more_members(s, more, depth) {
                                            Some(rest) => Some(
                                                Parsed {
                                                    value: seq![member] + rest.value,
                                                    end: rest.end,
                                                },
                                            ),
                                            None => None,
                                        }
                                    }
                                } else {
                                    None
                                }
                            },
                        }
                    }
                }
            },
        }
    }
}

/// The value that the text `s` denotes: one value, with blanks before and
/// after it at most.
pub open spec fn parse_spec(s: Seq<char>) -> Option<JsonValue> {
    match parse_value(s, skip_blanks(s, 0), MAX_DEPTH as nat) {
        Some(parsed) => if skip_blanks(s, parsed.end) == s.len() {
            Some(parsed.value)
        } else {
            None
        },
        None => None,
    }
}

/// Where two texts stand joined, each of them stands.
pub proof fn lemma_occurs_split(s: Seq<char>, i: int, a: Seq<char>, b: Seq<char>)
    requires
        occurs_at(s, i, a + b),
    ensures
        occurs_at(s, i, a),
        occurs_at(s, i + a.len(), b),
{
    let whole = s.subrange(i, i + (a + b).len());
    assert(s.subrange(i, i + a.len()) =~= whole.subrange(0, a.len() as int));
    assert(whole.subrange(0, a.len() as int) =~= a);
    assert(s.subrange(i + a.len(), i + a.len() + b.len()) =~= whole.subrange(
        a.len() as int,
        (a + b).len() as int,
    ));
    assert(whole.subrange(a.len() as int, (a + b).len() as int) =~= b);
}

/// Where a text stands, each of its characters stands.
pub proof fn lemma_occurs_index(s: Seq<char>, i: int, part: Seq<char>, k: int)
    requires
        occurs_at(s, i, part),
        0 <= k < part.len(),
    ensures
        s[i + k] == part[k],
{
    assert(s.subrange(i, i + part.len())[k] == s[i + k]);
}

/// A character is known by its number.
pub proof fn lemma_char_code(c: char)
    ensures
        (c as u32) as char == c,
        c as u32 <= 0x10FFFF,
        !(0xD800 <= c as u32 <= 0xDFFF),
{
}

/// A digit of base 16 denotes the number that it was written for.
pub proof fn lemma_hex_digit(n: int)
    requires
        0 <= n < 16,
    ensures
        hex_value(hex_digit(n)) == Some(n),
{
}

/// Reading a written string gives its characters back, and ends behind
/// the closing quote.
pub proof fn lemma_parse_chars(s: Seq<char>, i: int, text: Seq<char>)
    requires
        occurs_at(s, i, escape(text) + seq!['"']),
    ensures
        parse_chars(s, i) == Some(Parsed { value: text, end: i + escape(text).len() + 1 }),
    decreases text.len(),
{
    if text.len() == 0 {
        assert(escape(text) =~= Seq::<char>::empty());
        lemma_occurs_index(s, i, escape(text) + seq!['"'], 0);
        assert(s[i] == '"');
        assert(text =~= Seq::<char>::empty());
        assert(parse_chars(s, i) == Some(Parsed { value: text, end: i + 1 }));
    } else {
        let c = text[0];
        let rest = text.drop_first();
        let head = escape_char(c);
        let tail = escape(rest) + seq!['"'];
        assert(escape(text) + seq!['"'] =~= head + tail);
        lemma_occurs_split(s, i, head, tail);
        lemma_parse_chars(s, i + head.len(), rest);
        lemma_occurs_index(s, i, head, 0);
        assert(text =~= seq![c] + rest);
        assert(escape(text).len() == head.len() + escape(rest).len());
        if c == '"' || c == '\\' {
            lemma_occurs_index(s, i, head, 1);
            assert(s[i] == '\\');
            assert(parse_escape(s, i + 1) == Some(Parsed { value: c, end: i + 2 }));
            assert(parse_chars(s, i) == Some(
                Parsed { value: text, end: i + escape(text).len() + 1 },
            ));
        } else if (c as u32) < 0x20 {
            let code = c as u32 as int;
            lemma_char_code(c);
            assert(0 <= code < 0x20);
            lemma_occurs_index(s, i, head, 1);
            lemma_occurs_index(s, i, head, 2);
            lemma_occurs_index(s, i, head, 3);
            lemma_occurs_index(s, i, head, 4);
            lemma_occurs_index(s, i, head, 5);
            lemma_hex_digit(code / 16);
            lemma_hex_digit(code % 16);
            assert(hex_value('0') == Some(0int));
            assert(s[i] == '\\' && s[i + 1] == 'u');
            assert(hex4(s, i + 2) == Some(code));
            assert((code as u32) as char == c);
            assert(parse_escape(s, i + 1) == Some(Parsed { value: c, end: i + 6 }));
            assert(parse_chars(s, i) == Some(
                Parsed { value: text, end: i + escape(text).len() + 1 },
            ));
        } else {
            assert(s[i] == c);
            assert(parse_chars(s, i) == Some(
                Parsed { value: text, end: i + escape(text).len() + 1 },
            ));
        }
    }
}

/// Whether the text of a value may end at `end`: the text is over, or
/// what comes is a comma, a closing bracket or a closing brace.
pub open spec fn stops(s: Seq<char>, end: int) -> bool {
    end >= s.len() || s[end] == ',' || s[end] == ']' || s[end] == '}'
}

/// A run of digits in a text that stands in `s` is the same run in `s`,
/// if what follows the text is no digit.
pub proof fn lemma_digits_end(s: Seq<char>, i: int, text: Seq<char>, k: int)
    requires
        occurs_at(s, i, text),
        0 <= k <= text.len(),
        stops(s, i + text.len()),
    ensures
        digits_end(s, i + k) == i + digits_end(text, k),
    decreases text.len() - k,
{
    if k < text.len() {
        lemma_occurs_index(s, i, text, k);
        if is_digit(text[k]) {
            lemma_digits_end(s, i, text, k + 1);
        }
    }
}

/// A run of digits ends in the text that it starts in.
pub proof fn lemma_digits_end_bounds(s: Seq<char>, k: int)
    requires
        0 <= k <= s.len(),
    ensures
        k <= digits_end(s, k) <= s.len(),
    decreases s.len() - k,
{
    if k < s.len() && is_digit(s[k]) {
        lemma_digits_end_bounds(s, k + 1);
    }
}

/// A number that stands in `s` and is followed by nothing that could go
/// on with it is read as that number, and starts with a sign or a digit.
pub proof fn lemma_number_end(s: Seq<char>, i: int, text: Seq<char>)
    requires
        occurs_at(s, i, text),
        is_number(text),
        stops(s, i + text.len()),
    ensures
        number_end(s, i) == Some(i + text.len()),
        text.len() > 0,
        text[0] == '-' || is_digit(text[0]),
        s.subrange(i, i + text.len()) == text,
{
    let n = text.len() as int;
    let first = if 0 < n && text[0] == '-' {
        1int
    } else {
        0int
    };
    assert(whole_end(text, 0) is Some);
    assert(0 <= first < n && is_digit(text[first]));
    lemma_occurs_index(s, i, text, 0);
    lemma_occurs_index(s, i, text, first);
    lemma_digits_end(s, i, text, first);
    lemma_digits_end_bounds(text, first);
    let whole = whole_end(text, 0)->0;
    assert(whole_end(s, i) == Some(i + whole));
    assert(first < whole <= n);
    if whole < n {
        lemma_occurs_index(s, i, text, whole);
        if text[whole] == '.' {
            assert(whole + 1 < n && is_digit(text[whole + 1]));
            lemma_occurs_index(s, i, text, whole + 1);
            lemma_digits_end(s, i, text, whole + 1);
            lemma_digits_end_bounds(text, whole + 1);
        }
    }
    let fraction = fraction_end(text, whole)->0;
    assert(fraction_end(s, i + whole) == Some(i + fraction));
    assert(whole <= fraction <= n);
    if fraction < n {
        lemma_occurs_index(s, i, text, fraction);
        if text[fraction] == 'e' || text[fraction] == 'E' {
            let digits = if fraction + 1 < n && (text[fraction + 1] == '+' || text[fraction + 1]
                == '-') {
                fraction + 2
            } else {
                fraction + 1
            };
            if fraction + 1 < n {
                lemma_occurs_index(s, i, text, fraction + 1);
            }
            assert(digits < n && is_digit(text[digits]));
            lemma_occurs_index(s, i, text, digits);
            lemma_digits_end(s, i, text, digits);
        }
    }
    assert(exponent_end(s, i + fraction) == Some(i + n));
}

/// Whether `value` can be written and read back: its numbers are JSON
/// numbers, and its arrays and objects are nested `depth` deep at most.
pub open spec fn printable(value: JsonValue, depth: nat) -> bool
    decreases value,
{
    match value {
        JsonValue::Number(text) => is_number(text),
        JsonValue::Array(items) => depth > 0 && items_printable(items, 0, (depth - 1) as nat),
        JsonValue::Object(members) => depth > 0 && members_printable(
            members,
            0,
            (depth - 1) as nat,
        ),
        _ => true,
    }
}

/// Whether the items from the one at `from` on can be written and read
/// back.
pub open spec fn items_printable(items: Seq<JsonValue>, from: int, depth: nat) -> bool
    decreases items, items.len() - from,
{
    if 0 <= from < items.len() {
        printable(items[from], depth) && items_printable(items, from + 1, depth)
    } else {
        true
    }
}

/// Whether the values of the members from the one at `from` on can be
/// written and read back.
pub open spec fn members_printable(members: Seq<MemberValue>, from: int, depth: nat) -> bool
    decreases members, members.len() - from,
{
    if 0 <= from < members.len() {
        printable(members[from].value, depth) && members_printable(members, from + 1, depth)
    } else {
        true
    }
}

/// Whether `c` can be the first character of the text of a value.
pub open spec fn starts_value(c: char) -> bool {
    c == '"' || c == '[' || c == '{' || c == 't' || c == 'f' || c == 'n' || c == '-' || is_digit(
        c,
    )
}

/// The text of a value is not empty, and starts as the text of a value
/// does.
pub proof fn lemma_print_starts(value: JsonValue, depth: nat)
    requires
        printable(value, depth),
    ensures
        print(value).len() > 0,
        starts_value(print(value)[0]),
{
    match value {
        JsonValue::Number(text) => {
            assert(whole_end(text, 0) is Some);
        },
        _ => {},
    }
}

/// A quote at `i` starts a string.
proof fn lemma_value_text(s: Seq<char>, i: int, depth: nat)
    requires
        0 <= i < s.len(),
        s[i] == '"',
    ensures
        parse_value(s, i, depth) == match parse_chars(s, i + 1) {
            Some(text) => Some(Parsed { value: JsonValue::Text(text.value), end: text.end }),
            None => None,
        },
{
    reveal(parse_value);
    reveal(parse_items);
    reveal(parse_more_items);
    reveal(parse_members);
    reveal(parse_more_members);
}

/// A bracket at `i` starts an array.
proof fn lemma_value_array(s: Seq<char>, i: int, depth: nat)
    requires
        0 <= i < s.len(),
        s[i] == '[',
    ensures
        parse_value(s, i, depth) == if depth == 0 {
            None
        } else {
            match parse_items(s, skip_blanks(s, i + 1), (depth - 1) as nat) {
                Some(items) => Some(Parsed { value: JsonValue::Array(items.value), end: items.end }),
                None => None,
            }
        },
{
    reveal(parse_value);
    reveal(parse_items);
    reveal(parse_more_items);
    reveal(parse_members);
    reveal(parse_more_members);
}

/// A brace at `i` starts an object.
proof fn lemma_value_object(s: Seq<char>, i: int, depth: nat)
    requires
        0 <= i < s.len(),
        s[i] == '{',
    ensures
        parse_value(s, i, depth) == if depth == 0 {
            None
        } else {
            match parse_members(s, skip_blanks(s, i + 1), (depth - 1) as nat) {
                Some(members) => Some(
                    Parsed { value: JsonValue::Object(members.value), end: members.end },
                ),
                None => None,
            }
        },
{
    reveal(parse_value);
    reveal(parse_items);
    reveal(parse_more_items);
    reveal(parse_members);
    reveal(parse_more_members);
}

/// A letter at `i` starts one of the three words.
proof fn lemma_value_word(s: Seq<char>, i: int, depth: nat)
    requires
        0 <= i < s.len(),
        s[i] == 't' || s[i] == 'f' || s[i] == 'n',
    ensures
        parse_value(s, i, depth) == if occurs_at(s, i, seq!['t', 'r', 'u', 'e']) {
            Some(Parsed { value: JsonValue::Bool(true), end: i + 4 })
        } else if occurs_at(s, i, seq!['f', 'a', 'l', 's', 'e']) {
            Some(Parsed { value: JsonValue::Bool(false), end: i + 5 })
        } else if occurs_at(s, i, seq!['n', 'u', 'l', 'l']) {
            Some(Parsed { value: JsonValue::Null, end: i + 4 })
        } else {
            None
        },
{
    reveal(parse_value);
    reveal(parse_items);
    reveal(parse_more_items);
    reveal(parse_members);
    reveal(parse_more_members);
    if occurs_at(s, i, seq!['t', 'r', 'u', 'e']) {
        lemma_occurs_index(s, i, seq!['t', 'r', 'u', 'e'], 0);
    }
    if occurs_at(s, i, seq!['f', 'a', 'l', 's', 'e']) {
        lemma_occurs_index(s, i, seq!['f', 'a', 'l', 's', 'e'], 0);
    }
    if occurs_at(s, i, seq!['n', 'u', 'l', 'l']) {
        lemma_occurs_index(s, i, seq!['n', 'u', 'l', 'l'], 0);
    }
}

/// A sign or a digit at `i` starts a number.
proof fn lemma_value_number(s: Seq<char>, i: int, depth: nat)
    requires
        0 <= i < s.len(),
        s[i] == '-' || is_digit(s[i]),
    ensures
        parse_value(s, i, depth) == match number_end(s, i) {
            Some(end) => if i < end <= s.len() {
                Some(Parsed { value: JsonValue::Number(s.subrange(i, end)), end })
            } else {
                None
            },
            None => None,
        },
{
    reveal(parse_value);
    reveal(parse_items);
    reveal(parse_more_items);
    reveal(parse_members);
    reveal(parse_more_members);
}

/// Nothing else starts a value.
proof fn lemma_value_none(s: Seq<char>, i: int, depth: nat)
    requires
        !(0 <= i < s.len() && starts_value(s[i])),
    ensures
        parse_value(s, i, depth) is None,
{
    reveal(parse_value);
    reveal(parse_items);
    reveal(parse_more_items);
    reveal(parse_members);
    reveal(parse_more_members);
}

/// What the items of an array come to, given the first of them.
proof fn lemma_items_step(s: Seq<char>, i: int, depth: nat)
    ensures
        parse_items(s, i, depth) == if 0 <= i < s.len() && s[i] == ']' {
            Some(Parsed { value: Seq::<JsonValue>::empty(), end: i + 1 })
        } else {
            parse_more_items(s, i, depth)
        },
        parse_more_items(s, i, depth) == match parse_value(s, i, depth) {
            None => None,
            Some(item) => {
                let next = skip_blanks(s, item.end);
                if item.end <= i || next < item.end || next >= s.len() {
                    None
                } else if s[next] == ']' {
                    Some(Parsed { value: seq![item.value], end: next + 1 })
                } else if s[next] == ',' {
                    let start = skip_blanks(s, next + 1);
                    if start <= next || start > s.len() {
                        None
                    } else {
                        match parse_more_items(s, start, depth) {
                            Some(rest) => Some(
                                Parsed { value: seq![item.value] + rest.value, end: rest.end },
                            ),
                            None => None,
                        }
                    }
                } else {
                    None
                }
            },
        },
{
    reveal(parse_value);
    reveal(parse_items);
    reveal(parse_more_items);
    reveal(parse_members);
    reveal(parse_more_members);
}

/// What the members of an object come to, given the first of them.
proof fn lemma_members_step(s: Seq<char>, i: int, depth: nat)
    ensures
        parse_members(s, i, depth) == if 0 <= i < s.len() && s[i] == '}' {
            Some(Parsed { value: Seq::<MemberValue>::empty(), end: i + 1 })
        } else {
            parse_more_members(s, i, depth)
        },
        parse_more_members(s, i, depth) == if i < 0 || i >= s.len() || s[i] != '"' {
            None
        } else {
            match parse_chars(s, i + 1) {
                None => None,
                Some(name) => {
                    let colon = skip_blanks(s, name.end);
                    if name.end <= i || colon < name.end || colon >= s.len() || s[colon] != ':' {
                        None
                    } else {
                        let start = skip_blanks(s, colon + 1);
                        if start <= colon || start > s.len() {
                            None
                        } else {
                            match parse_value(s, start, depth) {
                                None => None,
                                Some(item) => {
                                    let next = skip_blanks(s, item.end);
                                    let member = MemberValue {
                                        name: name.value,
                                        value: item.value,
                                    };
                                    if item.end <= start || next < item.end || next >= s.len() {
                                        None
                                    } else if s[next] == '}' {
                                        Some(Parsed { value: seq![member], end: next + 1 })
                                    } else if s[next] == ',' {
                                        let more = skip_blanks(s, next + 1);
                                        if more <= next || more > s.len() {
                                            None
                                        } else {
                                            match parse_more_members(s, more, depth) {
                                                Some(rest) => Some(
                                                    Parsed {
                                                        value: seq![member] + rest.value,
                                                        end: rest.end,
                                                    },
                                                ),
                                                None => None,
                                            }
                                        }
                                    } else {
                                        None
                                    }
                                },
                            }
                        }
                    }
                },
            }
        },
{
    reveal(parse_value);
    reveal(parse_items);
    reveal(parse_more_items);
    reveal(parse_members);
    reveal(parse_more_members);
}

/// No blank is skipped where none stands.
proof fn lemma_no_blank(s: Seq<char>, i: int)
    requires
        !(0 <= i < s.len() && is_blank(s[i])),
    ensures
        skip_blanks(s, i) == i,
{
}

/// Reading a written value gives the value back, and ends where its text
/// ends.
pub proof fn lemma_parse_value(s: Seq<char>, i: int, value: JsonValue, depth: nat)
    requires
        printable(value, depth),
        occurs_at(s, i, print(value)),
        stops(s, i + print(value).len()),
    ensures
        parse_value(s, i, depth) == Some(Parsed { value, end: i + print(value).len() }),
    decreases value,
{
    let text = print(value);
    lemma_print_starts(value, depth);
    lemma_occurs_index(s, i, text, 0);
    match value {
        JsonValue::Null => {
            lemma_value_word(s, i, depth);
        },
        JsonValue::Bool(b) => {
            lemma_value_word(s, i, depth);
        },
        JsonValue::Number(number) => {
            lemma_number_end(s, i, number);
            lemma_value_number(s, i, depth);
        },
        JsonValue::Text(chars) => {
            assert(text =~= seq!['"'] + (escape(chars) + seq!['"']));
            lemma_occurs_split(s, i, seq!['"'], escape(chars) + seq!['"']);
            lemma_parse_chars(s, i + 1, chars);
            lemma_value_text(s, i, depth);
        },
        JsonValue::Array(items) => {
            lemma_value_array(s, i, depth);
            let below = (depth - 1) as nat;
            lemma_items_step(s, i + 1, below);
            if items.len() == 0 {
                lemma_occurs_index(s, i, text, 1);
                lemma_no_blank(s, i + 1);
                assert(items =~= Seq::<JsonValue>::empty());
            } else {
                let rest = print_items(items, 0);
                lemma_occurs_split(s, i, seq!['['], rest);
                lemma_parse_items(s, i + 1, items, 0, below);
                lemma_print_starts(items[0], below);
                lemma_occurs_index(s, i + 1, rest, 0);
                assert(rest[0] == print(items[0])[0]);
                lemma_no_blank(s, i + 1);
                assert(items.skip(0) =~= items);
            }
        },
        JsonValue::Object(members) => {
            lemma_value_object(s, i, depth);
            let below = (depth - 1) as nat;
            lemma_members_step(s, i + 1, below);
            if members.len() == 0 {
                lemma_occurs_index(s, i, text, 1);
                lemma_no_blank(s, i + 1);
                assert(members =~= Seq::<MemberValue>::empty());
            } else {
                let rest = print_members(members, 0);
                lemma_occurs_split(s, i, seq!['{'], rest);
                lemma_parse_members(s, i + 1, members, 0, below);
                lemma_occurs_index(s, i + 1, rest, 0);
                assert(rest[0] == '"');
                lemma_no_blank(s, i + 1);
                assert(members.skip(0) =~= members);
            }
        },
    }
}

/// Reading the written items of an array from one of them on gives those
/// items back.
pub proof fn lemma_parse_items(
    s: Seq<char>,
    i: int,
    items: Seq<JsonValue>,
    from: int,
    depth: nat,
)
    requires
        0 <= from < items.len(),
        items_printable(items, from, depth),
        occurs_at(s, i, print_items(items, from)),
    ensures
        parse_more_items(s, i, depth) == Some(
            Parsed { value: items.skip(from), end: i + print_items(items, from).len() },
        ),
    decreases items, items.len() - from,
{
    let item = print(items[from]);
    let last = from + 1 == items.len();
    let tail = if last {
        seq![']']
    } else {
        seq![','] + print_items(items, from + 1)
    };
    assert(print_items(items, from) =~= item + tail);
    lemma_occurs_split(s, i, item, tail);
    lemma_occurs_index(s, i + item.len(), tail, 0);
    lemma_parse_value(s, i, items[from], depth);
    lemma_print_starts(items[from], depth);
    let next = i + item.len();
    lemma_no_blank(s, next);
    lemma_items_step(s, i, depth);
    if last {
        assert(items.skip(from) =~= seq![items[from]]);
    } else {
        let more = print_items(items, from + 1);
        assert(items_printable(items, from + 1, depth));
        lemma_occurs_split(s, next, seq![','], more);
        lemma_parse_items(s, next + 1, items, from + 1, depth);
        lemma_print_starts(items[from + 1], depth);
        lemma_occurs_index(s, next + 1, more, 0);
        assert(more[0] == print(items[from + 1])[0]);
        lemma_no_blank(s, next + 1);
        assert(items.skip(from) =~= seq![items[from]] + items.skip(from + 1));
    }
}

/// Reading the written members of an object from one of them on gives
/// those members back.
pub proof fn lemma_parse_members(
    s: Seq<char>,
    i: int,
    members: Seq<MemberValue>,
    from: int,
    depth: nat,
)
    requires
        0 <= from < members.len(),
        members_printable(members, from, depth),
        occurs_at(s, i, print_members(members, from)),
    ensures
        parse_more_members(s, i, depth) == Some(
            Parsed { value: members.skip(from), end: i + print_members(members, from).len() },
        ),
    decreases members, members.len() - from,
{
    let member = members[from];
    let name = escape(member.name) + seq!['"'];
    let item = print(member.value);
    let last = from + 1 == members.len();
    let tail = if last {
        seq!['}']
    } else {
        seq![','] + print_members(members, from + 1)
    };
    assert(print_members(members, from) =~= seq!['"'] + (name + (seq![':'] + (item + tail))));
    lemma_occurs_split(s, i, seq!['"'], name + (seq![':'] + (item + tail)));
    lemma_occurs_split(s, i + 1, name, seq![':'] + (item + tail));
    let colon = i + 1 + name.len();
    lemma_occurs_split(s, colon, seq![':'], item + tail);
    lemma_occurs_split(s, colon + 1, item, tail);
    lemma_occurs_index(s, i, seq!['"'], 0);
    lemma_occurs_index(s, colon, seq![':'], 0);
    lemma_parse_chars(s, i + 1, member.name);
    lemma_no_blank(s, colon);
    lemma_print_starts(member.value, depth);
    lemma_occurs_index(s, colon + 1, item, 0);
    lemma_no_blank(s, colon + 1);
    let next = colon + 1 + item.len();
    lemma_occurs_index(s, next, tail, 0);
    lemma_parse_value(s, colon + 1, member.value, depth);
    lemma_no_blank(s, next);
    lemma_members_step(s, i, depth);
    if last {
        assert(members.skip(from) =~= seq![member]);
    } else {
        let more = print_members(members, from + 1);
        assert(members_printable(members, from + 1, depth));
        lemma_occurs_split(s, next, seq![','], more);
        lemma_parse_members(s, next + 1, members, from + 1, depth);
        lemma_occurs_index(s, next + 1, more, 0);
        assert(more[0] == '"');
        lemma_no_blank(s, next + 1);
        assert(members.skip(from) =~= seq![member] + members.skip(from + 1));
    }
}

/// Reading undoes writing: the text of a value denotes that value.
pub proof fn lemma_parse_print(value: JsonValue)
    requires
        printable(value, MAX_DEPTH as nat),
    ensures
        parse_spec(print(value)) == Some(value),
{
    let text = print(value);
    lemma_print_starts(value, MAX_DEPTH as nat);
    assert(skip_blanks(text, 0) == 0);
    assert(text.subrange(0, text.len() as int) =~= text);
    lemma_parse_value(text, 0, value, MAX_DEPTH as nat);
    assert(skip_blanks(text, text.len() as int) == text.len());
}

/// The characters of `text`, one by one.
pub fn chars_of(text: &str) -> (chars: Vec<char>)
    ensures
        chars@ == text@,
{
    let mut chars: Vec<char> = Vec::new();
    for c in it: text.chars()
        invariant
            it.seq() == text@,
            chars@ == text@.take(it.index()),
    {
        chars.push(c);
        assert(chars@ =~= text@.take(it.index() + 1));
    }
    assert(text@.take(text@.len() as int) =~= text@);
    chars
}

/// The text that the characters from `from` up to `to` make.
fn text_of(s: &Vec<char>, from: usize, to: usize) -> (text: String)
    requires
        from <= to <= s.len(),
    ensures
        text@ == s@.subrange(from as int, to as int),
{
    let mut text = String::new();
    let mut i: usize = from;
    while i < to
        invariant
            from <= i <= to <= s.len(),
            text@ == s@.subrange(from as int, i as int),
        decreases to - i,
    {
        push_char(&mut text, s[i]);
        assert(text@ =~= s@.subrange(from as int, i + 1));
        i = i + 1;
    }
    text
}

fn skip_blanks_at(s: &Vec<char>, from: usize) -> (next: usize)
    requires
        from <= s.len(),
    ensures
        next == skip_blanks(s@, from as int),
        from <= next <= s.len(),
{
    let mut i: usize = from;
    while i < s.len() && (s[i] == ' ' || s[i] == '\n' || s[i] == '\r' || s[i] == '\t')
        invariant
            from <= i <= s.len(),
            skip_blanks(s@, from as int) == skip_blanks(s@, i as int),
        decreases s.len() - i,
    {
        i = i + 1;
    }
    i
}

fn hex_value_of(c: char) -> (value: Option<u32>)
    ensures
        match value {
            Some(v) => hex_value(c) == Some(v as int) && v < 16,
            None => hex_value(c) is None,
        },
{
    if '0' <= c && c <= '9' {
        Some(c as u32 - '0' as u32)
    } else if 'a' <= c && c <= 'f' {
        Some(c as u32 - 'a' as u32 + 10)
    } else if 'A' <= c && c <= 'F' {
        Some(c as u32 - 'A' as u32 + 10)
    } else {
        None
    }
}

fn read_hex4(s: &Vec<char>, i: usize) -> (value: Option<u32>)
    requires
        i <= s.len(),
    ensures
        match value {
            Some(v) => hex4(s@, i as int) == Some(v as int) && v <= 0xFFFF,
            None => hex4(s@, i as int) is None,
        },
{
    if s.len() - i < 4 {
        return None;
    }
    let a = match hex_value_of(s[i]) {
        Some(a) => a,
        None => {
            return None;
        },
    };
    let b = match hex_value_of(s[i + 1]) {
        Some(b) => b,
        None => {
            return None;
        },
    };
    let c = match hex_value_of(s[i + 2]) {
        Some(c) => c,
        None => {
            return None;
        },
    };
    let d = match hex_value_of(s[i + 3]) {
        Some(d) => d,
        None => {
            return None;
        },
    };
    Some(((a * 16 + b) * 16 + c) * 16 + d)
}

/// `char::from_u32` gives the character with the number `code`, if there
/// is one: the numbers of characters go from 0 to 10FFFF in base 16,
/// without those from D800 to DFFF.
#[verifier::external_body]
fn char_from_u32(code: u32) -> (c: Option<char>)
    ensures
        c is Some <==> (code <= 0xD7FF || 0xE000 <= code <= 0x10FFFF),
        c matches Some(character) ==> character == code as char,
{
    char::from_u32(code)
}

fn read_escape(s: &Vec<char>, i: usize) -> (escaped: Option<(char, usize)>)
    requires
        i <= s.len(),
    ensures
        match escaped {
            Some((c, end)) => parse_escape(s@, i as int) == Some(
                Parsed { value: c, end: end as int },
            ) && i < end <= s.len(),
            None => parse_escape(s@, i as int) is None,
        },
{
    if i >= s.len() {
        return None;
    }
    let c = s[i];
    if c == '"' {
        Some(('"', i + 1))
    } else if c == '\\' {
        Some(('\\', i + 1))
    } else if c == '/' {
        Some(('/', i + 1))
    } else if c == 'b' {
        Some(('\u{8}', i + 1))
    } else if c == 'f' {
        Some(('\u{c}', i + 1))
    } else if c == 'n' {
        Some(('\n', i + 1))
    } else if c == 'r' {
        Some(('\r', i + 1))
    } else if c == 't' {
        Some(('\t', i + 1))
    } else if c == 'u' {
        let code = match read_hex4(s, i + 1) {
            Some(code) => code,
            None => {
                return None;
            },
        };
        if 0xD800 <= code && code <= 0xDBFF {
            if s.len() - i < 7 || s[i + 5] != '\\' || s[i + 6] != 'u' {
                return None;
            }
            let low = match read_hex4(s, i + 7) {
                Some(low) => low,
                None => {
                    return None;
                },
            };
            if 0xDC00 <= low && low <= 0xDFFF {
                let joined: u32 = 0x10000 + (code - 0xD800) * 0x400 + (low - 0xDC00);
                match char_from_u32(joined) {
                    Some(character) => Some((character, i + 11)),
                    None => None,
                }
            } else {
                None
            }
        } else if 0xDC00 <= code && code <= 0xDFFF {
            None
        } else {
            match char_from_u32(code) {
                Some(character) => Some((character, i + 5)),
                None => None,
            }
        }
    } else {
        None
    }
}

/// What reading a string comes to when `before` has been read already.
pub open spec fn behind(before: Seq<char>, rest: Option<Parsed<Seq<char>>>) -> Option<
    Parsed<Seq<char>>,
> {
    match rest {
        Some(parsed) => Some(Parsed { value: before + parsed.value, end: parsed.end }),
        None => None,
    }
}

fn read_chars(s: &Vec<char>, from: usize) -> (read: Option<(String, usize)>)
    requires
        from <= s.len(),
    ensures
        match read {
            Some((text, end)) => parse_chars(s@, from as int) == Some(
                Parsed { value: text@, end: end as int },
            ) && from < end <= s.len(),
            None => parse_chars(s@, from as int) is None,
        },
{
    let mut text = String::new();
    let mut i: usize = from;
    assert(text@ + parse_chars(s@, from as int)->0.value =~= parse_chars(s@, from as int)->0.value);
    loop
        invariant
            from <= i <= s.len(),
            parse_chars(s@, from as int) == behind(text@, parse_chars(s@, i as int)),
        decreases s.len() - i,
    {
        if i >= s.len() {
            return None;
        }
        let c = s[i];
        let ghost before = text@;
        if c == '"' {
            assert(before + Seq::<char>::empty() =~= before);
            return Some((text, i + 1));
        } else if c == '\\' {
            match read_escape(s, i + 1) {
                Some((escaped, end)) => {
                    push_char(&mut text, escaped);
                    proof {
                        let rest = parse_chars(s@, end as int);
                        if rest is Some {
                            assert(before + (seq![escaped] + rest->0.value) =~= text@
                                + rest->0.value);
                        }
                    }
                    i = end;
                },
                None => {
                    return None;
                },
            }
        } else if (c as u32) < 0x20 {
            return None;
        } else {
            push_char(&mut text, c);
            proof {
                let rest = parse_chars(s@, i + 1);
                if rest is Some {
                    assert(before + (seq![c] + rest->0.value) =~= text@ + rest->0.value);
                }
            }
            i = i + 1;
        }
    }
}

fn digits_end_at(s: &Vec<char>, from: usize) -> (end: usize)
    requires
        from <= s.len(),
    ensures
        end == digits_end(s@, from as int),
        from <= end <= s.len(),
{
    let mut i: usize = from;
    while i < s.len() && '0' <= s[i] && s[i] <= '9'
        invariant
            from <= i <= s.len(),
            digits_end(s@, from as int) == digits_end(s@, i as int),
        decreases s.len() - i,
    {
        i = i + 1;
    }
    i
}

fn number_end_at(s: &Vec<char>, i: usize) -> (end: Option<usize>)
    requires
        i < s.len(),
    ensures
        match end {
            Some(e) => number_end(s@, i as int) == Some(e as int) && i < e <= s.len(),
            None => number_end(s@, i as int) is None,
        },
{
    let first: usize = if s[i] == '-' {
        i + 1
    } else {
        i
    };
    if first >= s.len() || !('0' <= s[first] && s[first] <= '9') {
        return None;
    }
    let whole: usize = if s[first] == '0' {
        first + 1
    } else {
        digits_end_at(s, first + 1)
    };
    let fraction: usize = if whole < s.len() && s[whole] == '.' {
        if whole + 1 < s.len() && '0' <= s[whole + 1] && s[whole + 1] <= '9' {
            digits_end_at(s, whole + 1)
        } else {
            return None;
        }
    } else {
        whole
    };
    if fraction < s.len() && (s[fraction] == 'e' || s[fraction] == 'E') {
        let digits: usize = if fraction + 1 < s.len() && (s[fraction + 1] == '+' || s[fraction
            + 1] == '-') {
            fraction + 2
        } else {
            fraction + 1
        };
        if digits < s.len() && '0' <= s[digits] && s[digits] <= '9' {
            Some(digits_end_at(s, digits))
        } else {
            None
        }
    } else {
        Some(fraction)
    }
}

/// What reading the items of an array comes to when `before` have been
/// read already.
pub open spec fn items_behind(
    before: Seq<JsonValue>,
    rest: Option<Parsed<Seq<JsonValue>>>,
) -> Option<Parsed<Seq<JsonValue>>> {
    match rest {
        Some(parsed) => Some(Parsed { value: before + parsed.value, end: parsed.end }),
        None => None,
    }
}

/// What reading the members of an object comes to when `before` have been
/// read already.
pub open spec fn members_behind(
    before: Seq<MemberValue>,
    rest: Option<Parsed<Seq<MemberValue>>>,
) -> Option<Parsed<Seq<MemberValue>>> {
    match rest {
        Some(parsed) => Some(Parsed { value: before + parsed.value, end: parsed.end }),
        None => None,
    }
}

fn word_at(s: &Vec<char>, i: usize, word: &Vec<char>) -> (found: bool)
    requires
        i <= s.len(),
    ensures
        found == occurs_at(s@, i as int, word@),
{
    if s.len() - i < word.len() {
        return false;
    }
    let mut k: usize = 0;
    while k < word.len()
        invariant
            k <= word.len(),
            i + word.len() <= s.len(),
            forall|j: int| 0 <= j < k ==> s@[i + j] == word@[j],
        decreases word.len() - k,
    {
        if s[i + k] != word[k] {
            proof {
                if occurs_at(s@, i as int, word@) {
                    lemma_occurs_index(s@, i as int, word@, k as int);
                }
            }
            return false;
        }
        k = k + 1;
    }
    assert(s@.subrange(i as int, i + word.len()) =~= word@);
    true
}

fn read_value(s: &Vec<char>, i: usize, depth: usize) -> (read: Option<(Json, usize)>)
    requires
        i <= s.len(),
    ensures
        match read {
            Some((value, end)) => parse_value(s@, i as int, depth as nat) == Some(
                Parsed { value: value@, end: end as int },
            ) && i < end <= s.len(),
            None => parse_value(s@, i as int, depth as nat) is None,
        },
    decreases depth, 0nat,
{
    if i >= s.len() {
        proof {
            lemma_value_none(s@, i as int, depth as nat);
        }
        return None;
    }
    let c = s[i];
    if c == '"' {
        proof {
            lemma_value_text(s@, i as int, depth as nat);
        }
        match read_chars(s, i + 1) {
            Some((text, end)) => Some((Json::Text(text), end)),
            None => None,
        }
    } else if c == '[' {
        proof {
            lemma_value_array(s@, i as int, depth as nat);
        }
        if depth == 0 {
            return None;
        }
        let start = skip_blanks_at(s, i + 1);
        match read_items(s, start, depth - 1) {
            Some((items, end)) => {
                let value = Json::Array(items);
                assert(value@->Array_0 =~= parse_items(
                    s@,
                    start as int,
                    (depth - 1) as nat,
                )->0.value);
                Some((value, end))
            },
            None => None,
        }
    } else if c == '{' {
        proof {
            lemma_value_object(s@, i as int, depth as nat);
        }
        if depth == 0 {
            return None;
        }
        let start = skip_blanks_at(s, i + 1);
        match read_members(s, start, depth - 1) {
            Some((members, end)) => {
                let value = Json::Object(members);
                assert(value@->Object_0 =~= parse_members(
                    s@,
                    start as int,
                    (depth - 1) as nat,
                )->0.value);
                Some((value, end))
            },
            None => None,
        }
    } else if c == 't' || c == 'f' || c == 'n' {
        proof {
            lemma_value_word(s@, i as int, depth as nat);
        }
        let yes: Vec<char> = vec!['t', 'r', 'u', 'e'];
        let no: Vec<char> = vec!['f', 'a', 'l', 's', 'e'];
        let nothing: Vec<char> = vec!['n', 'u', 'l', 'l'];
        assert(yes@ =~= seq!['t', 'r', 'u', 'e']);
        assert(no@ =~= seq!['f', 'a', 'l', 's', 'e']);
        assert(nothing@ =~= seq!['n', 'u', 'l', 'l']);
        if word_at(s, i, &yes) {
            Some((Json::Bool(true), i + 4))
        } else if word_at(s, i, &no) {
            Some((Json::Bool(false), i + 5))
        } else if word_at(s, i, &nothing) {
            Some((Json::Null, i + 4))
        } else {
            None
        }
    } else if c == '-' || ('0' <= c && c <= '9') {
        proof {
            lemma_value_number(s@, i as int, depth as nat);
        }
        match number_end_at(s, i) {
            Some(end) => Some((Json::Number(text_of(s, i, end)), end)),
            None => None,
        }
    } else {
        proof {
            lemma_value_none(s@, i as int, depth as nat);
        }
        None
    }
}

fn read_items(s: &Vec<char>, from: usize, depth: usize) -> (read: Option<(Vec<Json>, usize)>)
    requires
        from <= s.len(),
    ensures
        match read {
            Some((items, end)) => {
                &&& parse_items(s@, from as int, depth as nat) matches Some(parsed)
                &&& parsed.end == end
                &&& parsed.value.len() == items.len()
                &&& forall|k: int| 0 <= k < items.len() ==> parsed.value[k] == (#[trigger] items[k])@
                &&& from < end <= s.len()
            },
            None => parse_items(s@, from as int, depth as nat) is None,
        },
    decreases depth, 1nat,
{
    let mut items: Vec<Json> = Vec::new();
    proof {
        lemma_items_step(s@, from as int, depth as nat);
    }
    if from < s.len() && s[from] == ']' {
        return Some((items, from + 1));
    }
    let ghost mut seen: Seq<JsonValue> = Seq::empty();
    let mut i: usize = from;
    assert(seen + parse_more_items(s@, from as int, depth as nat)->0.value =~= parse_more_items(
        s@,
        from as int,
        depth as nat,
    )->0.value);
    loop
        invariant
            from <= i <= s.len(),
            seen.len() == items.len(),
            forall|k: int| 0 <= k < items.len() ==> seen[k] == (#[trigger] items[k])@,
            parse_items(s@, from as int, depth as nat) == items_behind(
                seen,
                parse_more_items(s@, i as int, depth as nat),
            ),
        decreases s.len() - i,
    {
        proof {
            lemma_items_step(s@, i as int, depth as nat);
        }
        let (item, end) = match read_value(s, i, depth) {
            Some(read) => read,
            None => {
                return None;
            },
        };
        let next = skip_blanks_at(s, end);
        if next >= s.len() {
            return None;
        }
        let ghost before = seen;
        proof {
            seen = seen.push(item@);
        }
        items.push(item);
        if s[next] == ']' {
            assert(before + seq![seen.last()] =~= seen);
            return Some((items, next + 1));
        } else if s[next] == ',' {
            let start = skip_blanks_at(s, next + 1);
            proof {
                let rest = parse_more_items(s@, start as int, depth as nat);
                if rest is Some {
                    assert(before + (seq![seen.last()] + rest->0.value) =~= seen + rest->0.value);
                }
            }
            i = start;
        } else {
            return None;
        }
    }
}

fn read_members(s: &Vec<char>, from: usize, depth: usize) -> (read: Option<(Vec<Member>, usize)>)
    requires
        from <= s.len(),
    ensures
        match read {
            Some((members, end)) => {
                &&& parse_members(s@, from as int, depth as nat) matches Some(parsed)
                &&& parsed.end == end
                &&& parsed.value.len() == members.len()
                &&& forall|k: int|
                    0 <= k < members.len() ==> parsed.value[k] == (MemberValue {
                        name: (#[trigger] members[k]).name@,
                        value: members[k].value@,
                    })
                &&& from < end <= s.len()
            },
            None => parse_members(s@, from as int, depth as nat) is None,
        },
    decreases depth, 1nat,
{
    let mut members: Vec<Member> = Vec::new();
    proof {
        lemma_members_step(s@, from as int, depth as nat);
    }
    if from < s.len() && s[from] == '}' {
        return Some((members, from + 1));
    }
    let ghost mut seen: Seq<MemberValue> = Seq::empty();
    let mut i: usize = from;
    assert(seen + parse_more_members(s@, from as int, depth as nat)->0.value
        =~= parse_more_members(s@, from as int, depth as nat)->0.value);
    loop
        invariant
            from <= i <= s.len(),
            seen.len() == members.len(),
            forall|k: int|
                0 <= k < members.len() ==> seen[k] == (MemberValue {
                    name: (#[trigger] members[k]).name@,
                    value: members[k].value@,
                }),
            parse_members(s@, from as int, depth as nat) == members_behind(
                seen,
                parse_more_members(s@, i as int, depth as nat),
            ),
        decreases s.len() - i,
    {
        proof {
            lemma_members_step(s@, i as int, depth as nat);
        }
        if i >= s.len() || s[i] != '"' {
            return None;
        }
        let (name, name_end) = match read_chars(s, i + 1) {
            Some(read) => read,
            None => {
                return None;
            },
        };
        let colon = skip_blanks_at(s, name_end);
        if colon >= s.len() || s[colon] != ':' {
            return None;
        }
        let start = skip_blanks_at(s, colon + 1);
        let (item, end) = match read_value(s, start, depth) {
            Some(read) => read,
            None => {
                return None;
            },
        };
        let next = skip_blanks_at(s, end);
        if next >= s.len() {
            return None;
        }
        let ghost before = seen;
        proof {
            seen = seen.push(MemberValue { name: name@, value: item@ });
        }
        members.push(Member { name, value: item });
        if s[next] == '}' {
            assert(before + seq![seen.last()] =~= seen);
            return Some((members, next + 1));
        } else if s[next] == ',' {
            let more = skip_blanks_at(s, next + 1);
            proof {
                let rest = parse_more_members(s@, more as int, depth as nat);
                if rest is Some {
                    assert(before + (seq![seen.last()] + rest->0.value) =~= seen + rest->0.value);
                }
            }
            i = more;
        } else {
            return None;
        }
    }
}

/// Whether `text` is the text of one JSON number, and nothing else.
pub fn is_number_text(text: &str) -> (number: bool)
    ensures
        number == is_number(text@),
{
    let s = chars_of(text);
    if s.len() == 0 {
        return false;
    }
    match number_end_at(&s, 0) {
        Some(end) => end == s.len(),
        None => false,
    }
}

/// Reads the value that `text` denotes.
///
/// The text must hold one JSON value, with blanks before and after it at
/// most, and with arrays and objects nested [`MAX_DEPTH`] deep at most.
/// Any other text gives `None`.
pub fn parse(text: &str) -> (value: Option<Json>)
    ensures
        match value {
            Some(json) => parse_spec(text@) == Some(json@),
            None => parse_spec(text@) is None,
        },
{
    let s = chars_of(text);
    let start = skip_blanks_at(&s, 0);
    match read_value(&s, start, MAX_DEPTH) {
        Some((value, end)) => {
            let rest = skip_blanks_at(&s, end);
            if rest == s.len() {
                Some(value)
            } else {
                None
            }
        },
        None => None,
    }
}

} // verus!
