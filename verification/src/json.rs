//! The listing as one line of JSON: an array with one object for each record.

use crate::decimal::{decimal_string, decimal_text, lemma_decimal_text_is_a_numeral};
use crate::record::{models, FileRecord, RecordModel};
use vstd::prelude::*;
use vstd::string::*;

verus! {

/// What stands in place of the JSON where it cannot be written.
pub const JSON_FALLBACK: &'static str = "cannot parse json";

/// Opens an object and its first member, `name`.
pub const MEMBER_NAME: &'static str = "{\"name\":";

/// Opens the second member, `e_type`.
pub const MEMBER_KIND: &'static str = ",\"e_type\":";

/// Opens the third member, `len_bytes`.
pub const MEMBER_SIZE: &'static str = ",\"len_bytes\":";

/// Opens the fourth member, `modified`.
pub const MEMBER_MODIFIED: &'static str = ",\"modified\":";

/// Closes an object.
pub const OBJECT_END: &'static str = "}";

/// Opens an array.
pub const ARRAY_START: &'static str = "[";

/// Parts the elements of an array.
pub const ARRAY_COMMA: &'static str = ",";

/// Closes an array.
pub const ARRAY_END: &'static str = "]";

/// The failure of `serde_json`, which says nothing that a contract can use.
#[verifier::external_type_specification]
#[verifier::external_body]
pub struct ExJsonError(serde_json::Error);

/// The digit of hexadecimal notation for `n`, in lower case.
pub open spec fn hex_digit(n: int) -> char
    recommends
        0 <= n < 16,
{
    seq!['0', '1', '2', '3', '4', '5', '6', '7', '8', '9', 'a', 'b', 'c', 'd', 'e', 'f'][n]
}

/// What stands for one character inside a JSON string: a short escape for
/// the double quote, the backslash and five control characters, `\u00..` with
/// two hexadecimal digits for every other character below the space, and the
/// character itself for all the rest.
pub open spec fn escaped_char(c: char) -> Seq<char> {
    if c == '"' {
        seq!['\\', '"']
    } else if c == '\\' {
        seq!['\\', '\\']
    } else if c == '\u{8}' {
        seq!['\\', 'b']
    } else if c == '\t' {
        seq!['\\', 't']
    } else if c == '\n' {
        seq!['\\', 'n']
    } else if c == '\u{c}' {
        seq!['\\', 'f']
    } else if c == '\r' {
        seq!['\\', 'r']
    } else if (c as u32) < 0x20 {
        seq!['\\', 'u', '0', '0', hex_digit((c as u32 / 16) as int), hex_digit((c as u32 % 16) as int)]
    } else {
        seq![c]
    }
}

/// A text with each of its characters escaped, in order.
pub open spec fn escaped(text: Seq<char>) -> Seq<char>
    decreases text.len(),
{
    if text.len() == 0 {
        Seq::empty()
    } else {
        escaped_char(text[0]) + escaped(text.drop_first())
    }
}

/// A text as a JSON string: escaped, between double quotes.
pub open spec fn quoted_text(text: Seq<char>) -> Seq<char> {
    seq!['"'] + escaped(text) + seq!['"']
}

/// The text holds no line break: neither a line feed nor a carriage return.
pub open spec fn on_one_line(text: Seq<char>) -> bool {
    forall|i: int| 0 <= i < text.len() ==> #[trigger] text[i] != '\n' && text[i] != '\r'
}

/// What a call of `serde_json::to_string` on a text came to, as a view.
pub open spec fn quoted_view(quoted: Result<String, serde_json::Error>) -> Option<Seq<char>> {
    match quoted {
        Ok(q) => Some(q@),
        Err(_) => None,
    }
}

/// Calls `serde_json::to_string` on a `str`. Not proved: that the call
/// succeeds, and that it writes the text as `quoted_text` says: between
/// double quotes, with the escapes of `escaped_char`.
#[verifier::external_body]
fn quote(text: &str) -> (quoted: Result<String, serde_json::Error>)
    ensures
        quoted_view(quoted) == Some(quoted_text(text@)),
{
    serde_json::to_string(text)
}

/// A record could not be written as JSON.
#[derive(Clone, Copy, Debug, PartialEq, Eq, Structural)]
pub struct SerializeError {
    /// The place in the listing of the first record that could not be written.
    pub record: usize,
}

/// The object of one record, from its members as they stand in JSON: the
/// quoted name, the quoted tag of the kind, the size, the quoted modification
/// time.
pub open spec fn object_text(
    name: Seq<char>,
    label: Seq<char>,
    size_bytes: nat,
    modified: Seq<char>,
) -> Seq<char> {
    MEMBER_NAME@ + name + MEMBER_KIND@ + label + MEMBER_SIZE@ + decimal_text(size_bytes)
        + MEMBER_MODIFIED@ + modified + OBJECT_END@
}

/// The object of one record.
pub open spec fn record_json(record: RecordModel) -> Seq<char> {
    object_text(
        quoted_text(record.name),
        quoted_text(record.kind.label_text()),
        record.size_bytes,
        quoted_text(record.modified),
    )
}

/// The elements of a listing's array: the object of each record, in order.
pub open spec fn json_elements(records: Seq<RecordModel>) -> Seq<Seq<char>> {
    Seq::new(records.len(), |i: int| record_json(records[i]))
}

/// The elements, each parted from the one before it by a comma.
pub open spec fn joined(elements: Seq<Seq<char>>) -> Seq<char>
    decreases elements.len(),
{
    if elements.len() == 0 {
        Seq::empty()
    } else if elements.len() == 1 {
        elements[0]
    } else {
        joined(elements.drop_last()) + ARRAY_COMMA@ + elements.last()
    }
}

/// The array of the elements.
pub open spec fn array_text(elements: Seq<Seq<char>>) -> Seq<char> {
    ARRAY_START@ + joined(elements) + ARRAY_END@
}

/// The listing as JSON: the array of the objects of its records, in order.
pub open spec fn structured_text(records: Seq<RecordModel>) -> Seq<char> {
    array_text(json_elements(records))
}

/// A hexadecimal digit is one of the ten decimal digits or of the letters
/// from `a` to `f`, and tells its number.
pub proof fn lemma_hex_digit(n: int)
    requires
        0 <= n < 16,
    ensures
        n < 10 ==> hex_digit(n) as int == '0' as int + n,
        n >= 10 ==> hex_digit(n) as int == 'a' as int + n - 10,
{
    if n == 0 {
    } else if n == 1 {
    } else if n == 2 {
    } else if n == 3 {
    } else if n == 4 {
    } else if n == 5 {
    } else if n == 6 {
    } else if n == 7 {
    } else if n == 8 {
    } else if n == 9 {
    } else if n == 10 {
    } else if n == 11 {
    } else if n == 12 {
    } else if n == 13 {
    } else if n == 14 {
    } else {
    }
}

/// A quoted text holds no line break, whatever the text holds.
pub proof fn lemma_quoted_text_on_one_line(text: Seq<char>)
    ensures
        on_one_line(escaped(text)),
        on_one_line(quoted_text(text)),
    decreases text.len(),
{
    if text.len() > 0 {
        lemma_quoted_text_on_one_line(text.drop_first());
        let c = text[0];
        if (c as u32) < 0x20 {
            lemma_hex_digit((c as u32 / 16) as int);
            lemma_hex_digit((c as u32 % 16) as int);
        }
        assert(on_one_line(escaped_char(c)));
    }
}

/// The object of a record holds no line break.
pub proof fn lemma_record_json_on_one_line(record: RecordModel)
    ensures
        on_one_line(record_json(record)),
{
    reveal_strlit("{\"name\":");
    reveal_strlit(",\"e_type\":");
    reveal_strlit(",\"len_bytes\":");
    reveal_strlit(",\"modified\":");
    reveal_strlit("}");
    lemma_decimal_text_is_a_numeral(record.size_bytes);
    lemma_quoted_text_on_one_line(record.name);
    lemma_quoted_text_on_one_line(record.kind.label_text());
    lemma_quoted_text_on_one_line(record.modified);
}

/// Elements without a line break are joined without one.
pub proof fn lemma_joined_on_one_line(elements: Seq<Seq<char>>)
    requires
        forall|i: int| 0 <= i < elements.len() ==> on_one_line(#[trigger] elements[i]),
    ensures
        on_one_line(joined(elements)),
    decreases elements.len(),
{
    reveal_strlit(",");
    if elements.len() > 1 {
        lemma_joined_on_one_line(elements.drop_last());
        assert(on_one_line(elements.last()));
    } else if elements.len() == 1 {
        assert(on_one_line(elements[0]));
    }
}

/// A listing's JSON is a single line, whatever its records hold.
pub proof fn lemma_structured_text_on_one_line(records: Seq<RecordModel>)
    ensures
        on_one_line(structured_text(records)),
{
    reveal_strlit("[");
    reveal_strlit("]");
    assert forall|i: int| 0 <= i < json_elements(records).len() implies on_one_line(
        #[trigger] json_elements(records)[i],
    ) by {
        lemma_record_json_on_one_line(records[i]);
    }
    lemma_joined_on_one_line(json_elements(records));
}

/// Writes the object of one record from its members as they stand in JSON.
pub fn object_line(name: &str, label: &str, size_bytes: u64, modified: &str) -> (object: String)
    ensures
        object@ == object_text(name@, label@, size_bytes as nat, modified@),
{
    let mut object = String::from_str(MEMBER_NAME);
    object.append(name);
    object.append(MEMBER_KIND);
    object.append(label);
    object.append(MEMBER_SIZE);
    object.append(decimal_string(size_bytes).as_str());
    object.append(MEMBER_MODIFIED);
    object.append(modified);
    object.append(OBJECT_END);
    object
}

/// Writes the object of one record. It is `None` only where `serde_json`
/// fails on one of the record's three texts, which it does on none.
pub fn record_object(record: &FileRecord) -> (object: Option<String>)
    ensures
        object matches Some(o) && o@ == record_json(record@),
{
    let name = match quote(record.name.as_str()) {
        Ok(q) => q,
        Err(_) => { return None; },
    };
    let label = match quote(record.kind.label()) {
        Ok(q) => q,
        Err(_) => { return None; },
    };
    let modified = match quote(record.modified.as_str()) {
        Ok(q) => q,
        Err(_) => { return None; },
    };
    Some(object_line(name.as_str(), label.as_str(), record.size_bytes, modified.as_str()))
}

/// The listing as one line of JSON: an array with one object for each record,
/// in order. An error would name the first record that could not be
/// written; there is none, so the line is always had.
pub fn to_json(records: &Vec<FileRecord>) -> (line: Result<String, SerializeError>)
    ensures
        line matches Ok(text) && text@ == structured_text(models(records@)),
        line matches Ok(text) && on_one_line(text@),
{
    let ghost elements = json_elements(models(records@));
    let mut line = String::from_str(ARRAY_START);
    let mut i: usize = 0;
    while i < records.len()
        invariant
            i <= records.len(),
            elements == json_elements(models(records@)),
            line@ == ARRAY_START@ + joined(elements.take(i as int)),
        decreases records.len() - i,
    {
        let object = match record_object(&records[i]) {
            Some(object) => object,
            None => { return Err(SerializeError { record: i }); },
        };
        if i > 0 {
            line.append(ARRAY_COMMA);
        }
        line.append(object.as_str());
        proof {
            let seen = elements.take(i + 1);
            assert(seen.drop_last() =~= elements.take(i as int));
            assert(seen.last() == elements[i as int]);
            assert(line@ =~= ARRAY_START@ + joined(seen));
        }
        i += 1;
    }
    assert(elements.take(i as int) =~= elements);
    line.append(ARRAY_END);
    proof {
        lemma_structured_text_on_one_line(models(records@));
    }
    Ok(line)
}

/// What is printed for the outcome of writing the JSON: the line itself, or
/// the fallback where it failed.
pub fn line_or_fallback(line: Result<String, SerializeError>) -> (text: String)
    ensures
        text@ == match line {
            Ok(t) => t@,
            Err(_) => JSON_FALLBACK@,
        },
{
    match line {
        Ok(t) => t,
        Err(_) => String::from_str(JSON_FALLBACK),
    }
}

/// What is printed for a listing in JSON mode: one line with an array of one
/// object for each record, in order. The fallback stands ready for a failure
/// of the writing, and is never printed.
pub fn structured_output(records: &Vec<FileRecord>) -> (text: String)
    ensures
        text@ == structured_text(models(records@)),
        on_one_line(text@),
{
    line_or_fallback(to_json(records))
}

} // verus!
