//! What a line of JSON tells of the listing it was written from: everything.
//! Two texts that are quoted alike are one text, two records that are written
//! alike are one record, and two listings with one line are one listing.

use crate::decimal::{decimal_text, lemma_decimal_text_prefix};
use crate::json::{
    escaped, escaped_char, joined, json_elements, lemma_hex_digit, quoted_text, record_json,
    structured_text, ARRAY_COMMA, ARRAY_END, ARRAY_START, MEMBER_KIND, MEMBER_MODIFIED,
    MEMBER_NAME, MEMBER_SIZE, OBJECT_END,
};
use crate::record::{EntryKind, RecordModel};
use vstd::prelude::*;

verus! {

/// The character does not stand for itself inside a JSON string.
pub open spec fn needs_escape(c: char) -> bool {
    c == '"' || c == '\\' || (c as u32) < 0x20
}

/// An escape begins with a backslash, and what needs none is written as it
/// is.
pub proof fn lemma_escaped_char_shape(c: char)
    ensures
        needs_escape(c) ==> escaped_char(c)[0] == '\\' && (escaped_char(c).len() == 2
            || escaped_char(c).len() == 6),
        needs_escape(c) ==> (escaped_char(c).len() == 6 <==> escaped_char(c)[1] == 'u'),
        !needs_escape(c) ==> escaped_char(c) == seq![c],
{
}

/// What stands for a character tells the character, and where it ends: if
/// two texts begin with what stands for one character each and are the same
/// text, the two characters are one, and so is what follows them.
pub proof fn lemma_escaped_char_prefix(x: char, y: char, ra: Seq<char>, rb: Seq<char>)
    requires
        escaped_char(x) + ra == escaped_char(y) + rb,
    ensures
        x == y,
        ra == rb,
{
    let ex = escaped_char(x);
    let ey = escaped_char(y);
    let a = ex + ra;
    let b = ey + rb;
    lemma_escaped_char_shape(x);
    lemma_escaped_char_shape(y);
    assert(a[0] == ex[0] && b[0] == ey[0]);
    if needs_escape(x) && needs_escape(y) {
        assert(a[1] == ex[1] && b[1] == ey[1]);
        if ex[1] == 'u' {
            assert(a[4] == ex[4] && b[4] == ey[4]);
            assert(a[5] == ex[5] && b[5] == ey[5]);
            lemma_hex_digit((x as u32 / 16) as int);
            lemma_hex_digit((x as u32 % 16) as int);
            lemma_hex_digit((y as u32 / 16) as int);
            lemma_hex_digit((y as u32 % 16) as int);
            assert(x as u32 / 16 == y as u32 / 16);
            assert(x as u32 % 16 == y as u32 % 16);
            assert(x as u32 == y as u32);
        }
    }
    assert(x == y);
    assert(ra =~= a.subrange(ex.len() as int, a.len() as int));
    assert(rb =~= b.subrange(ey.len() as int, b.len() as int));
}

/// A quoted text tells the text, and where it ends: if two texts begin with a
/// quoted text each and are the same text, the two quoted texts are of one
/// text, and what follows them is the same.
pub proof fn lemma_quoted_text_prefix(s: Seq<char>, t: Seq<char>, ra: Seq<char>, rb: Seq<char>)
    requires
        quoted_text(s) + ra == quoted_text(t) + rb,
    ensures
        s == t,
        ra == rb,
{
    let a = quoted_text(s) + ra;
    let b = quoted_text(t) + rb;
    let inner_a = escaped(s) + (seq!['"'] + ra);
    let inner_b = escaped(t) + (seq!['"'] + rb);
    assert(inner_a =~= a.subrange(1, a.len() as int));
    assert(inner_b =~= b.subrange(1, b.len() as int));
    lemma_escaped_until_quote(s, t, seq!['"'] + ra, seq!['"'] + rb);
    assert(ra =~= (seq!['"'] + ra).subrange(1, ra.len() as int + 1));
    assert(rb =~= (seq!['"'] + rb).subrange(1, rb.len() as int + 1));
}

/// An escaped text ends where the first double quote stands that is no part
/// of an escape.
proof fn lemma_escaped_until_quote(s: Seq<char>, t: Seq<char>, ra: Seq<char>, rb: Seq<char>)
    requires
        escaped(s) + ra == escaped(t) + rb,
        ra.len() > 0 && ra[0] == '"',
        rb.len() > 0 && rb[0] == '"',
    ensures
        s == t,
        ra == rb,
    decreases s.len(),
{
    let a = escaped(s) + ra;
    let b = escaped(t) + rb;
    if s.len() == 0 && t.len() == 0 {
        assert(ra =~= a);
        assert(rb =~= b);
        assert(s =~= t);
    } else if s.len() == 0 {
        lemma_escaped_char_shape(t[0]);
        assert(a[0] == '"');
        assert(b[0] == escaped_char(t[0])[0]);
        assert(false);
    } else if t.len() == 0 {
        lemma_escaped_char_shape(s[0]);
        assert(b[0] == '"');
        assert(a[0] == escaped_char(s[0])[0]);
        assert(false);
    } else {
        let rest_a = escaped(s.drop_first()) + ra;
        let rest_b = escaped(t.drop_first()) + rb;
        assert(a =~= escaped_char(s[0]) + rest_a);
        assert(b =~= escaped_char(t[0]) + rest_b);
        lemma_escaped_char_prefix(s[0], t[0], rest_a, rest_b);
        lemma_escaped_until_quote(s.drop_first(), t.drop_first(), ra, rb);
        assert(s =~= seq![s[0]] + s.drop_first());
        assert(t =~= seq![t[0]] + t.drop_first());
    }
}

/// Two texts that are quoted alike are one text.
pub proof fn lemma_quoted_text_tells_the_text(s: Seq<char>, t: Seq<char>)
    requires
        quoted_text(s) == quoted_text(t),
    ensures
        s == t,
{
    assert(quoted_text(s) + Seq::<char>::empty() =~= quoted_text(s));
    assert(quoted_text(t) + Seq::<char>::empty() =~= quoted_text(t));
    lemma_quoted_text_prefix(s, t, Seq::empty(), Seq::empty());
}

/// What follows one beginning is told by the whole.
proof fn lemma_same_start(start: Seq<char>, ra: Seq<char>, rb: Seq<char>)
    requires
        start + ra == start + rb,
    ensures
        ra == rb,
{
    assert(ra =~= (start + ra).subrange(start.len() as int, (start + ra).len() as int));
    assert(rb =~= (start + rb).subrange(start.len() as int, (start + rb).len() as int));
}

/// What precedes one end is told by the whole.
proof fn lemma_same_end(ra: Seq<char>, rb: Seq<char>, end: Seq<char>)
    requires
        ra + end == rb + end,
    ensures
        ra == rb,
{
    assert((ra + end).len() == (rb + end).len());
    assert(ra =~= (ra + end).subrange(0, ra.len() as int));
    assert(rb =~= (rb + end).subrange(0, rb.len() as int));
}

/// The tag of a kind tells the kind.
pub proof fn lemma_label_tells_the_kind(a: EntryKind, b: EntryKind)
    requires
        a.label_text() == b.label_text(),
    ensures
        a == b,
{
    reveal_strlit("File");
    reveal_strlit("Dir");
    assert("File"@.len() == 4);
    assert("Dir"@.len() == 3);
}

/// What stands in an object from the modification time on.
spec fn from_modified(record: RecordModel, rest: Seq<char>) -> Seq<char> {
    quoted_text(record.modified) + (OBJECT_END@ + rest)
}

/// What stands in an object from the size on.
spec fn from_size(record: RecordModel, rest: Seq<char>) -> Seq<char> {
    decimal_text(record.size_bytes) + (MEMBER_MODIFIED@ + from_modified(record, rest))
}

/// What stands in an object from the kind on.
spec fn from_kind(record: RecordModel, rest: Seq<char>) -> Seq<char> {
    quoted_text(record.kind.label_text()) + (MEMBER_SIZE@ + from_size(record, rest))
}

/// What stands in an object from the name on.
spec fn from_name(record: RecordModel, rest: Seq<char>) -> Seq<char> {
    quoted_text(record.name) + (MEMBER_KIND@ + from_kind(record, rest))
}

/// An object and what follows it, member by member.
proof fn lemma_object_by_members(record: RecordModel, rest: Seq<char>)
    ensures
        record_json(record) + rest == MEMBER_NAME@ + from_name(record, rest),
{
    assert(record_json(record) + rest =~= MEMBER_NAME@ + from_name(record, rest));
}

/// The object of a record tells the record, and where it ends: if two texts
/// begin with the object of a record each and are the same text, the two
/// records agree in name, kind, size and modification time, and what follows
/// the objects is the same.
pub proof fn lemma_record_json_prefix(
    a: RecordModel,
    b: RecordModel,
    ra: Seq<char>,
    rb: Seq<char>,
)
    requires
        record_json(a) + ra == record_json(b) + rb,
    ensures
        a == b,
        ra == rb,
{
    reveal_strlit(",\"modified\":");
    lemma_object_by_members(a, ra);
    lemma_object_by_members(b, rb);
    lemma_same_start(MEMBER_NAME@, from_name(a, ra), from_name(b, rb));
    lemma_quoted_text_prefix(
        a.name,
        b.name,
        MEMBER_KIND@ + from_kind(a, ra),
        MEMBER_KIND@ + from_kind(b, rb),
    );
    lemma_same_start(MEMBER_KIND@, from_kind(a, ra), from_kind(b, rb));
    lemma_quoted_text_prefix(
        a.kind.label_text(),
        b.kind.label_text(),
        MEMBER_SIZE@ + from_size(a, ra),
        MEMBER_SIZE@ + from_size(b, rb),
    );
    lemma_label_tells_the_kind(a.kind, b.kind);
    lemma_same_start(MEMBER_SIZE@, from_size(a, ra), from_size(b, rb));
    assert((MEMBER_MODIFIED@ + from_modified(a, ra))[0] == ',');
    assert((MEMBER_MODIFIED@ + from_modified(b, rb))[0] == ',');
    lemma_decimal_text_prefix(
        a.size_bytes,
        b.size_bytes,
        MEMBER_MODIFIED@ + from_modified(a, ra),
        MEMBER_MODIFIED@ + from_modified(b, rb),
    );
    lemma_same_start(MEMBER_MODIFIED@, from_modified(a, ra), from_modified(b, rb));
    lemma_quoted_text_prefix(a.modified, b.modified, OBJECT_END@ + ra, OBJECT_END@ + rb);
    lemma_same_start(OBJECT_END@, ra, rb);
}

/// Two records that are written as one object are one record.
pub proof fn lemma_object_tells_the_record(a: RecordModel, b: RecordModel)
    requires
        record_json(a) == record_json(b),
    ensures
        a == b,
{
    assert(record_json(a) + Seq::<char>::empty() =~= record_json(a));
    assert(record_json(b) + Seq::<char>::empty() =~= record_json(b));
    lemma_record_json_prefix(a, b, Seq::empty(), Seq::empty());
}

/// What stands in an array after its first element: the end of the array, or
/// a comma and the other elements.
spec fn after_first(elements: Seq<Seq<char>>) -> Seq<char> {
    if elements.len() <= 1 {
        ARRAY_END@
    } else {
        ARRAY_COMMA@ + (joined(elements.drop_first()) + ARRAY_END@)
    }
}

/// The elements of an array from the first on.
proof fn lemma_joined_from_the_first(elements: Seq<Seq<char>>)
    requires
        elements.len() >= 1,
    ensures
        joined(elements) + ARRAY_END@ == elements[0] + after_first(elements),
    decreases elements.len(),
{
    if elements.len() == 1 {
        assert(joined(elements) + ARRAY_END@ =~= elements[0] + after_first(elements));
    } else {
        let front = elements.drop_last();
        let back = elements.drop_first();
        lemma_joined_from_the_first(front);
        if elements.len() == 2 {
            assert(back[0] == elements.last());
            assert(joined(back) == elements.last());
            assert(joined(front) == elements[0]);
        } else {
            assert(back.drop_last() =~= front.drop_first());
            assert(back.last() == elements.last());
            assert(joined(front) + ARRAY_END@ == elements[0] + (ARRAY_COMMA@ + (joined(
                front.drop_first(),
            ) + ARRAY_END@)));
            let put = elements[0] + (ARRAY_COMMA@ + joined(front.drop_first()));
            assert(put + ARRAY_END@ =~= elements[0] + (ARRAY_COMMA@ + (joined(front.drop_first())
                + ARRAY_END@)));
            lemma_same_end(joined(front), put, ARRAY_END@);
        }
        assert(joined(elements) + ARRAY_END@ =~= elements[0] + after_first(elements));
    }
}

/// The elements of an array tell the listing.
proof fn lemma_elements_tell_the_listing(xs: Seq<RecordModel>, ys: Seq<RecordModel>)
    requires
        joined(json_elements(xs)) + ARRAY_END@ == joined(json_elements(ys)) + ARRAY_END@,
    ensures
        xs == ys,
    decreases xs.len(),
{
    reveal_strlit("]");
    reveal_strlit(",");
    reveal_strlit("{\"name\":");
    let ex = json_elements(xs);
    let ey = json_elements(ys);
    if xs.len() == 0 && ys.len() == 0 {
        assert(xs =~= ys);
    } else if xs.len() == 0 || ys.len() == 0 {
        let zs = if xs.len() == 0 { ys } else { xs };
        let ez = json_elements(zs);
        lemma_joined_from_the_first(ez);
        lemma_object_by_members(zs[0], after_first(ez));
        assert((joined(ez) + ARRAY_END@)[0] == '{');
        assert((Seq::<char>::empty() + ARRAY_END@)[0] == ']');
        assert(false);
    } else {
        lemma_joined_from_the_first(ex);
        lemma_joined_from_the_first(ey);
        lemma_record_json_prefix(xs[0], ys[0], after_first(ex), after_first(ey));
        assert(ex.drop_first() =~= json_elements(xs.drop_first()));
        assert(ey.drop_first() =~= json_elements(ys.drop_first()));
        if xs.len() == 1 && ys.len() == 1 {
        } else if xs.len() == 1 || ys.len() == 1 {
            assert(after_first(ex)[0] == after_first(ey)[0]);
            assert(false);
        } else {
            lemma_same_start(
                ARRAY_COMMA@,
                joined(ex.drop_first()) + ARRAY_END@,
                joined(ey.drop_first()) + ARRAY_END@,
            );
            lemma_elements_tell_the_listing(xs.drop_first(), ys.drop_first());
        }
        assert(xs =~= seq![xs[0]] + xs.drop_first());
        assert(ys =~= seq![ys[0]] + ys.drop_first());
    }
}

/// The line tells the listing: two listings that are written as one line
/// have the same records in the same order, each with the same name, kind,
/// size and modification time. So what is read back from the line of a
/// listing can only be that listing.
pub proof fn lemma_line_tells_the_listing(xs: Seq<RecordModel>, ys: Seq<RecordModel>)
    requires
        structured_text(xs) == structured_text(ys),
    ensures
        xs == ys,
{
    let tx = joined(json_elements(xs)) + ARRAY_END@;
    let ty = joined(json_elements(ys)) + ARRAY_END@;
    assert(structured_text(xs) =~= ARRAY_START@ + tx);
    assert(structured_text(ys) =~= ARRAY_START@ + ty);
    lemma_same_start(ARRAY_START@, tx, ty);
    lemma_elements_tell_the_listing(xs, ys);
}

} // verus!
