//! JSON: objects of text, written on one line, and the comma that is allowed after the last entry
//! of a text that is read.
use crate::text::joined;
use serde::Serializer;
use vstd::prelude::*;

verus! {

/// One entry of an object: a name with a text, or with no value.
pub struct Field {
    /// The name of the entry.
    pub name: String,
    /// The value of the entry, `null` where there is none.
    pub value: Option<String>,
}

/// A [`Field`] as what it says.
pub struct FieldView {
    pub name: Seq<char>,
    pub value: Option<Seq<char>>,
}

impl View for Field {
    type V = FieldView;

    open spec fn view(&self) -> FieldView {
        FieldView { name: self.name@, value: crate::text::optional_text(self.value) }
    }
}

/// The views of a sequence of fields.
pub open spec fn field_views(fields: Seq<Field>) -> Seq<FieldView> {
    Seq::new(fields.len(), |i: int| fields[i]@)
}

/// The hexadecimal digit with the value `n`, in lower case.
pub open spec fn hex_digit(n: int) -> char {
    if n < 10 {
        ('0' as int + n) as char
    } else {
        ('a' as int + n - 10) as char
    }
}

/// A character as it stands inside a string: quotes, backslashes and control characters are
/// escaped, all others stand for themselves.
pub open spec fn escaped_char(c: char) -> Seq<char> {
    if c == '"' {
        seq!['\\', '"']
    } else if c == '\\' {
        seq!['\\', '\\']
    } else if c == '\u{8}' {
        seq!['\\', 'b']
    } else if c == '\t' {
        seq!['\\', 't']
    } else if c == '\n' {
        seq!['\\', 'n']
    } else if c == '\u{c}' {
        seq!['\\', 'f']
    } else if c == '\r' {
        seq!['\\', 'r']
    } else if ' ' > c {
        seq!['\\', 'u', '0', '0', hex_digit(c as int / 16), hex_digit(c as int % 16)]
    } else {
        seq![c]
    }
}

/// A text as it stands between the quotes of a string.
pub open spec fn escaped(text: Seq<char>) -> Seq<char>
    decreases text.len(),
{
    if text.len() == 0 {
        Seq::empty()
    } else {
        escaped_char(text[0]) + escaped(text.drop_first())
    }
}

/// A text as a string.
pub open spec fn quoted(text: Seq<char>) -> Seq<char> {
    seq!['"'] + escaped(text) + seq!['"']
}

/// The value of an entry: a string, or `null`.
pub open spec fn value_text(value: Option<Seq<char>>) -> Seq<char> {
    match value {
        Some(text) => quoted(text),
        None => seq!['n', 'u', 'l', 'l'],
    }
}

/// One entry: name, colon, value.
pub open spec fn entry_text(field: FieldView) -> Seq<char> {
    quoted(field.name) + seq![':'] + value_text(field.value)
}

/// The object with the given entries, in their order, without any space.
pub open spec fn object_text(fields: Seq<FieldView>) -> Seq<char> {
    seq!['{'] + joined(Seq::new(fields.len(), |i: int| entry_text(fields[i])), seq![',']) + seq!['}']
}

/// Calls `serde::Serializer::collect_map` of a `serde_json::Serializer` that writes to memory.
///
/// What is claimed is the compact form of `serde_json`: the entries in order, names and texts
/// quoted and escaped, `null` for a missing value, and no space or line break between them. Text
/// written to memory cannot fail.
#[verifier::external_body]
pub(crate) fn write_object(fields: &Vec<Field>) -> (json: String)
    ensures
        json@ == object_text(field_views(fields@)),
{
    let mut serializer = serde_json::Serializer::new(Vec::new());
    let entries = fields.iter().map(|field| (&field.name, &field.value));
    serializer.collect_map(entries).unwrap();
    String::from_utf8(serializer.into_inner()).unwrap()
}

/// The quote at both ends of a string.
pub const QUOTE: u8 = 0x22;

/// The comma between two entries.
pub const COMMA: u8 = 0x2c;

/// What makes the next byte of a string stand for itself.
pub const BACKSLASH: u8 = 0x5c;

/// The colon behind the name of an entry.
pub const COLON: u8 = 0x3a;

/// The bracket that opens a list.
pub const OPENING_BRACKET: u8 = 0x5b;

/// The brace that opens an object.
pub const OPENING_BRACE: u8 = 0x7b;

/// The brace that closes an object.
pub const CLOSING_BRACE: u8 = 0x7d;

/// The space.
pub const SPACE: u8 = 0x20;

/// Where in a JSON text a byte stands.
#[derive(PartialEq, Eq, Structural, Clone, Copy)]
pub enum Place {
    /// Outside all strings.
    Outside,
    /// Inside a string.
    Inside,
    /// Inside a string, behind a backslash.
    Escaped,
}

/// The place behind a byte that stands at the given place.
pub open spec fn place_after(place: Place, byte: u8) -> Place {
    match place {
        Place::Outside => if byte == QUOTE {
            Place::Inside
        } else {
            Place::Outside
        },
        Place::Inside => if byte == QUOTE {
            Place::Outside
        } else if byte == BACKSLASH {
            Place::Escaped
        } else {
            Place::Inside
        },
        Place::Escaped => Place::Inside,
    }
}

/// The place behind the first `n` bytes of a text.
pub open spec fn place_at(text: Seq<u8>, n: nat) -> Place
    decreases n,
{
    if n == 0 {
        Place::Outside
    } else {
        place_after(place_at(text, (n - 1) as nat), text[n - 1])
    }
}

/// Whether JSON takes a byte for white space.
pub open spec fn is_blank(byte: u8) -> bool {
    byte == SPACE || byte == 0x09 || byte == 0x0a || byte == 0x0d
}

/// Whether a byte can be the last one of an entry: it is not white space, and nothing that opens
/// an object or a list, ends a name or separates entries.
pub open spec fn can_end_entry(byte: u8) -> bool {
    !is_blank(byte) && byte != OPENING_BRACE && byte != OPENING_BRACKET && byte != COLON && byte
        != COMMA
}

/// Whether an entry ends before `i`, with nothing but white space behind it.
pub open spec fn entry_ends(text: Seq<u8>, i: int) -> bool {
    exists|last: int|
        0 <= last < i && can_end_entry(#[trigger] text[last]) && (forall|k: int|
            last < k < i ==> is_blank(#[trigger] text[k]))
}

/// Whether nothing but the brace that closes the text, and white space, stands from `from` on.
pub open spec fn text_closes(text: Seq<u8>, from: int) -> bool {
    exists|end: int|
        from <= end < text.len() && #[trigger] text[end] == CLOSING_BRACE && (forall|k: int|
            from <= k < text.len() && k != end ==> is_blank(#[trigger] text[k]))
}

/// Whether a comma stands at `i` that follows the last entry of the object that the text is.
pub open spec fn is_final_comma(text: Seq<u8>, i: int) -> bool {
    &&& text[i] == COMMA
    &&& place_at(text, i as nat) == Place::Outside
    &&& entry_ends(text, i)
    &&& text_closes(text, i + 1)
}

/// The text with a space in the place of the comma that follows its last entry.
pub open spec fn without_final_comma(text: Seq<u8>) -> Seq<u8> {
    Seq::new(
        text.len(),
        |i: int|
            if is_final_comma(text, i) {
                SPACE
            } else {
                text[i]
            },
    )
}

/// Whether a byte is white space.
fn blank(byte: u8) -> (blank: bool)
    ensures
        blank == is_blank(byte),
{
    byte == SPACE || byte == 0x09 || byte == 0x0a || byte == 0x0d
}

/// The first place from `from` on that holds no white space, or the end of the text.
fn skip_blanks(text: &Vec<u8>, from: usize) -> (i: usize)
    requires
        from <= text.len(),
    ensures
        from <= i <= text.len(),
        forall|k: int| from <= k < i ==> is_blank(#[trigger] text@[k]),
        i < text.len() ==> !is_blank(text@[i as int]),
{
    let mut i: usize = from;
    while i < text.len() && blank(text[i])
        invariant
            from <= i <= text.len(),
            forall|k: int| from <= k < i ==> is_blank(#[trigger] text@[k]),
        decreases text.len() - i,
    {
        i = i + 1;
    }
    i
}

/// Whether an entry ends before `i`.
fn follows_entry(text: &Vec<u8>, i: usize) -> (follows: bool)
    requires
        i <= text.len(),
    ensures
        follows == entry_ends(text@, i as int),
{
    let mut n: usize = i;
    while n > 0 && blank(text[n - 1])
        invariant
            n <= i <= text.len(),
            forall|k: int| n <= k < i ==> is_blank(#[trigger] text@[k]),
        decreases n,
    {
        n = n - 1;
    }
    if n == 0 {
        return false;
    }
    let byte: u8 = text[n - 1];
    proof {
        assert(!is_blank(text@[n - 1]));
        if entry_ends(text@, i as int) {
            let last = choose|last: int|
                0 <= last < i && can_end_entry(#[trigger] text@[last]) && (forall|k: int|
                    last < k < i ==> is_blank(#[trigger] text@[k]));
            assert(last == n - 1);
        }
    }
    byte != OPENING_BRACE && byte != OPENING_BRACKET && byte != COLON && byte != COMMA
}

/// Whether only the closing brace of the text is left from `from` on.
fn closes_text(text: &Vec<u8>, from: usize) -> (closes: bool)
    requires
        from <= text.len(),
    ensures
        closes == text_closes(text@, from as int),
{
    let end: usize = skip_blanks(text, from);
    if end == text.len() || text[end] != CLOSING_BRACE {
        return false;
    }
    let rest: usize = skip_blanks(text, end + 1);
    proof {
        if text_closes(text@, from as int) {
            let brace = choose|brace: int|
                from <= brace < text@.len() && #[trigger] text@[brace] == CLOSING_BRACE && (forall|
                    k: int,
                |
                    from <= k < text@.len() && k != brace ==> is_blank(#[trigger] text@[k]));
            assert(brace == end);
            assert(rest == text@.len());
        }
    }
    rest == text.len()
}

/// Allows a comma after the last entry of the object that a JSON text is: a space takes its place.
pub fn allow_final_comma(text: &Vec<u8>) -> (allowed: Vec<u8>)
    ensures
        allowed@ == without_final_comma(text@),
{
    let mut allowed: Vec<u8> = Vec::new();
    let mut place = Place::Outside;
    let mut i: usize = 0;
    while i < text.len()
        invariant
            i <= text.len(),
            place == place_at(text@, i as nat),
            allowed@ == without_final_comma(text@).take(i as int),
        decreases text.len() - i,
    {
        let byte: u8 = text[i];
        if byte == COMMA && place == Place::Outside && follows_entry(text, i) && closes_text(
            text,
            i + 1,
        ) {
            allowed.push(SPACE);
        } else {
            allowed.push(byte);
        }
        place = match place {
            Place::Outside => if byte == QUOTE {
                Place::Inside
            } else {
                Place::Outside
            },
            Place::Inside => if byte == QUOTE {
                Place::Outside
            } else if byte == BACKSLASH {
                Place::Escaped
            } else {
                Place::Inside
            },
            Place::Escaped => Place::Inside,
        };
        i = i + 1;
        proof {
            assert(allowed@ =~= without_final_comma(text@).take(i as int));
        }
    }
    proof {
        assert(without_final_comma(text@).take(text@.len() as int) =~= without_final_comma(text@));
    }
    allowed
}

/// Allowing a final comma changes no string: each byte stands inside or outside a string as it did
/// before, and what stands inside is the same.
pub proof fn law_final_comma_leaves_strings(text: Seq<u8>, i: nat)
    requires
        i < text.len(),
    ensures
        place_at(without_final_comma(text), i) == place_at(text, i),
        place_at(text, i) != Place::Outside ==> without_final_comma(text)[i as int]
            == text[i as int],
    decreases i,
{
    if i > 0 {
        law_final_comma_leaves_strings(text, (i - 1) as nat);
    }
}

/// No more than one comma is allowed for.
pub proof fn law_one_comma_is_final(text: Seq<u8>, i: int, j: int)
    requires
        0 <= i < text.len(),
        0 <= j < text.len(),
        is_final_comma(text, i),
        is_final_comma(text, j),
    ensures
        i == j,
{
    if i < j {
        assert(text_closes(text, i + 1) && text[j] == COMMA);
    } else if j < i {
        assert(text_closes(text, j + 1) && text[i] == COMMA);
    }
}

/// A text that does not end with a comma behind its last entry is left as it is.
pub proof fn law_complete_text_is_kept(text: Seq<u8>)
    requires
        forall|i: int| 0 <= i < text.len() ==> !#[trigger] is_final_comma(text, i),
    ensures
        without_final_comma(text) == text,
{
    assert(without_final_comma(text) =~= text);
}

/// Whether the text holds no character below the space, so neither a line feed nor a carriage
/// return.
pub open spec fn unbroken(text: Seq<char>) -> bool {
    forall|i: int| 0 <= i < text.len() ==> #[trigger] text[i] >= ' '
}

/// An object never breaks a line, whatever its entries hold: one object is one line.
pub proof fn law_object_is_one_line(fields: Seq<FieldView>)
    ensures
        unbroken(object_text(fields)),
        !object_text(fields).contains('\n'),
        !object_text(fields).contains('\r'),
{
    let entries = Seq::new(fields.len(), |i: int| entry_text(fields[i]));
    assert forall|i: int| 0 <= i < entries.len() implies unbroken(#[trigger] entries[i]) by {
        lemma_quoted_unbroken(fields[i].name);
        match fields[i].value {
            Some(text) => lemma_quoted_unbroken(text),
            None => {},
        }
    }
    lemma_joined_unbroken(entries, seq![',']);
}

/// An object can be read back: two lists of entries that are written the same are the same.
pub proof fn law_object_determines_fields(a: Seq<FieldView>, b: Seq<FieldView>)
    requires
        object_text(a) == object_text(b),
    ensures
        a == b,
{
    let ea = Seq::new(a.len(), |i: int| entry_text(a[i]));
    let eb = Seq::new(b.len(), |i: int| entry_text(b[i]));
    let ta = joined(ea, seq![',']) + seq!['}'];
    let tb = joined(eb, seq![',']) + seq!['}'];
    assert(object_text(a).skip(1) == ta);
    assert(object_text(b).skip(1) == tb);
    if a.len() == 0 {
        if b.len() > 0 {
            lemma_joined_first(b);
            assert(ta[0] == '}');
            assert(tb[0] == '"');
        }
        assert(a == b);
    } else if b.len() == 0 {
        lemma_joined_first(a);
        assert(tb[0] == '}');
        assert(ta[0] == '"');
    } else {
        lemma_entries_determined(a, b);
    }
}

proof fn lemma_escape_unbroken(c: char)
    ensures
        unbroken(escaped_char(c)),
{
    if ' ' > c {
        let n = c as int;
        assert(0 <= n < 32);
        assert('0' as int <= hex_digit(n / 16) as int);
        assert('0' as int <= hex_digit(n % 16) as int);
    }
}

proof fn lemma_escaped_unbroken(text: Seq<char>)
    ensures
        unbroken(escaped(text)),
    decreases text.len(),
{
    if text.len() > 0 {
        lemma_escaped_unbroken(text.drop_first());
        lemma_escape_unbroken(text[0]);
    }
}

proof fn lemma_quoted_unbroken(text: Seq<char>)
    ensures
        unbroken(quoted(text)),
{
    lemma_escaped_unbroken(text);
}

proof fn lemma_joined_unbroken(pieces: Seq<Seq<char>>, separator: Seq<char>)
    requires
        unbroken(separator),
        forall|i: int| 0 <= i < pieces.len() ==> unbroken(#[trigger] pieces[i]),
    ensures
        unbroken(joined(pieces, separator)),
    decreases pieces.len(),
{
    if pieces.len() > 1 {
        let shorter = pieces.drop_last();
        assert forall|i: int| 0 <= i < shorter.len() implies unbroken(#[trigger] shorter[i]) by {
            assert(shorter[i] == pieces[i]);
        }
        lemma_joined_unbroken(shorter, separator);
    }
}

/// A joined list is its first piece, followed by the separator and the rest where there is a rest.
proof fn lemma_joined_split(pieces: Seq<Seq<char>>, separator: Seq<char>)
    requires
        pieces.len() > 1,
    ensures
        joined(pieces, separator) == pieces[0] + separator + joined(pieces.drop_first(), separator),
    decreases pieces.len(),
{
    let front = pieces.drop_last();
    let rest = pieces.drop_first();
    if pieces.len() == 2 {
        assert(front.len() == 1 && rest.len() == 1);
        assert(joined(front, separator) == pieces[0]);
        assert(joined(rest, separator) == pieces[1]);
    } else {
        lemma_joined_split(front, separator);
        assert(front.drop_first() == rest.drop_last());
        assert(joined(rest, separator) == joined(rest.drop_last(), separator) + separator
            + pieces.last());
        assert(joined(pieces, separator) == pieces[0] + separator + joined(rest, separator));
    }
}

/// A list of entries starts with the quote of the first name.
proof fn lemma_joined_first(fields: Seq<FieldView>)
    requires
        fields.len() > 0,
    ensures
        joined(Seq::new(fields.len(), |i: int| entry_text(fields[i])), seq![',']).len() > 0,
        joined(Seq::new(fields.len(), |i: int| entry_text(fields[i])), seq![','])[0] == '"',
{
    let entries = Seq::new(fields.len(), |i: int| entry_text(fields[i]));
    assert(entries[0][0] == '"');
    if fields.len() > 1 {
        lemma_joined_split(entries, seq![',']);
    }
}

/// No escape is the start of another: what follows a character can be told from it.
proof fn lemma_escape_split(c: char, d: char, s: Seq<char>, t: Seq<char>)
    requires
        escaped_char(c) + s == escaped_char(d) + t,
    ensures
        c == d,
        s == t,
{
    let l = escaped_char(c) + s;
    let r = escaped_char(d) + t;
    assert(l[0] == escaped_char(c)[0]);
    assert(r[0] == escaped_char(d)[0]);
    if escaped_char(c).len() > 1 && escaped_char(d).len() > 1 {
        assert(l[1] == escaped_char(c)[1]);
        assert(r[1] == escaped_char(d)[1]);
        if escaped_char(c).len() == 6 && escaped_char(d).len() == 6 {
            assert(l[4] == escaped_char(c)[4]);
            assert(r[4] == escaped_char(d)[4]);
            assert(l[5] == escaped_char(c)[5]);
            assert(r[5] == escaped_char(d)[5]);
        }
    }
    assert(c == d);
    assert(l.skip(escaped_char(c).len() as int) == s);
    assert(r.skip(escaped_char(d).len() as int) == t);
}

/// The end of a string can be told from its content.
proof fn lemma_escaped_split(x: Seq<char>, y: Seq<char>, s: Seq<char>, t: Seq<char>)
    requires
        escaped(x) + seq!['"'] + s == escaped(y) + seq!['"'] + t,
    ensures
        x == y,
        s == t,
    decreases x.len(),
{
    let l = escaped(x) + seq!['"'] + s;
    let r = escaped(y) + seq!['"'] + t;
    if x.len() == 0 || y.len() == 0 {
        if x.len() > 0 {
            assert(l[0] == escaped_char(x[0])[0]);
            assert(r[0] == '"');
        } else if y.len() > 0 {
            assert(r[0] == escaped_char(y[0])[0]);
            assert(l[0] == '"');
        }
        assert(x == y);
        assert(l.skip(1) == s);
        assert(r.skip(1) == t);
    } else {
        let sx = escaped(x.drop_first()) + seq!['"'] + s;
        let ty = escaped(y.drop_first()) + seq!['"'] + t;
        assert(l == escaped_char(x[0]) + sx);
        assert(r == escaped_char(y[0]) + ty);
        lemma_escape_split(x[0], y[0], sx, ty);
        lemma_escaped_split(x.drop_first(), y.drop_first(), s, t);
        assert(x == seq![x[0]] + x.drop_first());
        assert(y == seq![y[0]] + y.drop_first());
    }
}

/// What follows a string can be told from it.
proof fn lemma_quoted_split(x: Seq<char>, y: Seq<char>, s: Seq<char>, t: Seq<char>)
    requires
        quoted(x) + s == quoted(y) + t,
    ensures
        x == y,
        s == t,
{
    assert((quoted(x) + s).skip(1) == escaped(x) + seq!['"'] + s);
    assert((quoted(y) + t).skip(1) == escaped(y) + seq!['"'] + t);
    lemma_escaped_split(x, y, s, t);
}

/// What follows an entry can be told from it.
proof fn lemma_entry_split(a: FieldView, b: FieldView, s: Seq<char>, t: Seq<char>)
    requires
        entry_text(a) + s == entry_text(b) + t,
    ensures
        a == b,
        s == t,
{
    let va = value_text(a.value) + s;
    let vb = value_text(b.value) + t;
    assert(entry_text(a) + s == quoted(a.name) + (seq![':'] + va));
    assert(entry_text(b) + t == quoted(b.name) + (seq![':'] + vb));
    lemma_quoted_split(a.name, b.name, seq![':'] + va, seq![':'] + vb);
    assert((seq![':'] + va).skip(1) == va);
    assert((seq![':'] + vb).skip(1) == vb);
    match (a.value, b.value) {
        (Some(x), Some(y)) => lemma_quoted_split(x, y, s, t),
        (None, None) => {
            assert(va.skip(4) == s);
            assert(vb.skip(4) == t);
        },
        _ => {
            assert(va[0] == value_text(a.value)[0]);
            assert(vb[0] == value_text(b.value)[0]);
        },
    }
}

/// Lists of entries that are written the same up to the closing brace are the same.
proof fn lemma_entries_determined(a: Seq<FieldView>, b: Seq<FieldView>)
    requires
        a.len() > 0,
        b.len() > 0,
        joined(Seq::new(a.len(), |i: int| entry_text(a[i])), seq![',']) + seq!['}'] == joined(
            Seq::new(b.len(), |i: int| entry_text(b[i])),
            seq![','],
        ) + seq!['}'],
    ensures
        a == b,
    decreases a.len(),
{
    let s = rest_of_object(a);
    let t = rest_of_object(b);
    lemma_rest_of_object(a);
    lemma_rest_of_object(b);
    lemma_entry_split(a[0], b[0], s, t);
    assert(s[0] == t[0]);
    if a.len() > 1 && b.len() > 1 {
        let ra = a.drop_first();
        let rb = b.drop_first();
        assert(s.skip(1) == joined(Seq::new(ra.len(), |i: int| entry_text(ra[i])), seq![','])
            + seq!['}']);
        assert(t.skip(1) == joined(Seq::new(rb.len(), |i: int| entry_text(rb[i])), seq![','])
            + seq!['}']);
        lemma_entries_determined(ra, rb);
        assert(a == seq![a[0]] + ra);
        assert(b == seq![b[0]] + rb);
    } else {
        assert(a == b);
    }
}

/// What follows the first entry of a list up to the closing brace.
spec fn rest_of_object(fields: Seq<FieldView>) -> Seq<char> {
    if fields.len() > 1 {
        let rest = fields.drop_first();
        seq![','] + (joined(Seq::new(rest.len(), |i: int| entry_text(rest[i])), seq![',']) + seq!['}'])
    } else {
        seq!['}']
    }
}

proof fn lemma_rest_of_object(fields: Seq<FieldView>)
    requires
        fields.len() > 0,
    ensures
        joined(Seq::new(fields.len(), |i: int| entry_text(fields[i])), seq![',']) + seq!['}']
            == entry_text(fields[0]) + rest_of_object(fields),
{
    let entries = Seq::new(fields.len(), |i: int| entry_text(fields[i]));
    if fields.len() > 1 {
        let rest = fields.drop_first();
        lemma_joined_split(entries, seq![',']);
        assert(entries.drop_first() == Seq::new(rest.len(), |i: int| entry_text(rest[i])));
        assert(joined(entries, seq![',']) + seq!['}'] == entry_text(fields[0]) + rest_of_object(
            fields,
        ));
    } else {
        assert(joined(entries, seq![',']) == entry_text(fields[0]));
    }
}

/// An object is its entries between braces, with commas between them, and each entry is its name,
/// a colon and its value: a string, or `null` where there is none.
pub proof fn law_object_holds_its_entries(fields: Seq<FieldView>, field: FieldView)
    ensures
        object_text(fields) == seq!['{'] + joined(
            Seq::new(fields.len(), |i: int| entry_text(fields[i])),
            seq![','],
        ) + seq!['}'],
        field.value matches Some(text) ==> entry_text(field) == quoted(field.name) + seq![':']
            + quoted(text),
        field.value is None ==> entry_text(field) == quoted(field.name) + seq![
            ':',
            'n',
            'u',
            'l',
            'l',
        ],
{
    if field.value is None {
        assert(seq![':'] + seq!['n', 'u', 'l', 'l'] =~= seq![':', 'n', 'u', 'l', 'l']);
        assert(entry_text(field) =~= quoted(field.name) + seq![':', 'n', 'u', 'l', 'l']);
    }
}

/// The fields of an object are seen each in its place, with name and value.
pub proof fn law_fields_are_seen_in_place(fields: Seq<Field>)
    ensures
        field_views(fields).len() == fields.len(),
        forall|i: int|
            0 <= i < fields.len() ==> (#[trigger] field_views(fields)[i]).name == fields[i].name@,
        forall|i: int|
            0 <= i < fields.len() ==> (#[trigger] field_views(fields)[i]).value
                == crate::text::optional_text(fields[i].value),
{
}

/// The value of a hexadecimal digit in lower case.
pub open spec fn digit_value(digit: char) -> int {
    if '9' >= digit {
        digit as int - '0' as int
    } else {
        digit as int - 'a' as int + 10
    }
}

/// A string stands between quotes, one character after another. A quote or a backslash stands
/// behind a backslash, a control character is written by its letter or by its number, and every
/// other character stands for itself.
pub proof fn law_characters_are_escaped(text: Seq<char>, c: char)
    ensures
        quoted(text) == seq!['"'] + escaped(text) + seq!['"'],
        escaped(Seq::empty()) == Seq::<char>::empty(),
        escaped(seq![c] + text) == escaped_char(c) + escaped(text),
        c >= ' ' && c != '"' && c != '\\' ==> escaped_char(c) == seq![c],
        escaped_char('"') == seq!['\\', '"'],
        escaped_char('\\') == seq!['\\', '\\'],
        escaped_char('\u{8}') == seq!['\\', 'b'],
        escaped_char('\t') == seq!['\\', 't'],
        escaped_char('\n') == seq!['\\', 'n'],
        escaped_char('\u{c}') == seq!['\\', 'f'],
        escaped_char('\r') == seq!['\\', 'r'],
        ' ' > c && c != '\u{8}' && c != '\t' && c != '\n' && c != '\u{c}' && c != '\r' ==> {
            let written = escaped_char(c);
            &&& written.len() == 6
            &&& written.take(4) == seq!['\\', 'u', '0', '0']
            &&& digit_value(written[4]) * 16 + digit_value(written[5]) == c as int
        },
{
    assert((seq![c] + text).drop_first() =~= text);
    if ' ' > c {
        let n = c as int;
        assert(0 <= n < 32);
        assert(digit_value(hex_digit(n / 16)) == n / 16);
        assert(digit_value(hex_digit(n % 16)) == n % 16);
    }
}

/// A string opens and closes with a quote; inside it a backslash lets the next byte stand for
/// itself. White space is the space, the tab, the line feed and the carriage return.
pub proof fn law_quotes_enclose_strings(text: Seq<u8>, n: nat, byte: u8)
    ensures
        place_at(text, 0) == Place::Outside,
        place_at(text, n + 1) == Place::Inside <==> {
            ||| place_at(text, n) == Place::Outside && text[n as int] == 0x22
            ||| place_at(text, n) == Place::Inside && text[n as int] != 0x22 && text[n as int]
                != 0x5c
            ||| place_at(text, n) == Place::Escaped
        },
        place_at(text, n + 1) == Place::Escaped <==> place_at(text, n) == Place::Inside
            && text[n as int] == 0x5c,
        is_blank(byte) <==> byte == 0x20 || byte == 0x09 || byte == 0x0a || byte == 0x0d,
{
}

/// A comma behind the last entry of a text is allowed for, whatever the entries are and however
/// much white space stands around it: it becomes a space, and nothing else changes.
pub proof fn law_final_comma_becomes_a_space(
    front: Seq<u8>,
    before: Seq<u8>,
    after: Seq<u8>,
    end: Seq<u8>,
)
    requires
        front.len() > 0,
        place_at(front, front.len()) == Place::Outside,
        !is_blank(front.last()),
        front.last() != 0x7b && front.last() != 0x5b && front.last() != 0x3a && front.last()
            != 0x2c,
        forall|i: int| 0 <= i < before.len() ==> is_blank(#[trigger] before[i]),
        forall|i: int| 0 <= i < after.len() ==> is_blank(#[trigger] after[i]),
        forall|i: int| 0 <= i < end.len() ==> is_blank(#[trigger] end[i]),
    ensures
        without_final_comma(front + before + seq![0x2cu8] + after + seq![0x7du8] + end) == front
            + before + seq![0x20u8] + after + seq![0x7du8] + end,
{
    let text = front + before + seq![0x2cu8] + after + seq![0x7du8] + end;
    let at = (front.len() + before.len()) as int;
    let brace = at + 1 + after.len();
    assert(front =~= text.take(front.len() as int));
    lemma_place_of_start(front, text, front.len());
    lemma_place_over_blanks(text, front.len(), at as nat);
    assert(text[at] == 0x2c);
    assert(text[brace] == 0x7d);
    assert(text[front.len() - 1] == front.last());
    assert forall|k: int| front.len() - 1 < k < at implies is_blank(#[trigger] text[k]) by {
        assert(text[k] == before[k - front.len()]);
    }
    assert(entry_ends(text, at)) by {
        assert(can_end_entry(text[front.len() - 1]));
    }
    assert forall|k: int| at + 1 <= k < text.len() && k != brace implies is_blank(
        #[trigger] text[k],
    ) by {
        if k < brace {
            assert(text[k] == after[k - at - 1]);
        } else {
            assert(text[k] == end[k - brace - 1]);
        }
    }
    assert(text_closes(text, at + 1));
    assert(is_final_comma(text, at));
    assert forall|i: int| 0 <= i < text.len() && i != at implies !is_final_comma(text, i) by {
        if is_final_comma(text, i) {
            law_one_comma_is_final(text, i, at);
        }
    }
    assert(without_final_comma(text) =~= front + before + seq![0x20u8] + after + seq![0x7du8]
        + end);
}

/// Nothing is ever changed but a comma to a space, and that only outside strings, behind an entry
/// and before the brace that closes the text.
pub proof fn law_only_a_final_comma_changes(text: Seq<u8>, i: int)
    requires
        0 <= i < text.len(),
        without_final_comma(text)[i] != text[i],
    ensures
        text[i] == 0x2c,
        without_final_comma(text)[i] == 0x20,
        place_at(text, i as nat) == Place::Outside,
        exists|last: int, brace: int|
            0 <= last < i < brace < text.len() && !is_blank(#[trigger] text[last]) && text[last]
                != 0x7b && text[last] != 0x5b && text[last] != 0x3a && text[last] != 0x2c
                && #[trigger] text[brace] == 0x7d && forall|k: int|
                last < k < text.len() && k != i && k != brace ==> is_blank(#[trigger] text[k]),
        without_final_comma(text).len() == text.len(),
{
    let last = choose|last: int|
        0 <= last < i && can_end_entry(#[trigger] text[last]) && (forall|k: int|
            last < k < i ==> is_blank(#[trigger] text[k]));
    let brace = choose|brace: int|
        i + 1 <= brace < text.len() && #[trigger] text[brace] == CLOSING_BRACE && (forall|k: int|
            i + 1 <= k < text.len() && k != brace ==> is_blank(#[trigger] text[k]));
    assert(!is_blank(text[last]) && text[brace] == 0x7d);
    assert forall|k: int| last < k < text.len() && k != i && k != brace implies is_blank(
        #[trigger] text[k],
    ) by {}
}

/// What stands before a byte decides its place.
proof fn lemma_place_of_start(start: Seq<u8>, text: Seq<u8>, n: nat)
    requires
        n <= start.len() <= text.len(),
        start == text.take(start.len() as int),
    ensures
        place_at(text, n) == place_at(start, n),
    decreases n,
{
    if n > 0 {
        lemma_place_of_start(start, text, (n - 1) as nat);
        assert(start[n - 1] == text[n - 1]);
    }
}

/// White space opens no string.
proof fn lemma_place_over_blanks(text: Seq<u8>, from: nat, to: nat)
    requires
        from <= to <= text.len(),
        place_at(text, from) == Place::Outside,
        forall|k: int| from <= k < to ==> is_blank(#[trigger] text[k]),
    ensures
        place_at(text, to) == Place::Outside,
    decreases to,
{
    if from < to {
        lemma_place_over_blanks(text, from, (to - 1) as nat);
        assert(is_blank(text[to - 1]));
    }
}

} // verus!
