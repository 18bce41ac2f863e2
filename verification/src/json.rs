//! The JSON wire format: a document value, a renderer that produces the
//! canonical text of a value, and a parser for the text the remote sends.

use vstd::prelude::*;

use crate::strutil::{push_char, str_eq};

verus! {

/// A JSON document as a mathematical value. Object members keep their
/// textual order; duplicate keys may occur, and readers decide which wins.
pub enum JsonView {
    Null,
    Bool(bool),
    Int(i64),
    Str(Seq<char>),
    Arr(Seq<JsonView>),
    Obj(Seq<(Seq<char>, JsonView)>),
}

/// One member of a JSON object: a key and its value.
#[derive(Debug)]
pub struct JsonMember {
    pub key: String,
    pub value: Json,
}

/// A JSON document. Numbers are signed 64-bit integers, which covers every
/// field of the remote API's schemas.
#[derive(Debug)]
pub enum Json {
    Null,
    Bool(bool),
    Int(i64),
    Str(String),
    Arr(Vec<Json>),
    Obj(Vec<JsonMember>),
}

/// The mathematical value of a document.
pub open spec fn json_view(j: Json) -> JsonView
    decreases j,
    via json_view_dec
{
    match j {
        Json::Null => JsonView::Null,
        Json::Bool(b) => JsonView::Bool(b),
        Json::Int(n) => JsonView::Int(n),
        Json::Str(s) => JsonView::Str(s@),
        Json::Arr(items) => JsonView::Arr(arr_view(items@)),
        Json::Obj(members) => JsonView::Obj(obj_view(members@)),
    }
}

/// The mathematical values of a sequence of documents, in order.
pub open spec fn arr_view(items: Seq<Json>) -> Seq<JsonView>
    decreases items,
    via arr_view_dec
{
    if items.len() == 0 {
        Seq::empty()
    } else {
        arr_view(items.drop_last()).push(json_view(items.last()))
    }
}

/// The mathematical values of a sequence of object members, in order.
pub open spec fn obj_view(members: Seq<JsonMember>) -> Seq<(Seq<char>, JsonView)>
    decreases members,
    via obj_view_dec
{
    if members.len() == 0 {
        Seq::empty()
    } else {
        obj_view(members.drop_last()).push(
            (members.last().key@, json_view(members.last().value)),
        )
    }
}

#[via_fn]
proof fn json_view_dec(j: Json) {
    match j {
        Json::Arr(items) => {
            assert(decreases_to!(j => items));
            assert(decreases_to!(items => items@));
        },
        Json::Obj(members) => {
            assert(decreases_to!(j => members));
            assert(decreases_to!(members => members@));
        },
        _ => {},
    }
}

#[via_fn]
proof fn arr_view_dec(items: Seq<Json>) {
    if items.len() > 0 {
        assert(decreases_to!(items => items.drop_last()));
        assert(decreases_to!(items => items.last()));
    }
}

#[via_fn]
proof fn obj_view_dec(members: Seq<JsonMember>) {
    if members.len() > 0 {
        assert(decreases_to!(members => members.drop_last()));
        assert(decreases_to!(members => members.last()));
        assert(decreases_to!(members.last() => members.last().value));
    }
}

impl View for Json {
    type V = JsonView;

    open spec fn view(&self) -> JsonView {
        json_view(*self)
    }
}

/// `arr_view` maps each document to its value, position by position.
pub proof fn lemma_arr_view(items: Seq<Json>)
    ensures
        arr_view(items).len() == items.len(),
        forall|i: int| 0 <= i < items.len() ==> arr_view(items)[i] == json_view(#[trigger] items[i]),
    decreases items.len(),
{
    if items.len() > 0 {
        lemma_arr_view(items.drop_last());
        assert forall|i: int| 0 <= i < items.len() implies arr_view(items)[i] == json_view(
            #[trigger] items[i],
        ) by {
            if i < items.len() - 1 {
                assert(items.drop_last()[i] == items[i]);
                assert(arr_view(items)[i] == arr_view(items.drop_last())[i]);
            } else {
                assert(items.last() == items[i]);
            }
        }
    }
}

/// `obj_view` maps each member to its key and value, position by position.
pub proof fn lemma_obj_view(members: Seq<JsonMember>)
    ensures
        obj_view(members).len() == members.len(),
        forall|i: int|
            0 <= i < members.len() ==> obj_view(members)[i] == (
                (#[trigger] members[i]).key@,
                json_view(members[i].value),
            ),
    decreases members.len(),
{
    if members.len() > 0 {
        lemma_obj_view(members.drop_last());
        assert forall|i: int| 0 <= i < members.len() implies obj_view(members)[i] == (
            (#[trigger] members[i]).key@,
            json_view(members[i].value),
        ) by {
            if i < members.len() - 1 {
                assert(members.drop_last()[i] == members[i]);
                assert(obj_view(members)[i] == obj_view(members.drop_last())[i]);
            } else {
                assert(members.last() == members[i]);
            }
        }
    }
}

/// Whether some member of `members` is named `key`.
pub open spec fn spec_obj_has_key(members: Seq<(Seq<char>, JsonView)>, key: Seq<char>) -> bool {
    exists|i: int| 0 <= i < members.len() && members[i].0 == key
}

/// A key occurs in a concatenation exactly where it occurs in one of the
/// parts.
pub proof fn lemma_obj_has_key_concat(
    a: Seq<(Seq<char>, JsonView)>,
    b: Seq<(Seq<char>, JsonView)>,
    key: Seq<char>,
)
    ensures
        spec_obj_has_key(a + b, key) <==> (spec_obj_has_key(a, key) || spec_obj_has_key(b, key)),
{
    if spec_obj_has_key(a + b, key) {
        let i = choose|i: int| 0 <= i < (a + b).len() && (a + b)[i].0 == key;
        if i < a.len() {
            assert(a[i] == (a + b)[i]);
        } else {
            assert(b[i - a.len()] == (a + b)[i]);
        }
    }
    if spec_obj_has_key(a, key) {
        let i = choose|i: int| 0 <= i < a.len() && a[i].0 == key;
        assert((a + b)[i] == a[i]);
    }
    if spec_obj_has_key(b, key) {
        let i = choose|i: int| 0 <= i < b.len() && b[i].0 == key;
        assert((a + b)[a.len() + i] == b[i]);
    }
}

/// An optional string field contributes `key` exactly when it is present
/// under that key.
pub proof fn lemma_has_key_opt_str_member(k: Seq<char>, o: Option<Seq<char>>, key: Seq<char>)
    ensures
        spec_obj_has_key(spec_opt_str_member(k, o), key) <==> (o is Some && k == key),
{
    match o {
        Some(s) => {
            assert(spec_opt_str_member(k, o)[0].0 == k);
        },
        None => {
        },
    }
}

/// An optional boolean field contributes `key` exactly when it is present
/// under that key.
pub proof fn lemma_has_key_opt_bool_member(k: Seq<char>, o: Option<bool>, key: Seq<char>)
    ensures
        spec_obj_has_key(spec_opt_bool_member(k, o), key) <==> (o is Some && k == key),
{
    match o {
        Some(b) => {
            assert(spec_opt_bool_member(k, o)[0].0 == k);
        },
        None => {
        },
    }
}

/// The decimal digit `d` as a character.
pub open spec fn spec_digit(d: int) -> char {
    if d == 0 {
        '0'
    } else if d == 1 {
        '1'
    } else if d == 2 {
        '2'
    } else if d == 3 {
        '3'
    } else if d == 4 {
        '4'
    } else if d == 5 {
        '5'
    } else if d == 6 {
        '6'
    } else if d == 7 {
        '7'
    } else if d == 8 {
        '8'
    } else {
        '9'
    }
}

/// The hexadecimal digit `d` as a lower-case character.
pub open spec fn spec_hex_digit(d: int) -> char {
    if d < 10 {
        spec_digit(d)
    } else if d == 10 {
        'a'
    } else if d == 11 {
        'b'
    } else if d == 12 {
        'c'
    } else if d == 13 {
        'd'
    } else if d == 14 {
        'e'
    } else {
        'f'
    }
}

/// The decimal text of a non-negative integer, no leading zeros.
pub open spec fn spec_dec_text(n: int) -> Seq<char>
    decreases n,
{
    if n < 0 {
        Seq::empty()
    } else if n <= 9 {
        seq![spec_digit(n)]
    } else {
        spec_dec_text(n / 10).push(spec_digit(n % 10))
    }
}

/// The decimal text of an integer, with a leading minus when negative.
pub open spec fn spec_int_text(n: int) -> Seq<char> {
    if n < 0 {
        seq!['-'] + spec_dec_text(-n)
    } else {
        spec_dec_text(n)
    }
}

/// How one character appears inside a JSON string literal: the quote, the
/// backslash and the common control characters take their two-character
/// escapes; other control characters take a `\u00XX` escape; everything
/// else stands for itself.
pub open spec fn spec_escape_char(c: char) -> Seq<char> {
    if c == '"' {
        seq!['\\', '"']
    } else if c == '\\' {
        seq!['\\', '\\']
    } else if c == '\n' {
        seq!['\\', 'n']
    } else if c == '\r' {
        seq!['\\', 'r']
    } else if c == '\t' {
        seq!['\\', 't']
    } else if c == '\u{0008}' {
        seq!['\\', 'b']
    } else if c == '\u{000C}' {
        seq!['\\', 'f']
    } else if (c as u32) < 0x20 {
        seq!['\\', 'u', '0', '0', spec_hex_digit((c as u32) as int / 16), spec_hex_digit(
            (c as u32) as int % 16,
        )]
    } else {
        seq![c]
    }
}

/// A string's characters, each escaped.
pub open spec fn spec_escape_string(s: Seq<char>) -> Seq<char>
    decreases s.len(),
{
    if s.len() == 0 {
        Seq::empty()
    } else {
        spec_escape_string(s.drop_last()) + spec_escape_char(s.last())
    }
}

/// The text of a value: minimal whitespace, members and items in order,
/// strings escaped as [`spec_escape_char`] says.
pub open spec fn spec_json_text(v: JsonView) -> Seq<char>
    decreases v,
{
    match v {
        JsonView::Null => "null"@,
        JsonView::Bool(b) => if b {
            "true"@
        } else {
            "false"@
        },
        JsonView::Int(n) => spec_int_text(n as int),
        JsonView::Str(s) => seq!['"'] + spec_escape_string(s) + seq!['"'],
        JsonView::Arr(items) => seq!['['] + spec_arr_text(items) + seq![']'],
        JsonView::Obj(members) => seq!['{'] + spec_members_text(members) + seq!['}'],
    }
}

/// Array items joined with commas.
pub open spec fn spec_arr_text(items: Seq<JsonView>) -> Seq<char>
    decreases items,
{
    if items.len() == 0 {
        Seq::empty()
    } else if items.len() == 1 {
        spec_json_text(items.last())
    } else {
        spec_arr_text(items.drop_last()) + seq![','] + spec_json_text(items.last())
    }
}

/// Object members joined with commas, each a quoted key, a colon and the
/// member's value.
pub open spec fn spec_members_text(members: Seq<(Seq<char>, JsonView)>) -> Seq<char>
    decreases members,
{
    if members.len() == 0 {
        Seq::empty()
    } else if members.len() == 1 {
        spec_member_text(members.last())
    } else {
        spec_members_text(members.drop_last()) + seq![','] + spec_member_text(members.last())
    }
}

/// One object member: `"key":value`.
pub open spec fn spec_member_text(member: (Seq<char>, JsonView)) -> Seq<char>
    decreases member,
{
    seq!['"'] + spec_escape_string(member.0) + seq!['"', ':'] + spec_json_text(member.1)
}

/// The decimal digit `d` as a character.
fn digit_char(d: u64) -> (c: char)
    requires
        d < 10,
    ensures
        c == spec_digit(d as int),
{
    if d == 0 {
        '0'
    } else if d == 1 {
        '1'
    } else if d == 2 {
        '2'
    } else if d == 3 {
        '3'
    } else if d == 4 {
        '4'
    } else if d == 5 {
        '5'
    } else if d == 6 {
        '6'
    } else if d == 7 {
        '7'
    } else if d == 8 {
        '8'
    } else {
        '9'
    }
}

/// The hexadecimal digit `d` as a lower-case character.
fn hex_digit_char(d: u32) -> (c: char)
    requires
        d < 16,
    ensures
        c == spec_hex_digit(d as int),
{
    if d < 10 {
        digit_char(d as u64)
    } else if d == 10 {
        'a'
    } else if d == 11 {
        'b'
    } else if d == 12 {
        'c'
    } else if d == 13 {
        'd'
    } else if d == 14 {
        'e'
    } else {
        'f'
    }
}

/// Renders a non-negative integer in decimal.
pub fn render_u64(n: u64) -> (s: String)
    ensures
        s@ == spec_dec_text(n as int),
    decreases n,
{
    if n <= 9 {
        let mut s = String::new();
        push_char(&mut s, digit_char(n));
        assert(s@ =~= seq![spec_digit(n as int)]);
        s
    } else {
        let mut s = render_u64(n / 10);
        push_char(&mut s, digit_char(n % 10));
        s
    }
}

/// Renders a signed integer in decimal.
pub fn render_i64(n: i64) -> (s: String)
    ensures
        s@ == spec_int_text(n as int),
{
    if n < 0 {
        let magnitude: u64 = (-(n as i128)) as u64;
        assert(magnitude == -(n as int));
        let mut s = String::from_str("-");
        s.append(render_u64(magnitude).as_str());
        assert(s@ =~= seq!['-'] + spec_dec_text(-(n as int))) by {
            reveal_strlit("-");
        }
        s
    } else {
        render_u64(n as u64)
    }
}

/// Appends the escaped form of one character.
fn escape_into(out: &mut String, c: char)
    ensures
        final(out)@ == old(out)@ + spec_escape_char(c),
{
    let code = c as u32;
    if c == '"' {
        out.append("\\\"");
        assert(final(out)@ =~= old(out)@ + spec_escape_char(c)) by {
            reveal_strlit("\\\"");
        }
    } else if c == '\\' {
        out.append("\\\\");
        assert(final(out)@ =~= old(out)@ + spec_escape_char(c)) by {
            reveal_strlit("\\\\");
        }
    } else if c == '\n' {
        out.append("\\n");
        assert(final(out)@ =~= old(out)@ + spec_escape_char(c)) by {
            reveal_strlit("\\n");
        }
    } else if c == '\r' {
        out.append("\\r");
        assert(final(out)@ =~= old(out)@ + spec_escape_char(c)) by {
            reveal_strlit("\\r");
        }
    } else if c == '\t' {
        out.append("\\t");
        assert(final(out)@ =~= old(out)@ + spec_escape_char(c)) by {
            reveal_strlit("\\t");
        }
    } else if c == '\u{0008}' {
        out.append("\\b");
        assert(final(out)@ =~= old(out)@ + spec_escape_char(c)) by {
            reveal_strlit("\\b");
        }
    } else if c == '\u{000C}' {
        out.append("\\f");
        assert(final(out)@ =~= old(out)@ + spec_escape_char(c)) by {
            reveal_strlit("\\f");
        }
    } else if code < 0x20 {
        out.append("\\u00");
        push_char(out, hex_digit_char(code / 16));
        push_char(out, hex_digit_char(code % 16));
        assert(final(out)@ =~= old(out)@ + spec_escape_char(c)) by {
            reveal_strlit("\\u00");
        }
    } else {
        push_char(out, c);
        assert(final(out)@ =~= old(out)@ + spec_escape_char(c));
    }
}

/// Appends a string literal: opening quote, escaped characters, closing
/// quote.
fn render_string_into(out: &mut String, s: &str)
    ensures
        final(out)@ == old(out)@ + seq!['"'] + spec_escape_string(s@) + seq!['"'],
{
    push_char(out, '"');
    let n = s.unicode_len();
    let mut i: usize = 0;
    while i < n
        invariant
            n == s@.len(),
            i <= n,
            out@ == old(out)@ + seq!['"'] + spec_escape_string(s@.take(i as int)),
        decreases n - i,
    {
        let c = s.get_char(i);
        escape_into(out, c);
        proof {
            assert(s@.take(i as int + 1).drop_last() =~= s@.take(i as int));
            assert(s@.take(i as int + 1).last() == s@[i as int]);
        }
        i += 1;
    }
    assert(s@.take(n as int) =~= s@);
    push_char(out, '"');
    assert(final(out)@ =~= old(out)@ + seq!['"'] + spec_escape_string(s@) + seq!['"']);
}

/// Renders a value as its canonical text.
pub fn render_json(v: &Json) -> (s: String)
    ensures
        s@ == spec_json_text(v@),
    decreases v,
{
    match v {
        Json::Null => String::from_str("null"),
        Json::Bool(b) => {
            if *b {
                String::from_str("true")
            } else {
                String::from_str("false")
            }
        },
        Json::Int(n) => render_i64(*n),
        Json::Str(s) => {
            let mut out = String::new();
            render_string_into(&mut out, s.as_str());
            assert(out@ =~= seq!['"'] + spec_escape_string(s@) + seq!['"']);
            out
        },
        Json::Arr(items) => {
            let ghost vitems = arr_view(items@);
            proof {
                lemma_arr_view(items@);
            }
            let mut out = String::from_str("[");
            proof {
                reveal_strlit("[");
                assert(out@ =~= seq!['['] + spec_arr_text(vitems.take(0)));
            }
            let mut i: usize = 0;
            while i < items.len()
                invariant
                    *v == Json::Arr(*items),
                    vitems == arr_view(items@),
                    vitems.len() == items@.len(),
                    forall|k: int|
                        0 <= k < items@.len() ==> vitems[k] == json_view(#[trigger] items@[k]),
                    i <= items.len(),
                    out@ == seq!['['] + spec_arr_text(vitems.take(i as int)),
                decreases items.len() - i,
            {
                if i > 0 {
                    push_char(&mut out, ',');
                }
                proof {
                    assert(v->Arr_0 == *items);
                    assert(decreases_to!(*v => v->Arr_0));
                    assert(decreases_to!(*items => items@[i as int]));
                }
                let piece = render_json(&items[i]);
                out.append(piece.as_str());
                proof {
                    assert(vitems.take(i as int + 1).drop_last() =~= vitems.take(i as int));
                    assert(vitems.take(i as int + 1).last() == vitems[i as int]);
                    assert(out@ =~= seq!['['] + spec_arr_text(vitems.take(i as int + 1)));
                }
                i += 1;
            }
            assert(vitems.take(items.len() as int) =~= vitems);
            push_char(&mut out, ']');
            assert(out@ =~= seq!['['] + spec_arr_text(vitems) + seq![']']);
            out
        },
        Json::Obj(members) => {
            let ghost vmembers = obj_view(members@);
            proof {
                lemma_obj_view(members@);
            }
            let mut out = String::from_str("{");
            proof {
                reveal_strlit("{");
                assert(out@ =~= seq!['{'] + spec_members_text(vmembers.take(0)));
            }
            let mut i: usize = 0;
            while i < members.len()
                invariant
                    *v == Json::Obj(*members),
                    vmembers == obj_view(members@),
                    vmembers.len() == members@.len(),
                    forall|k: int|
                        0 <= k < members@.len() ==> vmembers[k] == (
                            (#[trigger] members@[k]).key@,
                            json_view(members@[k].value),
                        ),
                    i <= members.len(),
                    out@ == seq!['{'] + spec_members_text(vmembers.take(i as int)),
                decreases members.len() - i,
            {
                if i > 0 {
                    push_char(&mut out, ',');
                }
                render_string_into(&mut out, members[i].key.as_str());
                push_char(&mut out, ':');
                proof {
                    assert(v->Obj_0 == *members);
                    assert(decreases_to!(*v => v->Obj_0));
                    assert(decreases_to!(*members => members@[i as int]));
                    assert(decreases_to!(members@[i as int] => members@[i as int].value));
                }
                let piece = render_json(&members[i].value);
                out.append(piece.as_str());
                proof {
                    let m = vmembers[i as int];
                    assert(vmembers.take(i as int + 1).drop_last() =~= vmembers.take(i as int));
                    assert(vmembers.take(i as int + 1).last() == m);
                    assert(m == (members@[i as int].key@, json_view(members@[i as int].value)));
                    assert(spec_member_text(m) == seq!['"'] + spec_escape_string(m.0) + seq![
                        '"',
                        ':',
                    ] + spec_json_text(m.1));
                    if i == 0 {
                        assert(spec_members_text(vmembers.take(1)) == spec_member_text(m));
                    } else {
                        assert(spec_members_text(vmembers.take(i as int + 1))
                            == spec_members_text(vmembers.take(i as int)) + seq![',']
                            + spec_member_text(m));
                    }
                    assert(out@ =~= seq!['{'] + spec_members_text(vmembers.take(i as int + 1)));
                }
                i += 1;
            }
            assert(vmembers.take(members.len() as int) =~= vmembers);
            push_char(&mut out, '}');
            assert(out@ =~= seq!['{'] + spec_members_text(vmembers) + seq!['}']);
            out
        },
    }
}

// ------------------------------------------------------------------
// Parsing
// ------------------------------------------------------------------
/// JSON whitespace.
pub open spec fn is_ws(c: char) -> bool {
    c == ' ' || c == '\t' || c == '\n' || c == '\r'
}

/// A decimal digit.
pub open spec fn is_digit(c: char) -> bool {
    48 <= (c as u32) <= 57
}

/// The value of a decimal digit.
pub open spec fn spec_digit_val(c: char) -> int {
    (c as u32) - 48
}

/// A lower- or upper-case hexadecimal digit.
pub open spec fn is_hex(c: char) -> bool {
    is_digit(c) || (97 <= (c as u32) <= 102) || (65 <= (c as u32) <= 70)
}

/// The value of a hexadecimal digit.
pub open spec fn spec_hex_val(c: char) -> int {
    if is_digit(c) {
        (c as u32) - 48
    } else if 97 <= (c as u32) {
        (c as u32) - 87
    } else {
        (c as u32) - 55
    }
}

/// The character a short escape stands for, or `None` where the character
/// after the backslash is not a legal escape.
pub open spec fn spec_escape_code(e: char) -> Option<char> {
    if e == '"' {
        Some('"')
    } else if e == '\\' {
        Some('\\')
    } else if e == '/' {
        Some('/')
    } else if e == 'n' {
        Some('\n')
    } else if e == 'r' {
        Some('\r')
    } else if e == 't' {
        Some('\t')
    } else if e == 'b' {
        Some('\u{0008}')
    } else if e == 'f' {
        Some('\u{000C}')
    } else {
        None
    }
}

/// The character with code `x`, for codes below 256.
pub open spec fn spec_char_from_code(x: int) -> char {
    (x as u8) as char
}

/// The first position at or after `i` that does not hold whitespace.
pub open spec fn spec_skip_ws(s: Seq<char>, i: int) -> int
    decreases s.len() - i,
{
    if 0 <= i < s.len() && is_ws(s[i]) {
        spec_skip_ws(s, i + 1)
    } else {
        i
    }
}

/// Reads string content from just after the opening quote at `i - 1`,
/// extending `acc`; yields the content and the position after the closing
/// quote. Control characters must be escaped; `\uXXXX` escapes are accepted
/// for codes below 256 (the renderer never emits larger ones).
pub open spec fn spec_parse_string(s: Seq<char>, i: int, acc: Seq<char>) -> Option<(Seq<char>, int)>
    decreases s.len() - i,
{
    if i < 0 || i >= s.len() {
        None
    } else if s[i] == '"' {
        Some((acc, i + 1))
    } else if s[i] == '\\' {
        if i + 1 >= s.len() {
            None
        } else if s[i + 1] == 'u' {
            if i + 6 > s.len() {
                None
            } else if s[i + 2] == '0' && s[i + 3] == '0' && is_hex(s[i + 4]) && is_hex(s[i + 5]) {
                spec_parse_string(
                    s,
                    i + 6,
                    acc.push(spec_char_from_code(spec_hex_val(s[i + 4]) * 16 + spec_hex_val(s[i + 5]))),
                )
            } else {
                None
            }
        } else {
            match spec_escape_code(s[i + 1]) {
                Some(c) => spec_parse_string(s, i + 2, acc.push(c)),
                None => None,
            }
        }
    } else if (s[i] as u32) < 0x20 {
        None
    } else {
        spec_parse_string(s, i + 1, acc.push(s[i]))
    }
}

/// Accumulates decimal digits from `i` into `acc`, refusing values above
/// `limit`; yields the value and the first position past the digits.
pub open spec fn spec_parse_digits(s: Seq<char>, i: int, acc: u64, limit: u64) -> Option<
    (u64, int),
>
    decreases s.len() - i,
{
    if 0 <= i < s.len() && is_digit(s[i]) {
        let d = spec_digit_val(s[i]);
        if acc > (limit - d) / 10 {
            None
        } else {
            spec_parse_digits(s, i + 1, (acc * 10 + d) as u64, limit)
        }
    } else {
        Some((acc, i))
    }
}

/// The largest magnitude a number may take: one more for a negative number.
pub open spec fn spec_magnitude_limit(negative: bool) -> u64 {
    if negative {
        9223372036854775808u64
    } else {
        9223372036854775807u64
    }
}

/// Reads a JSON integer at `i`: an optional minus, then digits with no
/// leading zero, within the signed 64-bit range. Yields the value and the
/// first position past the digits.
pub open spec fn spec_parse_number(s: Seq<char>, i: int) -> Option<(i64, int)> {
    if i < 0 || i >= s.len() {
        None
    } else {
        let negative = s[i] == '-';
        let j = if negative {
            i + 1
        } else {
            i
        };
        if j >= s.len() || !is_digit(s[j]) {
            None
        } else if s[j] == '0' {
            if j + 1 < s.len() && is_digit(s[j + 1]) {
                None
            } else {
                Some((0i64, j + 1))
            }
        } else {
            match spec_parse_digits(s, j, 0u64, spec_magnitude_limit(negative)) {
                Some((magnitude, k)) => Some(
                    (
                        if negative {
                            (-(magnitude as int)) as i64
                        } else {
                            magnitude as i64
                        },
                        k,
                    ),
                ),
                None => None,
            }
        }
    }
}

/// Reads one value at `i` (no leading whitespace). `fuel` bounds the
/// nesting depth; the top level passes the text's length, which no document
/// can nest deeper than.
pub open spec fn spec_parse_value(s: Seq<char>, i: int, fuel: nat) -> Option<(JsonView, int)>
    decreases fuel, s.len() - i, 0int,
{
    if i < 0 || i >= s.len() {
        None
    } else if s[i] == 'n' {
        if i + 4 <= s.len() && s[i + 1] == 'u' && s[i + 2] == 'l' && s[i + 3] == 'l' {
            Some((JsonView::Null, i + 4))
        } else {
            None
        }
    } else if s[i] == 't' {
        if i + 4 <= s.len() && s[i + 1] == 'r' && s[i + 2] == 'u' && s[i + 3] == 'e' {
            Some((JsonView::Bool(true), i + 4))
        } else {
            None
        }
    } else if s[i] == 'f' {
        if i + 5 <= s.len() && s[i + 1] == 'a' && s[i + 2] == 'l' && s[i + 3] == 's' && s[i + 4]
            == 'e' {
            Some((JsonView::Bool(false), i + 5))
        } else {
            None
        }
    } else if s[i] == '"' {
        match spec_parse_string(s, i + 1, Seq::empty()) {
            Some((content, j)) => Some((JsonView::Str(content), j)),
            None => None,
        }
    } else if s[i] == '-' || is_digit(s[i]) {
        match spec_parse_number(s, i) {
            Some((value, j)) => Some((JsonView::Int(value), j)),
            None => None,
        }
    } else if s[i] == '[' {
        if fuel == 0 {
            None
        } else {
            let j = spec_skip_ws(s, i + 1);
            if 0 <= j < s.len() && s[j] == ']' {
                Some((JsonView::Arr(Seq::empty()), j + 1))
            } else if j < i + 1 {
                None
            } else {
                match spec_parse_items(s, j, (fuel - 1) as nat) {
                    Some((items, k)) => Some((JsonView::Arr(items), k)),
                    None => None,
                }
            }
        }
    } else if s[i] == '{' {
        if fuel == 0 {
            None
        } else {
            let j = spec_skip_ws(s, i + 1);
            if 0 <= j < s.len() && s[j] == '}' {
                Some((JsonView::Obj(Seq::empty()), j + 1))
            } else if j < i + 1 {
                None
            } else {
                match spec_parse_members(s, j, (fuel - 1) as nat) {
                    Some((members, k)) => Some((JsonView::Obj(members), k)),
                    None => None,
                }
            }
        }
    } else {
        None
    }
}

/// Reads the non-empty item list of an array from `i` up to and including
/// the closing bracket.
pub open spec fn spec_parse_items(s: Seq<char>, i: int, fuel: nat) -> Option<(Seq<JsonView>, int)>
    decreases fuel, s.len() - i, 1int,
{
    match spec_parse_value(s, i, fuel) {
        Some((value, j)) => {
            let k = spec_skip_ws(s, j);
            if k < s.len() && s[k] == ']' {
                Some((seq![value], k + 1))
            } else if k < s.len() && s[k] == ',' {
                let m = spec_skip_ws(s, k + 1);
                if m <= i || m > s.len() {
                    None
                } else {
                    match spec_parse_items(s, m, fuel) {
                        Some((rest, end)) => Some((seq![value] + rest, end)),
                        None => None,
                    }
                }
            } else {
                None
            }
        },
        None => None,
    }
}

/// Reads the non-empty member list of an object from `i` up to and
/// including the closing brace.
pub open spec fn spec_parse_members(s: Seq<char>, i: int, fuel: nat) -> Option<
    (Seq<(Seq<char>, JsonView)>, int),
>
    decreases fuel, s.len() - i, 1int,
{
    if i < 0 || i >= s.len() || s[i] != '"' {
        None
    } else {
        match spec_parse_string(s, i + 1, Seq::empty()) {
            Some((key, j)) => {
                let j2 = spec_skip_ws(s, j);
                if !(j2 < s.len() && s[j2] == ':') {
                    None
                } else {
                    let j3 = spec_skip_ws(s, j2 + 1);
                    if j3 <= i || j3 > s.len() {
                        None
                    } else {
                        match spec_parse_value(s, j3, fuel) {
                            Some((value, j4)) => {
                                let k = spec_skip_ws(s, j4);
                                if k < s.len() && s[k] == '}' {
                                    Some((seq![(key, value)], k + 1))
                                } else if k < s.len() && s[k] == ',' {
                                    let m = spec_skip_ws(s, k + 1);
                                    if m <= i || m > s.len() {
                                        None
                                    } else {
                                        match spec_parse_members(s, m, fuel) {
                                            Some((rest, end)) => Some((seq![(key, value)] + rest, end)),
                                            None => None,
                                        }
                                    }
                                } else {
                                    None
                                }
                            },
                            None => None,
                        }
                    }
                }
            },
            None => None,
        }
    }
}

/// What a complete text denotes: one value, possibly surrounded by
/// whitespace, and nothing else. `None` is a parse failure.
pub open spec fn spec_parse_json(s: Seq<char>) -> Option<JsonView> {
    match spec_parse_value(s, spec_skip_ws(s, 0), s.len() as nat) {
        Some((value, j)) => if spec_skip_ws(s, j) == s.len() {
            Some(value)
        } else {
            None
        },
        None => None,
    }
}

/// JSON whitespace.
fn is_ws_char(c: char) -> (r: bool)
    ensures
        r == is_ws(c),
{
    c == ' ' || c == '\t' || c == '\n' || c == '\r'
}

/// A decimal digit.
fn is_digit_char(c: char) -> (r: bool)
    ensures
        r == is_digit(c),
{
    let u = c as u32;
    48 <= u && u <= 57
}

/// A hexadecimal digit.
fn is_hex_char(c: char) -> (r: bool)
    ensures
        r == is_hex(c),
{
    let u = c as u32;
    (48 <= u && u <= 57) || (97 <= u && u <= 102) || (65 <= u && u <= 70)
}

/// The value of a decimal digit.
fn digit_val(c: char) -> (v: u64)
    requires
        is_digit(c),
    ensures
        v as int == spec_digit_val(c),
        v < 10,
{
    ((c as u32) - 48) as u64
}

/// The value of a hexadecimal digit.
fn hex_val(c: char) -> (v: u32)
    requires
        is_hex(c),
    ensures
        v as int == spec_hex_val(c),
        v < 16,
{
    let u = c as u32;
    if 48 <= u && u <= 57 {
        u - 48
    } else if 97 <= u {
        u - 87
    } else {
        u - 55
    }
}

/// The character a short escape stands for.
fn escape_code_char(e: char) -> (r: Option<char>)
    ensures
        r == spec_escape_code(e),
{
    if e == '"' {
        Some('"')
    } else if e == '\\' {
        Some('\\')
    } else if e == '/' {
        Some('/')
    } else if e == 'n' {
        Some('\n')
    } else if e == 'r' {
        Some('\r')
    } else if e == 't' {
        Some('\t')
    } else if e == 'b' {
        Some('\u{0008}')
    } else if e == 'f' {
        Some('\u{000C}')
    } else {
        None
    }
}

/// Advances past whitespace.
fn skip_ws(s: &str, start: usize, n: usize) -> (r: usize)
    requires
        n == s@.len(),
        start <= n,
    ensures
        r as int == spec_skip_ws(s@, start as int),
        start <= r <= n,
{
    let mut i = start;
    while i < n && is_ws_char(s.get_char(i))
        invariant
            n == s@.len(),
            start <= i <= n,
            spec_skip_ws(s@, start as int) == spec_skip_ws(s@, i as int),
        decreases n - i,
    {
        i = i + 1;
    }
    i
}

/// Reads string content from just after the opening quote.
fn parse_string_content(s: &str, start: usize, n: usize) -> (r: Option<(String, usize)>)
    requires
        n == s@.len(),
        start <= n,
    ensures
        (match r {
            Some(p) => Some((p.0@, p.1 as int)),
            None => None,
        }) == spec_parse_string(s@, start as int, Seq::empty()),
        r matches Some(p) ==> start < p.1 <= n,
{
    let mut acc = String::new();
    let mut i: usize = start;
    while i < n
        invariant
            n == s@.len(),
            start <= i <= n,
            spec_parse_string(s@, start as int, Seq::empty()) == spec_parse_string(
                s@,
                i as int,
                acc@,
            ),
        decreases n - i,
    {
        let c = s.get_char(i);
        if c == '"' {
            return Some((acc, i + 1));
        } else if c == '\\' {
            if i + 1 >= n {
                return None;
            }
            let e = s.get_char(i + 1);
            if e == 'u' {
                if n - i < 6 {
                    return None;
                }
                let h1 = s.get_char(i + 2);
                let h2 = s.get_char(i + 3);
                let h3 = s.get_char(i + 4);
                let h4 = s.get_char(i + 5);
                if h1 == '0' && h2 == '0' && is_hex_char(h3) && is_hex_char(h4) {
                    let code: u32 = hex_val(h3) * 16 + hex_val(h4);
                    push_char(&mut acc, (code as u8) as char);
                    assert(acc@.last() == spec_char_from_code(
                        spec_hex_val(s@[i as int + 4]) * 16 + spec_hex_val(s@[i as int + 5]),
                    ));
                    i = i + 6;
                } else {
                    return None;
                }
            } else {
                match escape_code_char(e) {
                    Some(c2) => {
                        push_char(&mut acc, c2);
                        i = i + 2;
                    },
                    None => {
                        return None;
                    },
                }
            }
        } else if (c as u32) < 0x20 {
            return None;
        } else {
            push_char(&mut acc, c);
            i = i + 1;
        }
    }
    None
}

/// Reads a JSON integer at `start`.
fn parse_number_at(s: &str, start: usize, n: usize) -> (r: Option<(i64, usize)>)
    requires
        n == s@.len(),
        start <= n,
    ensures
        (match r {
            Some(p) => Some((p.0, p.1 as int)),
            None => None,
        }) == spec_parse_number(s@, start as int),
        r matches Some(p) ==> start < p.1 <= n,
{
    if start >= n {
        return None;
    }
    let negative = s.get_char(start) == '-';
    let j = if negative {
        start + 1
    } else {
        start
    };
    if j >= n {
        return None;
    }
    let c0 = s.get_char(j);
    if !is_digit_char(c0) {
        return None;
    }
    if c0 == '0' {
        if j + 1 < n && is_digit_char(s.get_char(j + 1)) {
            return None;
        }
        return Some((0i64, j + 1));
    }
    let limit: u64 = if negative {
        9223372036854775808u64
    } else {
        9223372036854775807u64
    };
    assert(limit == spec_magnitude_limit(negative));
    let mut acc: u64 = digit_val(c0);
    let mut i = j + 1;
    proof {
        assert(spec_parse_digits(s@, j as int, 0u64, limit) == spec_parse_digits(
            s@,
            i as int,
            acc,
            limit,
        ));
    }
    while i < n && is_digit_char(s.get_char(i))
        invariant
            n == s@.len(),
            start < n,
            negative == (s@[start as int] == '-'),
            j as int == if negative {
                start as int + 1
            } else {
                start as int
            },
            j < n,
            is_digit(s@[j as int]),
            s@[j as int] != '0',
            j < i <= n,
            acc <= limit,
            limit == spec_magnitude_limit(negative),
            spec_parse_digits(s@, j as int, 0u64, limit) == spec_parse_digits(
                s@,
                i as int,
                acc,
                limit,
            ),
        decreases n - i,
    {
        let c = s.get_char(i);
        let d = digit_val(c);
        if acc > (limit - d) / 10 {
            proof {
                assert(is_digit(s@[i as int]));
                assert(spec_parse_digits(s@, i as int, acc, limit) is None);
                assert(spec_parse_digits(s@, j as int, 0u64, limit) is None);
                assert(spec_parse_number(s@, start as int) is None);
            }
            return None;
        }
        assert(acc * 10 + d <= limit) by {
            let q = (limit - d) / 10;
            assert(q * 10 <= limit - d) by (nonlinear_arith)
                requires
                    q == (limit - d) / 10,
                    d <= limit,
            ;
            assert(acc * 10 <= q * 10) by (nonlinear_arith)
                requires
                    acc <= q,
            ;
        }
        acc = acc * 10 + d;
        i = i + 1;
    }
    if negative {
        let value: i64 = (-(acc as i128)) as i64;
        assert(value as int == -(acc as int));
        Some((value, i))
    } else {
        Some((acc as i64, i))
    }
}

/// Reads one value at `i` (no leading whitespace); `fuel` bounds nesting.
fn parse_value_at(s: &str, i: usize, n: usize, fuel: usize) -> (r: Option<(Json, usize)>)
    requires
        n == s@.len(),
        i <= n,
    ensures
        (match r {
            Some(p) => Some((p.0@, p.1 as int)),
            None => None,
        }) == spec_parse_value(s@, i as int, fuel as nat),
        r matches Some(p) ==> i < p.1 <= n,
    decreases fuel, n - i, 0int,
{
    if i >= n {
        return None;
    }
    let c = s.get_char(i);
    if c == 'n' {
        if n - i >= 4 && s.get_char(i + 1) == 'u' && s.get_char(i + 2) == 'l' && s.get_char(i + 3)
            == 'l' {
            Some((Json::Null, i + 4))
        } else {
            None
        }
    } else if c == 't' {
        if n - i >= 4 && s.get_char(i + 1) == 'r' && s.get_char(i + 2) == 'u' && s.get_char(i + 3)
            == 'e' {
            Some((Json::Bool(true), i + 4))
        } else {
            None
        }
    } else if c == 'f' {
        if n - i >= 5 && s.get_char(i + 1) == 'a' && s.get_char(i + 2) == 'l' && s.get_char(i + 3)
            == 's' && s.get_char(i + 4) == 'e' {
            Some((Json::Bool(false), i + 5))
        } else {
            None
        }
    } else if c == '"' {
        match parse_string_content(s, i + 1, n) {
            Some(p) => Some((Json::Str(p.0), p.1)),
            None => None,
        }
    } else if c == '-' || is_digit_char(c) {
        match parse_number_at(s, i, n) {
            Some(p) => Some((Json::Int(p.0), p.1)),
            None => None,
        }
    } else if c == '[' {
        if fuel == 0 {
            return None;
        }
        let j = skip_ws(s, i + 1, n);
        if j < n && s.get_char(j) == ']' {
            let items: Vec<Json> = Vec::new();
            assert(arr_view(items@) =~= Seq::<JsonView>::empty());
            Some((Json::Arr(items), j + 1))
        } else {
            match parse_items_at(s, j, n, fuel - 1) {
                Some(p) => Some((Json::Arr(p.0), p.1)),
                None => None,
            }
        }
    } else if c == '{' {
        if fuel == 0 {
            return None;
        }
        let j = skip_ws(s, i + 1, n);
        if j < n && s.get_char(j) == '}' {
            let members: Vec<JsonMember> = Vec::new();
            assert(obj_view(members@) =~= Seq::<(Seq<char>, JsonView)>::empty());
            Some((Json::Obj(members), j + 1))
        } else {
            match parse_members_at(s, j, n, fuel - 1) {
                Some(p) => Some((Json::Obj(p.0), p.1)),
                None => None,
            }
        }
    } else {
        None
    }
}

/// Reads the non-empty item list of an array, closing bracket included.
fn parse_items_at(s: &str, i: usize, n: usize, fuel: usize) -> (r: Option<(Vec<Json>, usize)>)
    requires
        n == s@.len(),
        i <= n,
    ensures
        (match r {
            Some(p) => Some((arr_view(p.0@), p.1 as int)),
            None => None,
        }) == spec_parse_items(s@, i as int, fuel as nat),
        r matches Some(p) ==> i < p.1 <= n,
    decreases fuel, n - i, 1int,
{
    match parse_value_at(s, i, n, fuel) {
        None => None,
        Some(pv) => {
            let (value, j) = pv;
            let k = skip_ws(s, j, n);
            if k < n && s.get_char(k) == ']' {
                let mut items: Vec<Json> = Vec::new();
                items.push(value);
                proof {
                    lemma_arr_view(items@);
                    assert(arr_view(items@) =~= seq![value@]);
                }
                Some((items, k + 1))
            } else if k < n && s.get_char(k) == ',' {
                let m = skip_ws(s, k + 1, n);
                match parse_items_at(s, m, n, fuel) {
                    None => None,
                    Some(pr) => {
                        let (rest, end) = pr;
                        let ghost rest_snap = rest@;
                        let mut items: Vec<Json> = Vec::new();
                        items.push(value);
                        let mut tail = rest;
                        items.append(&mut tail);
                        proof {
                            lemma_arr_view(items@);
                            lemma_arr_view(rest_snap);
                            assert forall|idx: int| 0 <= idx < items@.len() implies arr_view(
                                items@,
                            )[idx] == (seq![value@] + arr_view(rest_snap))[idx] by {
                                if idx == 0 {
                                    assert(items@[0] == value);
                                } else {
                                    assert(items@[idx] == rest_snap[idx - 1]);
                                }
                            }
                            assert(arr_view(items@) =~= seq![value@] + arr_view(rest_snap));
                        }
                        Some((items, end))
                    },
                }
            } else {
                None
            }
        },
    }
}

/// Reads the non-empty member list of an object, closing brace included.
fn parse_members_at(s: &str, i: usize, n: usize, fuel: usize) -> (r: Option<
    (Vec<JsonMember>, usize),
>)
    requires
        n == s@.len(),
        i <= n,
    ensures
        (match r {
            Some(p) => Some((obj_view(p.0@), p.1 as int)),
            None => None,
        }) == spec_parse_members(s@, i as int, fuel as nat),
        r matches Some(p) ==> i < p.1 <= n,
    decreases fuel, n - i, 1int,
{
    if i >= n {
        return None;
    }
    if s.get_char(i) != '"' {
        return None;
    }
    match parse_string_content(s, i + 1, n) {
        None => None,
        Some(pk) => {
            let (key, j) = pk;
            let j2 = skip_ws(s, j, n);
            if !(j2 < n && s.get_char(j2) == ':') {
                return None;
            }
            let j3 = skip_ws(s, j2 + 1, n);
            match parse_value_at(s, j3, n, fuel) {
                None => None,
                Some(pv) => {
                    let (value, j4) = pv;
                    let k = skip_ws(s, j4, n);
                    if k < n && s.get_char(k) == '}' {
                        let mut members: Vec<JsonMember> = Vec::new();
                        members.push(JsonMember { key, value });
                        proof {
                            lemma_obj_view(members@);
                            assert(obj_view(members@) =~= seq![
                                (members@[0].key@, members@[0].value@),
                            ]);
                        }
                        Some((members, k + 1))
                    } else if k < n && s.get_char(k) == ',' {
                        let m = skip_ws(s, k + 1, n);
                        match parse_members_at(s, m, n, fuel) {
                            None => None,
                            Some(pr) => {
                                let (rest, end) = pr;
                                let ghost rest_snap = rest@;
                                let mut members: Vec<JsonMember> = Vec::new();
                                members.push(JsonMember { key, value });
                                let mut tail = rest;
                                members.append(&mut tail);
                                proof {
                                    lemma_obj_view(members@);
                                    lemma_obj_view(rest_snap);
                                    assert forall|idx: int| 0 <= idx < members@.len() implies obj_view(
                                        members@,
                                    )[idx] == (seq![(members@[0].key@, members@[0].value@)]
                                        + obj_view(rest_snap))[idx] by {
                                        if idx > 0 {
                                            assert(members@[idx] == rest_snap[idx - 1]);
                                        }
                                    }
                                    assert(obj_view(members@) =~= seq![
                                        (members@[0].key@, members@[0].value@),
                                    ] + obj_view(rest_snap));
                                }
                                Some((members, end))
                            },
                        }
                    } else {
                        None
                    }
                },
            }
        },
    }
}

// ------------------------------------------------------------------
// Reading and building objects
// ------------------------------------------------------------------
/// The value a reader of `members` observes for `key`: the last member
/// with that key wins.
pub open spec fn spec_obj_get(members: Seq<(Seq<char>, JsonView)>, key: Seq<char>) -> Option<
    JsonView,
>
    decreases members.len(),
{
    if members.len() == 0 {
        None
    } else if members.last().0 == key {
        Some(members.last().1)
    } else {
        spec_obj_get(members.drop_last(), key)
    }
}

/// Looks a member up by key; the last member with that key wins.
pub fn obj_get<'a>(members: &'a Vec<JsonMember>, key: &str) -> (r: Option<&'a Json>)
    ensures
        (match r {
            Some(j) => Some(j@),
            None => None,
        }) == spec_obj_get(obj_view(members@), key@),
{
    let ghost vm = obj_view(members@);
    proof {
        lemma_obj_view(members@);
    }
    let mut i: usize = members.len();
    assert(vm.take(i as int) =~= vm);
    while i > 0
        invariant
            vm == obj_view(members@),
            vm.len() == members@.len(),
            forall|k: int|
                0 <= k < members@.len() ==> vm[k] == (
                    (#[trigger] members@[k]).key@,
                    json_view(members@[k].value),
                ),
            i <= members.len(),
            spec_obj_get(vm, key@) == spec_obj_get(vm.take(i as int), key@),
        decreases i,
    {
        i = i - 1;
        proof {
            assert(vm.take(i as int + 1).last() == vm[i as int]);
            assert(vm.take(i as int + 1).drop_last() =~= vm.take(i as int));
        }
        if str_eq(members[i].key.as_str(), key) {
            return Some(&members[i].value);
        }
    }
    assert(vm.take(0) =~= Seq::<(Seq<char>, JsonView)>::empty());
    None
}

/// Reads an optional string member: an absent or null member is "not
/// present"; any other non-string value is a shape error.
pub open spec fn spec_opt_str_field(
    members: Seq<(Seq<char>, JsonView)>,
    key: Seq<char>,
) -> Option<Option<Seq<char>>> {
    match spec_obj_get(members, key) {
        None => Some(None),
        Some(JsonView::Null) => Some(None),
        Some(JsonView::Str(s)) => Some(Some(s)),
        Some(_) => None,
    }
}

/// Reads an optional string member, as [`spec_opt_str_field`] says.
pub fn opt_str_field(members: &Vec<JsonMember>, key: &str) -> (r: Option<Option<String>>)
    ensures
        (match r {
            Some(Some(s)) => Some(Some(s@)),
            Some(None) => Some(None),
            None => None,
        }) == spec_opt_str_field(obj_view(members@), key@),
{
    match obj_get(members, key) {
        None => Some(None),
        Some(j) => match j {
            Json::Null => Some(None),
            Json::Str(s) => Some(Some(s.clone())),
            _ => None,
        },
    }
}

/// Reads an optional boolean member: absent or null is "not present"; any
/// other non-boolean value is a shape error.
pub open spec fn spec_opt_bool_field(
    members: Seq<(Seq<char>, JsonView)>,
    key: Seq<char>,
) -> Option<Option<bool>> {
    match spec_obj_get(members, key) {
        None => Some(None),
        Some(JsonView::Null) => Some(None),
        Some(JsonView::Bool(b)) => Some(Some(b)),
        Some(_) => None,
    }
}

/// Reads an optional boolean member, as [`spec_opt_bool_field`] says.
pub fn opt_bool_field(members: &Vec<JsonMember>, key: &str) -> (r: Option<Option<bool>>)
    ensures
        (match r {
            Some(v) => Some(v),
            None => None,
        }) == spec_opt_bool_field(obj_view(members@), key@),
{
    match obj_get(members, key) {
        None => Some(None),
        Some(j) => match j {
            Json::Null => Some(None),
            Json::Bool(b) => Some(Some(*b)),
            _ => None,
        },
    }
}

/// Reads a required string member: it must be present and a string.
pub open spec fn spec_req_str_field(
    members: Seq<(Seq<char>, JsonView)>,
    key: Seq<char>,
) -> Option<Seq<char>> {
    match spec_obj_get(members, key) {
        Some(JsonView::Str(s)) => Some(s),
        _ => None,
    }
}

/// Reads a required string member, as [`spec_req_str_field`] says.
pub fn req_str_field(members: &Vec<JsonMember>, key: &str) -> (r: Option<String>)
    ensures
        (match r {
            Some(s) => Some(s@),
            None => None,
        }) == spec_req_str_field(obj_view(members@), key@),
{
    match obj_get(members, key) {
        None => None,
        Some(j) => match j {
            Json::Str(s) => Some(s.clone()),
            _ => None,
        },
    }
}

/// The member-list contribution of an optional string field: one member
/// when the field is present, nothing when it is absent.
pub open spec fn spec_opt_str_member(key: Seq<char>, value: Option<Seq<char>>) -> Seq<
    (Seq<char>, JsonView),
> {
    match value {
        Some(s) => seq![(key, JsonView::Str(s))],
        None => Seq::empty(),
    }
}

/// Appends an optional string field's member, if any.
pub fn push_opt_str_member(members: &mut Vec<JsonMember>, key: &str, value: &Option<String>)
    ensures
        obj_view(final(members)@) == obj_view(old(members)@) + spec_opt_str_member(
            key@,
            value.deep_view(),
        ),
{
    let ghost before = members@;
    match value {
        Some(s) => {
            members.push(JsonMember { key: String::from_str(key), value: Json::Str(s.clone()) });
            proof {
                let m = members@.last();
                assert(members@.drop_last() =~= before);
                assert(obj_view(members@) == obj_view(members@.drop_last()).push(
                    (m.key@, json_view(m.value)),
                ));
                assert(m.key@ == key@);
                assert(json_view(m.value) == JsonView::Str(s@));
                assert(obj_view(members@) =~= obj_view(before) + seq![(key@, JsonView::Str(s@))]);
            }
        },
        None => {
            assert(obj_view(members@) =~= obj_view(before) + Seq::<(Seq<char>, JsonView)>::empty());
        },
    }
}

/// Appends a required string field's member.
pub fn push_str_member(members: &mut Vec<JsonMember>, key: &str, value: &String)
    ensures
        obj_view(final(members)@) == obj_view(old(members)@) + seq![(key@, JsonView::Str(value@))],
{
    let ghost before = members@;
    members.push(JsonMember { key: String::from_str(key), value: Json::Str(value.clone()) });
    proof {
        let m = members@.last();
        assert(members@.drop_last() =~= before);
        assert(obj_view(members@) == obj_view(members@.drop_last()).push(
            (m.key@, json_view(m.value)),
        ));
        assert(m.key@ == key@);
        assert(json_view(m.value) == JsonView::Str(value@));
        assert(obj_view(members@) =~= obj_view(before) + seq![(key@, JsonView::Str(value@))]);
    }
}

/// The member-list contribution of an optional boolean field.
pub open spec fn spec_opt_bool_member(key: Seq<char>, value: Option<bool>) -> Seq<
    (Seq<char>, JsonView),
> {
    match value {
        Some(b) => seq![(key, JsonView::Bool(b))],
        None => Seq::empty(),
    }
}

/// Appends an optional boolean field's member, if any.
pub fn push_opt_bool_member(members: &mut Vec<JsonMember>, key: &str, value: &Option<bool>)
    ensures
        obj_view(final(members)@) == obj_view(old(members)@) + spec_opt_bool_member(
            key@,
            *value,
        ),
{
    let ghost before = members@;
    match value {
        Some(b) => {
            members.push(JsonMember { key: String::from_str(key), value: Json::Bool(*b) });
            proof {
                let m = members@.last();
                assert(members@.drop_last() =~= before);
                assert(obj_view(members@) == obj_view(members@.drop_last()).push(
                    (m.key@, json_view(m.value)),
                ));
                assert(m.key@ == key@);
                assert(json_view(m.value) == JsonView::Bool(*b));
                assert(obj_view(members@) =~= obj_view(before) + seq![(key@, JsonView::Bool(*b))]);
            }
        },
        None => {
            assert(obj_view(members@) =~= obj_view(before) + Seq::<(Seq<char>, JsonView)>::empty());
        },
    }
}

/// Parses a complete text: one value, possibly surrounded by whitespace.
/// Returns `None` exactly where [`spec_parse_json`] does.
pub fn parse_json(s: &str) -> (r: Option<Json>)
    ensures
        (match r {
            Some(v) => Some(v@),
            None => None,
        }) == spec_parse_json(s@),
{
    let n = s.unicode_len();
    let i0 = skip_ws(s, 0, n);
    match parse_value_at(s, i0, n, n) {
        None => None,
        Some(p) => {
            let k = skip_ws(s, p.1, n);
            if k == n {
                Some(p.0)
            } else {
                None
            }
        },
    }
}

} // verus!
