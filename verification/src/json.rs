//! The structured values that log records are built from, and their
//! rendering as single-line JSON text.
//!
//! `JsonValue` is the executable type handed to the log; `JsonView` is its
//! mathematical model, and `json_of` says, character for character, what
//! text a value renders to.

use vstd::prelude::*;

verus! {

/// Mathematical model of a structured value: what a `JsonValue` denotes.
#[verifier::ext_equal]
pub enum JsonView {
    Null,
    Bool(bool),
    UInt(u64),
    Str(Seq<char>),
    Arr(Seq<JsonView>),
    Obj(Seq<(Seq<char>, JsonView)>),
}

/// A structured value: the closed set of shapes that action payloads and
/// whole records take. The log serializes one of these per record without
/// knowing which action built it.
#[verifier::ext_equal]
pub enum JsonValue {
    Null,
    Bool(bool),
    UInt(u64),
    Str(String),
    Arr(Vec<JsonValue>),
    Obj(Vec<(String, JsonValue)>),
}

pub open spec fn json_value_view(v: JsonValue) -> JsonView
    decreases v,
{
    match v {
        JsonValue::Null => JsonView::Null,
        JsonValue::Bool(b) => JsonView::Bool(b),
        JsonValue::UInt(n) => JsonView::UInt(n),
        JsonValue::Str(s) => JsonView::Str(s@),
        JsonValue::Arr(elems) => JsonView::Arr(json_value_view_list(elems@)),
        JsonValue::Obj(entries) => JsonView::Obj(json_value_view_entries(entries@)),
    }
}

pub open spec fn json_value_view_list(s: Seq<JsonValue>) -> Seq<JsonView>
    decreases s,
{
    if s.len() == 0 {
        Seq::empty()
    } else {
        seq![json_value_view(s[0])] + json_value_view_list(s.drop_first())
    }
}

pub open spec fn json_value_view_entries(s: Seq<(String, JsonValue)>) -> Seq<(Seq<char>, JsonView)>
    decreases s,
{
    if s.len() == 0 {
        Seq::empty()
    } else {
        seq![(s[0].0@, json_value_view(s[0].1))] + json_value_view_entries(s.drop_first())
    }
}

impl View for JsonValue {
    type V = JsonView;

    open spec fn view(&self) -> JsonView {
        json_value_view(*self)
    }
}

/// The digit character for `n` in `0 .. 10`.
pub open spec fn dec_digit(n: int) -> char {
    if n == 0 { '0' }
    else if n == 1 { '1' }
    else if n == 2 { '2' }
    else if n == 3 { '3' }
    else if n == 4 { '4' }
    else if n == 5 { '5' }
    else if n == 6 { '6' }
    else if n == 7 { '7' }
    else if n == 8 { '8' }
    else { '9' }
}

/// The decimal rendering of `n`, most significant digit first, no sign and
/// no leading zero (except for `n == 0` itself).
pub open spec fn dec_of(n: nat) -> Seq<char>
    decreases n,
{
    if n < 10 {
        seq![dec_digit(n as int)]
    } else {
        dec_of(n / 10) + seq![dec_digit((n % 10) as int)]
    }
}

/// The lower-case hexadecimal digit character for `n` in `0 .. 16`.
pub open spec fn hex_digit(n: int) -> char {
    if n < 10 { dec_digit(n) }
    else if n == 10 { 'a' }
    else if n == 11 { 'b' }
    else if n == 12 { 'c' }
    else if n == 13 { 'd' }
    else if n == 14 { 'e' }
    else { 'f' }
}

/// How one character of a string is written inside a JSON string literal:
/// quote and backslash get a backslash escape, the named control characters
/// get their short escapes, any other control character gets a `\u00..`
/// escape, and everything else stands as itself.
pub open spec fn escape_char(c: char) -> Seq<char> {
    if c == '"' { seq!['\\', '"'] }
    else if c == '\\' { seq!['\\', '\\'] }
    else if c == '\u{8}' { seq!['\\', 'b'] }
    else if c == '\t' { seq!['\\', 't'] }
    else if c == '\n' { seq!['\\', 'n'] }
    else if c == '\u{c}' { seq!['\\', 'f'] }
    else if c == '\r' { seq!['\\', 'r'] }
    else if (c as u32) < 32 {
        seq!['\\', 'u', '0', '0', hex_digit(c as u32 as int / 16), hex_digit(c as u32 as int % 16)]
    } else {
        seq![c]
    }
}

/// A whole string's characters, escaped one after the other.
pub open spec fn escape_text(s: Seq<char>) -> Seq<char>
    decreases s,
{
    if s.len() == 0 {
        Seq::empty()
    } else {
        escape_char(s[0]) + escape_text(s.drop_first())
    }
}

/// A JSON string literal: the escaped text between double quotes.
pub open spec fn quoted(s: Seq<char>) -> Seq<char> {
    seq!['"'] + escape_text(s) + seq!['"']
}

/// The single-line JSON text of a value, in the compact form with no
/// whitespace between tokens.
pub open spec fn json_of(v: JsonView) -> Seq<char>
    decreases v,
{
    match v {
        JsonView::Null => seq!['n', 'u', 'l', 'l'],
        JsonView::Bool(b) => if b { seq!['t', 'r', 'u', 'e'] } else { seq!['f', 'a', 'l', 's', 'e'] },
        JsonView::UInt(n) => dec_of(n as nat),
        JsonView::Str(s) => quoted(s),
        JsonView::Arr(elems) => seq!['['] + json_of_list(elems) + seq![']'],
        JsonView::Obj(entries) => seq!['{'] + json_of_entries(entries) + seq!['}'],
    }
}

/// Array elements rendered in order, separated by commas.
pub open spec fn json_of_list(elems: Seq<JsonView>) -> Seq<char>
    decreases elems,
{
    if elems.len() == 0 {
        Seq::empty()
    } else if elems.len() == 1 {
        json_of(elems[0])
    } else {
        json_of(elems[0]) + seq![','] + json_of_list(elems.drop_first())
    }
}

/// Object members rendered in order as `"key":value`, separated by commas.
pub open spec fn json_of_entries(entries: Seq<(Seq<char>, JsonView)>) -> Seq<char>
    decreases entries,
{
    if entries.len() == 0 {
        Seq::empty()
    } else if entries.len() == 1 {
        quoted(entries[0].0) + seq![':'] + json_of(entries[0].1)
    } else {
        quoted(entries[0].0) + seq![':'] + json_of(entries[0].1) + seq![',']
            + json_of_entries(entries.drop_first())
    }
}

/// Relies on `String::push`: appends exactly the given character.
#[verifier::external_body]
pub(crate) fn push_char(out: &mut String, c: char)
    ensures
        final(out)@ == old(out)@ + seq![c],
{
    out.push(c);
}

/// The executable counterpart of `dec_digit`.
fn dec_digit_char(n: u8) -> (c: char)
    requires
        n < 10,
    ensures
        c == dec_digit(n as int),
{
    match n {
        0 => '0',
        1 => '1',
        2 => '2',
        3 => '3',
        4 => '4',
        5 => '5',
        6 => '6',
        7 => '7',
        8 => '8',
        _ => '9',
    }
}

/// The executable counterpart of `hex_digit`.
fn hex_digit_char(n: u8) -> (c: char)
    requires
        n < 16,
    ensures
        c == hex_digit(n as int),
{
    if n < 10 {
        dec_digit_char(n)
    } else {
        match n {
            10 => 'a',
            11 => 'b',
            12 => 'c',
            13 => 'd',
            14 => 'e',
            _ => 'f',
        }
    }
}

/// Appends the decimal rendering of `n`.
fn push_decimal(n: u64, out: &mut String)
    ensures
        final(out)@ == old(out)@ + dec_of(n as nat),
    decreases n,
{
    if n < 10 {
        push_char(out, dec_digit_char(n as u8));
    } else {
        push_decimal(n / 10, out);
        push_char(out, dec_digit_char((n % 10) as u8));
    }
}

/// Appends the escape of one string character.
fn push_escaped_char(c: char, out: &mut String)
    ensures
        final(out)@ == old(out)@ + escape_char(c),
{
    if c == '"' {
        push_char(out, '\\');
        push_char(out, '"');
    } else if c == '\\' {
        push_char(out, '\\');
        push_char(out, '\\');
    } else if c == '\u{8}' {
        push_char(out, '\\');
        push_char(out, 'b');
    } else if c == '\t' {
        push_char(out, '\\');
        push_char(out, 't');
    } else if c == '\n' {
        push_char(out, '\\');
        push_char(out, 'n');
    } else if c == '\u{c}' {
        push_char(out, '\\');
        push_char(out, 'f');
    } else if c == '\r' {
        push_char(out, '\\');
        push_char(out, 'r');
    } else if (c as u32) < 32 {
        let code: u32 = c as u32;
        push_char(out, '\\');
        push_char(out, 'u');
        push_char(out, '0');
        push_char(out, '0');
        push_char(out, hex_digit_char((code / 16) as u8));
        push_char(out, hex_digit_char((code % 16) as u8));
    } else {
        push_char(out, c);
    }
}

/// `escape_text` distributes over concatenation.
proof fn lemma_escape_text_concat(a: Seq<char>, b: Seq<char>)
    ensures
        escape_text(a + b) == escape_text(a) + escape_text(b),
    decreases a,
{
    if a.len() == 0 {
        assert(a + b =~= b);
        assert(escape_text(a) + escape_text(b) =~= escape_text(b));
    } else {
        assert((a + b).drop_first() =~= a.drop_first() + b);
        lemma_escape_text_concat(a.drop_first(), b);
        assert(escape_text(a + b) =~= escape_text(a) + escape_text(b));
    }
}

/// Appends the string's characters, escaped; the surrounding quotes are the
/// caller's business.
fn push_escaped(s: &str, out: &mut String)
    ensures
        final(out)@ == old(out)@ + escape_text(s@),
{
    let ghost start = out@;
    let n = s.unicode_len();
    for i in 0..n
        invariant
            n == s@.len(),
            out@ == start + escape_text(s@.take(i as int)),
    {
        let c = s.get_char(i);
        push_escaped_char(c, out);
        proof {
            let pre = s@.take(i as int);
            lemma_escape_text_concat(pre, seq![c]);
            reveal_with_fuel(escape_text, 2);
            assert(seq![c].drop_first() =~= Seq::<char>::empty());
            assert(escape_text(seq![c]) =~= escape_char(c));
            assert(s@.take(i + 1) =~= pre + seq![c]);
            assert(out@ =~= start + escape_text(s@.take(i + 1)));
        }
    }
    proof {
        assert(s@.take(n as int) =~= s@);
    }
}

/// Appends the JSON string literal for `s`: quotes around the escaped text.
fn push_quoted(s: &str, out: &mut String)
    ensures
        final(out)@ == old(out)@ + quoted(s@),
{
    push_char(out, '"');
    push_escaped(s, out);
    push_char(out, '"');
}

/// Appends the JSON text of `v`.
fn push_json(v: &JsonValue, out: &mut String)
    ensures
        final(out)@ == old(out)@ + json_of(v@),
    decreases *v, 0int,
{
    match v {
        JsonValue::Null => {
            push_char(out, 'n');
            push_char(out, 'u');
            push_char(out, 'l');
            push_char(out, 'l');
        },
        JsonValue::Bool(b) => {
            if *b {
                push_char(out, 't');
                push_char(out, 'r');
                push_char(out, 'u');
                push_char(out, 'e');
            } else {
                push_char(out, 'f');
                push_char(out, 'a');
                push_char(out, 'l');
                push_char(out, 's');
                push_char(out, 'e');
            }
        },
        JsonValue::UInt(n) => {
            push_decimal(*n, out);
        },
        JsonValue::Str(s) => {
            push_quoted(s.as_str(), out);
        },
        JsonValue::Arr(elems) => {
            push_char(out, '[');
            push_list(elems, 0, out);
            push_char(out, ']');
            proof {
                assert(elems@.subrange(0, elems@.len() as int) =~= elems@);
            }
        },
        JsonValue::Obj(entries) => {
            push_char(out, '{');
            push_entries(entries, 0, out);
            push_char(out, '}');
            proof {
                assert(entries@.subrange(0, entries@.len() as int) =~= entries@);
            }
        },
    }
}

/// `json_value_view_list` keeps the length of its argument.
proof fn lemma_view_list_len(s: Seq<JsonValue>)
    ensures
        json_value_view_list(s).len() == s.len(),
    decreases s,
{
    if s.len() != 0 {
        lemma_view_list_len(s.drop_first());
    }
}

/// `json_value_view_entries` keeps the length of its argument.
proof fn lemma_view_entries_len(s: Seq<(String, JsonValue)>)
    ensures
        json_value_view_entries(s).len() == s.len(),
    decreases s,
{
    if s.len() != 0 {
        lemma_view_entries_len(s.drop_first());
    }
}

/// Appends the elements of `elems` from position `i` on, comma-separated.
fn push_list(elems: &Vec<JsonValue>, i: usize, out: &mut String)
    requires
        i <= elems@.len(),
    ensures
        final(out)@ == old(out)@ + json_of_list(json_value_view_list(
            elems@.subrange(i as int, elems@.len() as int),
        )),
    decreases elems@, elems@.len() - i,
{
    let ghost len = elems@.len() as int;
    let ghost tail = elems@.subrange(i as int, len);
    if i < elems.len() {
        push_json(&elems[i as usize], out);
        if i + 1 < elems.len() {
            push_char(out, ',');
        }
        push_list(elems, i + 1, out);
        proof {
            let rest = elems@.subrange(i + 1, len);
            assert(tail.drop_first() =~= rest);
            assert(tail[0] == elems@[i as int]);
            let vl = json_value_view_list(tail);
            assert(vl == seq![json_value_view(tail[0])] + json_value_view_list(rest));
            assert(vl[0] == json_value_view(elems@[i as int]));
            assert(vl.drop_first() =~= json_value_view_list(rest));
            lemma_view_list_len(tail);
            if i + 1 == elems@.len() {
                assert(rest =~= Seq::<JsonValue>::empty());
                assert(json_value_view_list(rest) =~= Seq::<JsonView>::empty());
                assert(json_of_list(json_value_view_list(rest)) =~= Seq::<char>::empty());
                assert(json_of_list(vl) == json_of(vl[0]));
                assert(out@ =~= old(out)@ + json_of_list(vl));
            } else {
                assert(vl.len() >= 2);
                assert(json_of_list(vl) == json_of(vl[0]) + seq![','] + json_of_list(
                    vl.drop_first(),
                ));
                assert(out@ =~= old(out)@ + json_of_list(vl));
            }
        }
    } else {
        proof {
            assert(tail =~= Seq::<JsonValue>::empty());
            assert(json_value_view_list(tail) =~= Seq::<JsonView>::empty());
            assert(json_of_list(json_value_view_list(tail)) =~= Seq::<char>::empty());
            assert(out@ =~= old(out)@ + json_of_list(json_value_view_list(tail)));
        }
    }
}

/// Appends the members of `entries` from position `i` on, comma-separated.
fn push_entries(entries: &Vec<(String, JsonValue)>, i: usize, out: &mut String)
    requires
        i <= entries@.len(),
    ensures
        final(out)@ == old(out)@ + json_of_entries(json_value_view_entries(
            entries@.subrange(i as int, entries@.len() as int),
        )),
    decreases entries@, entries@.len() - i,
{
    let ghost len = entries@.len() as int;
    let ghost tail = entries@.subrange(i as int, len);
    if i < entries.len() {
        push_quoted(entries[i as usize].0.as_str(), out);
        push_char(out, ':');
        push_json(&entries[i as usize].1, out);
        if i + 1 < entries.len() {
            push_char(out, ',');
        }
        push_entries(entries, i + 1, out);
        proof {
            let rest = entries@.subrange(i + 1, len);
            assert(tail.drop_first() =~= rest);
            assert(tail[0] == entries@[i as int]);
            let vl = json_value_view_entries(tail);
            assert(vl == seq![(tail[0].0@, json_value_view(tail[0].1))]
                + json_value_view_entries(rest));
            assert(vl[0] == (entries@[i as int].0@, json_value_view(entries@[i as int].1)));
            assert(vl.drop_first() =~= json_value_view_entries(rest));
            lemma_view_entries_len(tail);
            if i + 1 == entries@.len() {
                assert(rest =~= Seq::<(String, JsonValue)>::empty());
                assert(json_value_view_entries(rest) =~= Seq::<(Seq<char>, JsonView)>::empty());
                assert(json_of_entries(json_value_view_entries(rest)) =~= Seq::<char>::empty());
                assert(json_of_entries(vl) == quoted(vl[0].0) + seq![':'] + json_of(vl[0].1));
                assert(out@ =~= old(out)@ + json_of_entries(vl));
            } else {
                assert(vl.len() >= 2);
                assert(json_of_entries(vl) == quoted(vl[0].0) + seq![':'] + json_of(vl[0].1)
                    + seq![','] + json_of_entries(vl.drop_first()));
                assert(out@ =~= old(out)@ + json_of_entries(vl));
            }
        }
    } else {
        proof {
            assert(tail =~= Seq::<(String, JsonValue)>::empty());
            assert(json_value_view_entries(tail) =~= Seq::<(Seq<char>, JsonView)>::empty());
            assert(json_of_entries(json_value_view_entries(tail)) =~= Seq::<char>::empty());
            assert(out@ =~= old(out)@ + json_of_entries(json_value_view_entries(tail)));
        }
    }
}

/// `json_value_view_list` maps a `push` on values to a `push` on views.
pub(crate) proof fn lemma_view_list_push(s: Seq<JsonValue>, x: JsonValue)
    ensures
        json_value_view_list(s.push(x)) =~= json_value_view_list(s) + seq![json_value_view(x)],
    decreases s,
{
    if s.len() == 0 {
        assert(s.push(x).drop_first() =~= Seq::<JsonValue>::empty());
        reveal_with_fuel(json_value_view_list, 2);
        assert(s.push(x)[0] == x);
    } else {
        assert(s.push(x).drop_first() =~= s.drop_first().push(x));
        lemma_view_list_push(s.drop_first(), x);
        assert(s.push(x)[0] == s[0]);
    }
}

/// Looks a key up among an object's members: the first member with that
/// key, if any.
pub open spec fn entries_field(
    entries: Seq<(Seq<char>, JsonView)>,
    key: Seq<char>,
) -> Option<JsonView>
    decreases entries,
{
    if entries.len() == 0 {
        None
    } else if entries[0].0 == key {
        Some(entries[0].1)
    } else {
        entries_field(entries.drop_first(), key)
    }
}

/// The member named `key` of `v`, when `v` is an object that has one.
pub open spec fn obj_field(v: JsonView, key: Seq<char>) -> Option<JsonView> {
    match v {
        JsonView::Obj(entries) => entries_field(entries, key),
        _ => None,
    }
}

/// The keys of an object's members, in order; empty for any other value.
pub open spec fn obj_keys(v: JsonView) -> Seq<Seq<char>> {
    match v {
        JsonView::Obj(entries) => Seq::new(entries.len(), |i: int| entries[i].0),
        _ => Seq::empty(),
    }
}

/// Text that never breaks the line it stands on.
pub open spec fn single_line(s: Seq<char>) -> bool {
    forall|i: int| 0 <= i < s.len() ==> s[i] != '\n'
}

proof fn lemma_dec_of_single_line(n: nat)
    ensures
        single_line(dec_of(n)),
    decreases n,
{
    if n >= 10 {
        lemma_dec_of_single_line(n / 10);
    }
}

proof fn lemma_escape_char_single_line(c: char)
    ensures
        single_line(escape_char(c)),
{
}

proof fn lemma_escape_text_single_line(s: Seq<char>)
    ensures
        single_line(escape_text(s)),
    decreases s,
{
    if s.len() != 0 {
        lemma_escape_char_single_line(s[0]);
        lemma_escape_text_single_line(s.drop_first());
    }
}

proof fn lemma_quoted_single_line(s: Seq<char>)
    ensures
        single_line(quoted(s)),
{
    lemma_escape_text_single_line(s);
}

/// Law: rendered JSON text never contains a line break — every character
/// that could carry one is escaped — so one value occupies one line.
pub proof fn lemma_json_of_single_line(v: JsonView)
    ensures
        single_line(json_of(v)),
    decreases v,
{
    match v {
        JsonView::UInt(n) => {
            lemma_dec_of_single_line(n as nat);
        },
        JsonView::Str(s) => {
            lemma_quoted_single_line(s);
        },
        JsonView::Arr(elems) => {
            lemma_json_of_list_single_line(elems);
        },
        JsonView::Obj(entries) => {
            lemma_json_of_entries_single_line(entries);
        },
        _ => {},
    }
}

proof fn lemma_json_of_list_single_line(elems: Seq<JsonView>)
    ensures
        single_line(json_of_list(elems)),
    decreases elems,
{
    if elems.len() >= 1 {
        lemma_json_of_single_line(elems[0]);
        if elems.len() >= 2 {
            lemma_json_of_list_single_line(elems.drop_first());
        }
    }
}

proof fn lemma_json_of_entries_single_line(entries: Seq<(Seq<char>, JsonView)>)
    ensures
        single_line(json_of_entries(entries)),
    decreases entries,
{
    if entries.len() >= 1 {
        lemma_quoted_single_line(entries[0].0);
        lemma_json_of_single_line(entries[0].1);
        if entries.len() >= 2 {
            lemma_json_of_entries_single_line(entries.drop_first());
        }
    }
}


/// The strings of a list as JSON string values, in order.
pub open spec fn str_list_view(items: Seq<Seq<char>>) -> Seq<JsonView> {
    Seq::new(items.len(), |i: int| JsonView::Str(items[i]))
}

/// Full characterization of `json_value_view_entries`: it maps each member
/// to its viewed key and value, in place.
pub proof fn lemma_view_entries_index(s: Seq<(String, JsonValue)>)
    ensures
        json_value_view_entries(s).len() == s.len(),
        forall|i: int|
            0 <= i < s.len() ==> json_value_view_entries(s)[i] == (
                s[i].0@,
                json_value_view(s[i].1),
            ),
    decreases s,
{
    if s.len() != 0 {
        lemma_view_entries_index(s.drop_first());
        assert forall|i: int| 0 <= i < s.len() implies json_value_view_entries(s)[i] == (
            s[i].0@,
            json_value_view(s[i].1),
        ) by {
            if i > 0 {
                assert(json_value_view_entries(s)[i] == json_value_view_entries(
                    s.drop_first(),
                )[i - 1]);
            }
        }
    }
}

/// Turns a list of strings into the JSON string values that render it.
pub fn strings_to_json(items: &Vec<String>) -> (r: Vec<JsonValue>)
    ensures
        r@.len() == items@.len(),
        json_value_view_list(r@) == str_list_view(items.deep_view()),
{
    let mut out: Vec<JsonValue> = Vec::new();
    let mut i: usize = 0;
    while i < items.len()
        invariant
            i <= items@.len(),
            out@.len() == i,
            json_value_view_list(out@) =~= str_list_view(items.deep_view().take(i as int)),
        decreases items@.len() - i,
    {
        let ghost before = out@;
        let element = JsonValue::Str(items[i].clone());
        out.push(element);
        proof {
            lemma_view_list_push(before, element);
            assert(items.deep_view().take(i + 1) =~= items.deep_view().take(i as int).push(
                items.deep_view()[i as int],
            ));
            assert(json_value_view_list(out@) =~= str_list_view(items.deep_view().take(i + 1)));
        }
        i = i + 1;
    }
    proof {
        assert(items.deep_view().take(items@.len() as int) =~= items.deep_view());
        assert(json_value_view_list(out@) =~= str_list_view(items.deep_view()));
    }
    out
}

/// The single-line JSON text of `v`, exactly `json_of(v@)`.
pub fn to_json(v: &JsonValue) -> (r: String)
    ensures
        r@ == json_of(v@),
{
    let mut out = String::new();
    push_json(v, &mut out);
    out
}

} // verus!
