use vstd::prelude::*;

use crate::text::{bool_str, bool_to_string, i64_to_string, int_str};

verus! {

/// The mathematical model of a JSON value: what the contracts speak of.
pub enum JSpec {
    Null,
    Bool(bool),
    Int(int),
    Str(Seq<char>),
    Arr(Seq<JSpec>),
    Obj(Seq<(Seq<char>, JSpec)>),
}

/// A JSON value. Request bodies are built as values of this type and then
/// rendered to text; response details the wire format leaves open-ended are
/// carried as values of this type as well.
pub enum JVal {
    Null,
    Bool(bool),
    Int(i64),
    Str(String),
    Arr(Vec<JVal>),
    Obj(Vec<(String, JVal)>),
}

/// The model of a value: numbers as integers, strings as character sequences,
/// arrays and objects element by element, in order.
pub open spec fn jview(v: JVal) -> JSpec
    decreases v, 0nat,
{
    match v {
        JVal::Null => JSpec::Null,
        JVal::Bool(b) => JSpec::Bool(b),
        JVal::Int(i) => JSpec::Int(i as int),
        JVal::Str(s) => JSpec::Str(s@),
        JVal::Arr(items) => JSpec::Arr(jview_arr(items@)),
        JVal::Obj(fields) => JSpec::Obj(jview_obj(fields@)),
    }
}

pub open spec fn jview_arr(items: Seq<JVal>) -> Seq<JSpec>
    decreases items, items.len(),
{
    if items.len() == 0 {
        Seq::<JSpec>::empty()
    } else {
        seq![jview(items[0])] + jview_arr(items.drop_first())
    }
}

pub open spec fn jview_obj(fields: Seq<(String, JVal)>) -> Seq<(Seq<char>, JSpec)>
    decreases fields, fields.len(),
{
    if fields.len() == 0 {
        Seq::<(Seq<char>, JSpec)>::empty()
    } else {
        seq![(fields[0].0@, jview(fields[0].1))] + jview_obj(fields.drop_first())
    }
}

impl View for JVal {
    type V = JSpec;

    open spec fn view(&self) -> JSpec {
        jview(*self)
    }
}

/// The model of an array keeps length and order.
pub proof fn lemma_jview_arr(items: Seq<JVal>)
    ensures
        jview_arr(items).len() == items.len(),
        forall|i: int|
            0 <= i < items.len() ==> #[trigger] jview_arr(items)[i] == jview(items[i]),
    decreases items.len(),
{
    if items.len() > 0 {
        lemma_jview_arr(items.drop_first());
        assert forall|i: int| 0 <= i < items.len() implies #[trigger] jview_arr(items)[i] == jview(
            items[i],
        ) by {
            if i > 0 {
                assert(items.drop_first()[i - 1] == items[i]);
                assert(jview_arr(items)[i] == jview_arr(items.drop_first())[i - 1]);
            }
        }
    }
}

/// The model of an object keeps length, order and key names.
pub proof fn lemma_jview_obj(fields: Seq<(String, JVal)>)
    ensures
        jview_obj(fields).len() == fields.len(),
        forall|i: int|
            0 <= i < fields.len() ==> #[trigger] jview_obj(fields)[i] == (fields[i].0@, jview(
                fields[i].1,
            )),
    decreases fields.len(),
{
    if fields.len() > 0 {
        lemma_jview_obj(fields.drop_first());
        assert forall|i: int| 0 <= i < fields.len() implies #[trigger] jview_obj(fields)[i] == (
        fields[i].0@, jview(fields[i].1)) by {
            if i > 0 {
                assert(fields.drop_first()[i - 1] == fields[i]);
                assert(jview_obj(fields)[i] == jview_obj(fields.drop_first())[i - 1]);
            }
        }
    }
}

/// Dropping the first element commutes with taking the model of an array.
pub proof fn lemma_jview_arr_drop_first(s: Seq<JVal>)
    requires
        s.len() > 0,
    ensures
        jview_arr(s).drop_first() == jview_arr(s.drop_first()),
{
    assert(jview_arr(s).drop_first() =~= jview_arr(s.drop_first()));
}

/// Dropping the first field commutes with taking the model of an object.
pub proof fn lemma_jview_obj_drop_first(s: Seq<(String, JVal)>)
    requires
        s.len() > 0,
    ensures
        jview_obj(s).drop_first() == jview_obj(s.drop_first()),
{
    assert(jview_obj(s).drop_first() =~= jview_obj(s.drop_first()));
}

/// The hexadecimal digit for a value below sixteen.
pub open spec fn hex_digit(d: nat) -> char {
    if d == 0 {
        '0'
    } else if d == 1 {
        '1'
    } else if d == 2 {
        '2'
    } else if d == 3 {
        '3'
    } else if d == 4 {
        '4'
    } else if d == 5 {
        '5'
    } else if d == 6 {
        '6'
    } else if d == 7 {
        '7'
    } else if d == 8 {
        '8'
    } else if d == 9 {
        '9'
    } else if d == 10 {
        'a'
    } else if d == 11 {
        'b'
    } else if d == 12 {
        'c'
    } else if d == 13 {
        'd'
    } else if d == 14 {
        'e'
    } else {
        'f'
    }
}

/// How one character appears inside a JSON string literal: quotes and
/// backslashes carry a backslash, control characters an escape sequence,
/// everything else stands as it is.
pub open spec fn esc_char(c: char) -> Seq<char> {
    if c == '"' {
        seq!['\\', '"']
    } else if c == '\\' {
        seq!['\\', '\\']
    } else if c == '\n' {
        seq!['\\', 'n']
    } else if c == '\r' {
        seq!['\\', 'r']
    } else if c == '\t' {
        seq!['\\', 't']
    } else if (c as u32) < 32 {
        seq!['\\', 'u', '0', '0', hex_digit((c as u32 / 16) as nat), hex_digit(
            (c as u32 % 16) as nat,
        )]
    } else {
        seq![c]
    }
}

/// A whole character sequence, escaped.
pub open spec fn esc_str(s: Seq<char>) -> Seq<char>
    decreases s.len(),
{
    if s.len() == 0 {
        Seq::<char>::empty()
    } else {
        esc_char(s[0]) + esc_str(s.drop_first())
    }
}

/// Escaping distributes over concatenation.
pub proof fn lemma_esc_str_concat(a: Seq<char>, b: Seq<char>)
    ensures
        esc_str(a + b) == esc_str(a) + esc_str(b),
    decreases a.len(),
{
    if a.len() == 0 {
        assert(a + b =~= b);
        assert(esc_str(a) + esc_str(b) =~= esc_str(b));
    } else {
        assert((a + b).drop_first() =~= a.drop_first() + b);
        lemma_esc_str_concat(a.drop_first(), b);
        assert(esc_char(a[0]) + (esc_str(a.drop_first()) + esc_str(b)) =~= (esc_char(a[0])
            + esc_str(a.drop_first())) + esc_str(b));
    }
}

/// The numeric value of a hexadecimal digit; sixteen for any other
/// character.
pub open spec fn hex_val(c: char) -> nat {
    if c == '0' {
        0
    } else if c == '1' {
        1
    } else if c == '2' {
        2
    } else if c == '3' {
        3
    } else if c == '4' {
        4
    } else if c == '5' {
        5
    } else if c == '6' {
        6
    } else if c == '7' {
        7
    } else if c == '8' {
        8
    } else if c == '9' {
        9
    } else if c == 'a' {
        10
    } else if c == 'b' {
        11
    } else if c == 'c' {
        12
    } else if c == 'd' {
        13
    } else if c == 'e' {
        14
    } else if c == 'f' {
        15
    } else {
        16
    }
}

/// Reads escaped text back to the characters it stands for; `None` where the
/// text is not something the escaper emits.
pub open spec fn unesc_str(s: Seq<char>) -> Option<Seq<char>>
    decreases s.len(),
{
    if s.len() == 0 {
        Some(Seq::<char>::empty())
    } else if s[0] == '\\' {
        if s.len() >= 2 && s[1] == '"' {
            match unesc_str(s.skip(2)) {
                Option::None => Option::<Seq<char>>::None,
                Option::Some(t) => Some(seq!['"'] + t),
            }
        } else if s.len() >= 2 && s[1] == '\\' {
            match unesc_str(s.skip(2)) {
                Option::None => Option::<Seq<char>>::None,
                Option::Some(t) => Some(seq!['\\'] + t),
            }
        } else if s.len() >= 2 && s[1] == 'n' {
            match unesc_str(s.skip(2)) {
                Option::None => Option::<Seq<char>>::None,
                Option::Some(t) => Some(seq!['\n'] + t),
            }
        } else if s.len() >= 2 && s[1] == 'r' {
            match unesc_str(s.skip(2)) {
                Option::None => Option::<Seq<char>>::None,
                Option::Some(t) => Some(seq!['\r'] + t),
            }
        } else if s.len() >= 2 && s[1] == 't' {
            match unesc_str(s.skip(2)) {
                Option::None => Option::<Seq<char>>::None,
                Option::Some(t) => Some(seq!['\t'] + t),
            }
        } else if s.len() >= 6 && s[1] == 'u' && s[2] == '0' && s[3] == '0' && hex_val(s[4]) < 16
            && hex_val(s[5]) < 16 {
            match unesc_str(s.skip(6)) {
                Option::None => Option::<Seq<char>>::None,
                Option::Some(t) => Some(
                    seq![((hex_val(s[4]) * 16 + hex_val(s[5])) as char)] + t,
                ),
            }
        } else {
            Option::<Seq<char>>::None
        }
    } else {
        match unesc_str(s.drop_first()) {
            Option::None => Option::<Seq<char>>::None,
            Option::Some(t) => Some(seq![s[0]] + t),
        }
    }
}

/// Law: escaping loses nothing: reading the escaped text back yields exactly
/// the characters that were escaped.
pub proof fn lemma_esc_str_roundtrip(s: Seq<char>)
    ensures
        unesc_str(esc_str(s)) == Some(s),
    decreases s.len(),
{
    if s.len() > 0 {
        let c = s[0];
        let ec = esc_char(c);
        let rest = esc_str(s.drop_first());
        lemma_esc_str_roundtrip(s.drop_first());
        assert(esc_str(s) == ec + rest);
        if c == '"' || c == '\\' || c == '\n' || c == '\r' || c == '\t' {
            assert((ec + rest).len() >= 2);
            assert((ec + rest)[0] == '\\');
            assert((ec + rest).skip(2) =~= rest);
            assert(seq![c] + s.drop_first() =~= s);
        } else if (c as u32) < 32 {
            assert((ec + rest).len() >= 6);
            assert((ec + rest)[0] == '\\');
            assert((ec + rest)[1] == 'u');
            assert((ec + rest)[2] == '0');
            assert((ec + rest)[3] == '0');
            assert((ec + rest)[4] == hex_digit((c as u32 / 16) as nat));
            assert((ec + rest)[5] == hex_digit((c as u32 % 16) as nat));
            assert(hex_val(hex_digit((c as u32 / 16) as nat)) == (c as u32 / 16) as nat);
            assert(hex_val(hex_digit((c as u32 % 16) as nat)) == (c as u32 % 16) as nat);
            assert((c as u32 / 16) * 16 + (c as u32 % 16) == c as u32);
            vstd::utf8::char_u32_cast(c, c as u32);
            assert(((c as u32) as char) == c);
            assert((ec + rest).skip(6) =~= rest);
            assert(seq![c] + s.drop_first() =~= s);
        } else {
            assert(ec =~= seq![c]);
            assert((ec + rest)[0] == c);
            assert(c != '\\');
            assert((ec + rest).drop_first() =~= rest);
            assert(seq![c] + s.drop_first() =~= s);
        }
    }
}

/// A JSON string literal: the escaped characters between double quotes.
pub open spec fn quoted(s: Seq<char>) -> Seq<char> {
    seq!['"'] + esc_str(s) + seq!['"']
}

/// The text of a JSON value: object fields and array items in order, no
/// whitespace, `,` between items, `:` between a key and its value.
pub open spec fn json_text(j: JSpec) -> Seq<char>
    decreases j, 0nat,
{
    match j {
        JSpec::Null => "null"@,
        JSpec::Bool(b) => bool_str(b),
        JSpec::Int(i) => int_str(i),
        JSpec::Str(s) => quoted(s),
        JSpec::Arr(items) => seq!['['] + arr_text(items) + seq![']'],
        JSpec::Obj(fields) => seq!['{'] + obj_text(fields) + seq!['}'],
    }
}

/// The comma-separated text of array items.
pub open spec fn arr_text(items: Seq<JSpec>) -> Seq<char>
    decreases items, items.len(),
{
    if items.len() == 0 {
        Seq::<char>::empty()
    } else if items.len() == 1 {
        json_text(items[0])
    } else {
        json_text(items[0]) + seq![','] + arr_text(items.drop_first())
    }
}

/// The comma-separated text of object fields, each a quoted key, a colon and
/// the field's value.
pub open spec fn obj_text(fields: Seq<(Seq<char>, JSpec)>) -> Seq<char>
    decreases fields, fields.len(),
{
    if fields.len() == 0 {
        Seq::<char>::empty()
    } else if fields.len() == 1 {
        quoted(fields[0].0) + seq![':'] + json_text(fields[0].1)
    } else {
        quoted(fields[0].0) + seq![':'] + json_text(fields[0].1) + seq![','] + obj_text(
            fields.drop_first(),
        )
    }
}

/// Whether a field list carries a field named `k`.
pub open spec fn fields_have_key(fields: Seq<(Seq<char>, JSpec)>, k: Seq<char>) -> bool {
    exists|i: int| 0 <= i < fields.len() && (#[trigger] fields[i]).0 == k
}

/// Whether an object value carries a field named `k`. False of any value that
/// is not an object.
pub open spec fn obj_has_key(j: JSpec, k: Seq<char>) -> bool {
    match j {
        JSpec::Obj(fields) => fields_have_key(fields, k),
        _ => false,
    }
}

/// A key stands in a concatenation of field lists exactly when it stands in
/// one of them.
pub proof fn lemma_fields_have_key_concat(
    a: Seq<(Seq<char>, JSpec)>,
    b: Seq<(Seq<char>, JSpec)>,
    k: Seq<char>,
)
    ensures
        fields_have_key(a + b, k) <==> (fields_have_key(a, k) || fields_have_key(b, k)),
{
    if fields_have_key(a + b, k) {
        let i = choose|i: int| 0 <= i < (a + b).len() && (#[trigger] (a + b)[i]).0 == k;
        if i < a.len() {
            assert(a[i] == (a + b)[i]);
        } else {
            assert(b[i - a.len()] == (a + b)[i]);
        }
    }
    if fields_have_key(a, k) {
        let i = choose|i: int| 0 <= i < a.len() && (#[trigger] a[i]).0 == k;
        assert((a + b)[i] == a[i]);
    }
    if fields_have_key(b, k) {
        let i = choose|i: int| 0 <= i < b.len() && (#[trigger] b[i]).0 == k;
        assert((a + b)[i + a.len()] == b[i]);
    }
}

/// A field that is always sent carries exactly its own key.
pub proof fn lemma_req_field_key<T: ToJson>(name: Seq<char>, v: T, k: Seq<char>)
    ensures
        fields_have_key(req_field(name, v), k) <==> k == name,
{
    if k == name {
        assert(req_field(name, v)[0].0 == k);
    }
}

/// An omitted field carries its key exactly when its value is set.
pub proof fn lemma_opt_field_key<T: ToJson>(name: Seq<char>, v: Option<T>, k: Seq<char>)
    ensures
        fields_have_key(opt_field(name, v), k) <==> (k == name && v is Some),
{
    match v {
        Option::Some(x) => {
            if k == name {
                assert(opt_field(name, v)[0].0 == k);
            }
        },
        Option::None => {},
    }
}

/// The one-character string for a hexadecimal digit.
fn hex_digit_to_str(d: u32) -> (r: &'static str)
    requires
        d < 16,
    ensures
        r@ == seq![hex_digit(d as nat)],
{
    let r: &'static str = if d == 0 {
        "0"
    } else if d == 1 {
        "1"
    } else if d == 2 {
        "2"
    } else if d == 3 {
        "3"
    } else if d == 4 {
        "4"
    } else if d == 5 {
        "5"
    } else if d == 6 {
        "6"
    } else if d == 7 {
        "7"
    } else if d == 8 {
        "8"
    } else if d == 9 {
        "9"
    } else if d == 10 {
        "a"
    } else if d == 11 {
        "b"
    } else if d == 12 {
        "c"
    } else if d == 13 {
        "d"
    } else if d == 14 {
        "e"
    } else {
        "f"
    };
    proof {
        reveal_strlit("0");
        reveal_strlit("1");
        reveal_strlit("2");
        reveal_strlit("3");
        reveal_strlit("4");
        reveal_strlit("5");
        reveal_strlit("6");
        reveal_strlit("7");
        reveal_strlit("8");
        reveal_strlit("9");
        reveal_strlit("a");
        reveal_strlit("b");
        reveal_strlit("c");
        reveal_strlit("d");
        reveal_strlit("e");
        reveal_strlit("f");
        assert(r@ =~= seq![hex_digit(d as nat)]);
    }
    r
}

/// A character that cannot stand as it is inside a JSON string literal.
pub open spec fn needs_escape(c: char) -> bool {
    c == '"' || c == '\\' || (c as u32) < 32
}

/// Appends the escape sequence for a character that needs one.
fn push_esc_char(out: &mut String, c: char)
    requires
        needs_escape(c),
    ensures
        final (out)@ == old(out)@ + esc_char(c),
{
    if c == '"' {
        out.append("\\\"");
        proof {
            reveal_strlit("\\\"");
            assert(final (out)@ =~= old(out)@ + esc_char(c));
        }
    } else if c == '\\' {
        out.append("\\\\");
        proof {
            reveal_strlit("\\\\");
            assert(final (out)@ =~= old(out)@ + esc_char(c));
        }
    } else if c == '\n' {
        out.append("\\n");
        proof {
            reveal_strlit("\\n");
            assert(final (out)@ =~= old(out)@ + esc_char(c));
        }
    } else if c == '\r' {
        out.append("\\r");
        proof {
            reveal_strlit("\\r");
            assert(final (out)@ =~= old(out)@ + esc_char(c));
        }
    } else if c == '\t' {
        out.append("\\t");
        proof {
            reveal_strlit("\\t");
            assert(final (out)@ =~= old(out)@ + esc_char(c));
        }
    } else {
        out.append("\\u00");
        out.append(hex_digit_to_str((c as u32) / 16));
        out.append(hex_digit_to_str((c as u32) % 16));
        proof {
            reveal_strlit("\\u00");
            assert(final (out)@ =~= old(out)@ + esc_char(c));
        }
    }
}

/// Appends the quoted, escaped form of `s` to `out`.
fn push_quoted(out: &mut String, s: &str)
    ensures
        final (out)@ == old(out)@ + quoted(s@),
{
    out.append("\"");
    let n = s.unicode_len();
    let mut i: usize = 0;
    proof {
        reveal_strlit("\"");
        assert(s@.take(0int) =~= Seq::<char>::empty());
    }
    while i < n
        invariant
            n == s@.len(),
            i <= n,
            out@ == old(out)@ + seq!['"'] + esc_str(s@.take(i as int)),
        decreases n - i,
    {
        let c = s.get_char(i);
        if c == '"' || c == '\\' || (c as u32) < 32 {
            push_esc_char(out, c);
        } else {
            let piece = s.substring_char(i, i + 1);
            out.append(piece);
            proof {
                assert(piece@ =~= seq![s@[i as int]]);
                assert(esc_char(s@[i as int]) =~= seq![s@[i as int]]);
            }
        }
        proof {
            assert(s@.take(i + 1) =~= s@.take(i as int) + seq![s@[i as int]]);
            lemma_esc_str_concat(s@.take(i as int), seq![s@[i as int]]);
            assert(esc_str(seq![s@[i as int]]) =~= esc_char(s@[i as int])) by {
                reveal_with_fuel(esc_str, 2);
                assert(seq![s@[i as int]].drop_first() =~= Seq::<char>::empty());
            }
        }
        i = i + 1;
    }
    out.append("\"");
    proof {
        assert(s@.take(n as int) =~= s@);
        assert(final (out)@ =~= old(out)@ + quoted(s@));
    }
}

/// Renders a JSON value as text.
pub fn to_text(v: &JVal) -> (r: String)
    ensures
        r@ == json_text(v@),
{
    let mut out = String::new();
    write_json(v, &mut out);
    proof {
        assert(out@ =~= json_text(jview(*v)));
    }
    out
}

fn write_json(v: &JVal, out: &mut String)
    ensures
        final (out)@ == old(out)@ + json_text(jview(*v)),
    decreases *v, 0nat,
{
    match v {
        JVal::Null => {
            out.append("null");
        },
        JVal::Bool(b) => {
            let t = bool_to_string(*b);
            out.append(t.as_str());
        },
        JVal::Int(i) => {
            let t = i64_to_string(*i);
            out.append(t.as_str());
        },
        JVal::Str(s) => {
            push_quoted(out, s.as_str());
        },
        JVal::Arr(items) => {
            out.append("[");
            write_arr_items(items, 0, out);
            out.append("]");
            proof {
                reveal_strlit("[");
                reveal_strlit("]");
                assert(items@.skip(0int) =~= items@);
                assert(final (out)@ =~= old(out)@ + json_text(jview(*v)));
            }
        },
        JVal::Obj(fields) => {
            out.append("{");
            write_obj_fields(fields, 0, out);
            out.append("}");
            proof {
                reveal_strlit("{");
                reveal_strlit("}");
                assert(fields@.skip(0int) =~= fields@);
                assert(final (out)@ =~= old(out)@ + json_text(jview(*v)));
            }
        },
    }
}

fn write_arr_items(items: &Vec<JVal>, i: usize, out: &mut String)
    requires
        i <= items@.len(),
    ensures
        final (out)@ == old(out)@ + arr_text(jview_arr(items@.skip(i as int))),
    decreases items@, items@.len() - i,
{
    if i < items.len() {
        write_json(&items[i], out);
        if i + 1 < items.len() {
            out.append(",");
            proof {
                reveal_strlit(",");
            }
        }
        write_arr_items(items, i + 1, out);
        proof {
            lemma_jview_arr(items@.skip(i as int));
            lemma_jview_arr_drop_first(items@.skip(i as int));
            assert(items@.skip(i as int).drop_first() =~= items@.skip(i + 1));
            assert(jview_arr(items@.skip(i as int))[0] == jview(items@[i as int]));
            assert(final (out)@ =~= old(out)@ + arr_text(jview_arr(items@.skip(i as int))));
        }
    } else {
        proof {
            assert(items@.skip(i as int) =~= Seq::<JVal>::empty());
            assert(final (out)@ =~= old(out)@ + arr_text(jview_arr(items@.skip(i as int))));
        }
    }
}

fn write_obj_fields(fields: &Vec<(String, JVal)>, i: usize, out: &mut String)
    requires
        i <= fields@.len(),
    ensures
        final (out)@ == old(out)@ + obj_text(jview_obj(fields@.skip(i as int))),
    decreases fields@, fields@.len() - i,
{
    if i < fields.len() {
        push_quoted(out, fields[i].0.as_str());
        out.append(":");
        proof {
            reveal_strlit(":");
        }
        write_json(&fields[i].1, out);
        if i + 1 < fields.len() {
            out.append(",");
            proof {
                reveal_strlit(",");
            }
        }
        write_obj_fields(fields, i + 1, out);
        proof {
            lemma_jview_obj(fields@.skip(i as int));
            lemma_jview_obj_drop_first(fields@.skip(i as int));
            assert(fields@.skip(i as int).drop_first() =~= fields@.skip(i + 1));
            assert(jview_obj(fields@.skip(i as int))[0] == (fields@[i as int].0@, jview(
                fields@[i as int].1,
            )));
            assert(final (out)@ =~= old(out)@ + obj_text(jview_obj(fields@.skip(i as int))));
        }
    } else {
        proof {
            assert(fields@.skip(i as int) =~= Seq::<(String, JVal)>::empty());
            assert(final (out)@ =~= old(out)@ + obj_text(jview_obj(fields@.skip(i as int))));
        }
    }
}

/// The model of an optional string: its value, or `null` when unset.
pub open spec fn jopt_str(o: Option<String>) -> JSpec {
    match o {
        Option::None => JSpec::Null,
        Option::Some(s) => JSpec::Str(s@),
    }
}

/// Renders an optional string as its value or `null`.
pub fn opt_str_to_json(o: &Option<String>) -> (r: JVal)
    ensures
        r@ == jopt_str(*o),
{
    match o {
        Option::None => JVal::Null,
        Option::Some(s) => JVal::Str(s.clone()),
    }
}

/// A payload wrapped for the wire: `{"data": <payload>}`.
pub open spec fn jdata_wrap(j: JSpec) -> JSpec {
    JSpec::Obj(seq![("data"@, j)])
}

/// Wraps a value as `{"data": <value>}`.
pub fn wrap_data(v: JVal) -> (r: JVal)
    ensures
        r@ == jdata_wrap(v@),
{
    let mut fields: Vec<(String, JVal)> = Vec::new();
    fields.push((String::from_str("data"), v));
    let r = JVal::Obj(fields);
    proof {
        lemma_jview_obj(fields@);
        assert(jview_obj(fields@) =~= seq![("data"@, jview(fields@[0].1))]);
    }
    r
}

/// Renders `{"data": <payload>}`, the JSON body of a create or update call.
pub fn data_body<T: ToJson>(data: &T) -> (s: String)
    ensures
        s@ == json_text(jdata_wrap(data.json_of())),
{
    let w = wrap_data(data.to_json());
    to_text(&w)
}

/// A value and its model, for payload types: the spec side names the value's
/// JSON form, the exec side builds it.
pub trait ToJson {
    spec fn json_of(&self) -> JSpec;

    fn to_json(&self) -> (r: JVal)
        ensures
            r@ == self.json_of(),
    ;
}

/// Copies a JSON value; the copy has the same model.
pub fn jval_clone(v: &JVal) -> (r: JVal)
    ensures
        r@ == v@,
    decreases *v, 0nat,
{
    match v {
        JVal::Null => JVal::Null,
        JVal::Bool(b) => JVal::Bool(*b),
        JVal::Int(i) => JVal::Int(*i),
        JVal::Str(s) => JVal::Str(s.clone()),
        JVal::Arr(items) => {
            let mut out: Vec<JVal> = Vec::new();
            clone_arr_items(items, 0, &mut out);
            let r = JVal::Arr(out);
            proof {
                lemma_jview_arr(out@);
                lemma_jview_arr(items@);
                assert(items@.skip(0int) =~= items@);
                assert(jview_arr(out@) =~= jview_arr(items@));
            }
            r
        },
        JVal::Obj(fields) => {
            let mut out: Vec<(String, JVal)> = Vec::new();
            clone_obj_fields(fields, 0, &mut out);
            let r = JVal::Obj(out);
            proof {
                lemma_jview_obj(out@);
                lemma_jview_obj(fields@);
                assert(fields@.skip(0int) =~= fields@);
                assert(jview_obj(out@) =~= jview_obj(fields@));
            }
            r
        },
    }
}

fn clone_arr_items(items: &Vec<JVal>, i: usize, out: &mut Vec<JVal>)
    requires
        i <= items@.len(),
    ensures
        final (out)@.len() == old(out)@.len() + items@.len() - i,
        forall|k: int| 0 <= k < old(out)@.len() ==> final (out)@[k] == old(out)@[k],
        forall|k: int|
            old(out)@.len() <= k < final (out)@.len() ==> jview(#[trigger] final (out)@[k])
                == jview(items@[k - old(out)@.len() + i]),
    decreases items@, items@.len() - i,
{
    if i < items.len() {
        let c = jval_clone(&items[i]);
        out.push(c);
        clone_arr_items(items, i + 1, out);
    }
}

fn clone_obj_fields(fields: &Vec<(String, JVal)>, i: usize, out: &mut Vec<(String, JVal)>)
    requires
        i <= fields@.len(),
    ensures
        final (out)@.len() == old(out)@.len() + fields@.len() - i,
        forall|k: int| 0 <= k < old(out)@.len() ==> final (out)@[k] == old(out)@[k],
        forall|k: int|
            old(out)@.len() <= k < final (out)@.len() ==> (#[trigger] final (out)@[k]).0@
                == fields@[k - old(out)@.len() + i].0@ && jview(final (out)@[k].1) == jview(
                fields@[k - old(out)@.len() + i].1,
            ),
    decreases fields@, fields@.len() - i,
{
    if i < fields.len() {
        let name = fields[i].0.clone();
        let c = jval_clone(&fields[i].1);
        out.push((name, c));
        clone_obj_fields(fields, i + 1, out);
    }
}

impl ToJson for JVal {
    open spec fn json_of(&self) -> JSpec {
        jview(*self)
    }

    fn to_json(&self) -> (r: JVal) {
        jval_clone(self)
    }
}

impl ToJson for String {
    open spec fn json_of(&self) -> JSpec {
        JSpec::Str(self@)
    }

    fn to_json(&self) -> (r: JVal) {
        JVal::Str(self.clone())
    }
}

impl ToJson for i64 {
    open spec fn json_of(&self) -> JSpec {
        JSpec::Int(*self as int)
    }

    fn to_json(&self) -> (r: JVal) {
        JVal::Int(*self)
    }
}

impl ToJson for bool {
    open spec fn json_of(&self) -> JSpec {
        JSpec::Bool(*self)
    }

    fn to_json(&self) -> (r: JVal) {
        JVal::Bool(*self)
    }
}

/// The model of a serialized list: every element in order.
pub open spec fn jarr_of<T: ToJson>(items: Seq<T>) -> Seq<JSpec> {
    items.map(|i: int, v: T| v.json_of())
}

impl<T: ToJson> ToJson for Vec<T> {
    open spec fn json_of(&self) -> JSpec {
        JSpec::Arr(jarr_of(self@))
    }

    fn to_json(&self) -> (r: JVal) {
        let mut out: Vec<JVal> = Vec::new();
        let mut i: usize = 0;
        while i < self.len()
            invariant
                i <= self@.len(),
                out@.len() == i,
                forall|k: int| 0 <= k < i ==> jview(#[trigger] out@[k]) == self@[k].json_of(),
            decreases self@.len() - i,
        {
            let c = self[i].to_json();
            out.push(c);
            i = i + 1;
        }
        let r = JVal::Arr(out);
        proof {
            lemma_jview_arr(out@);
            assert(jview_arr(out@) =~= jarr_of(self@));
        }
        r
    }
}

/// The model of an optional value that serializes as `null` when unset.
pub open spec fn jopt<T: ToJson>(o: Option<T>) -> JSpec {
    match o {
        Option::None => JSpec::Null,
        Option::Some(v) => v.json_of(),
    }
}

/// Renders an optional serializable value, `null` when unset.
pub fn opt_to_json<T: ToJson>(o: &Option<T>) -> (r: JVal)
    ensures
        r@ == jopt(*o),
{
    match o {
        Option::None => JVal::Null,
        Option::Some(v) => v.to_json(),
    }
}

/// An object field that is always sent.
pub open spec fn req_field<T: ToJson>(name: Seq<char>, v: T) -> Seq<(Seq<char>, JSpec)> {
    seq![(name, v.json_of())]
}

/// An object field that is omitted when its value is unset.
pub open spec fn opt_field<T: ToJson>(name: Seq<char>, v: Option<T>) -> Seq<(Seq<char>, JSpec)> {
    match v {
        Option::None => Seq::<(Seq<char>, JSpec)>::empty(),
        Option::Some(x) => seq![(name, x.json_of())],
    }
}

/// Appends a field that is always sent.
pub fn push_req_field<T: ToJson>(fields: &mut Vec<(String, JVal)>, name: &str, v: &T)
    ensures
        jview_obj(final (fields)@) == jview_obj(old(fields)@) + req_field(name@, *v),
{
    let j = v.to_json();
    fields.push((String::from_str(name), j));
    proof {
        lemma_jview_obj(old(fields)@);
        lemma_jview_obj(final (fields)@);
        assert(jview_obj(final (fields)@) =~= jview_obj(old(fields)@) + req_field(name@, *v));
    }
}

/// An object field that is always sent, as `null` when its value is unset.
pub open spec fn null_or_field<T: ToJson>(name: Seq<char>, v: Option<T>) -> Seq<
    (Seq<char>, JSpec),
> {
    seq![(name, jopt(v))]
}

/// Appends a field that is sent as `null` when its value is unset.
pub fn push_null_or_field<T: ToJson>(fields: &mut Vec<(String, JVal)>, name: &str, v: &Option<T>)
    ensures
        jview_obj(final (fields)@) == jview_obj(old(fields)@) + null_or_field(name@, *v),
{
    let j = opt_to_json(v);
    fields.push((String::from_str(name), j));
    proof {
        lemma_jview_obj(old(fields)@);
        lemma_jview_obj(final (fields)@);
        assert(jview_obj(final (fields)@) =~= jview_obj(old(fields)@) + null_or_field(name@, *v));
    }
}

/// Appends a field only when its value is set: the key is absent otherwise.
pub fn push_opt_field<T: ToJson>(fields: &mut Vec<(String, JVal)>, name: &str, v: &Option<T>)
    ensures
        jview_obj(final (fields)@) == jview_obj(old(fields)@) + opt_field(name@, *v),
{
    match v {
        Option::Some(x) => {
            let j = x.to_json();
            fields.push((String::from_str(name), j));
        },
        Option::None => {},
    }
    proof {
        lemma_jview_obj(old(fields)@);
        lemma_jview_obj(final (fields)@);
        assert(jview_obj(final (fields)@) =~= jview_obj(old(fields)@) + opt_field(name@, *v));
    }
}


} // verus!
