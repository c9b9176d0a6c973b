//! JSON values as the protocol exchanges them, and the lookups the reply
//! parser makes on them (with `serde_json`'s meaning: a missing member, or a
//! member of something that is no object, reads as `null`).

use vstd::prelude::*;

use crate::text::same_text;

verus! {

/// A JSON value. A number keeps the text it was written with; an object keeps
/// its members in order.
#[derive(Debug)]
pub enum JsonValue {
    Null,
    Bool(bool),
    Number(String),
    String(String),
    Array(Vec<JsonValue>),
    Object(Vec<(String, JsonValue)>),
}

/// The value of the first member named `key` among `entries`.
pub open spec fn entry_lookup(entries: Seq<(String, JsonValue)>, key: Seq<char>) -> Option<
    JsonValue,
>
    decreases entries.len(),
{
    if entries.len() == 0 {
        None
    } else if entries[0].0@ == key {
        Some(entries[0].1)
    } else {
        entry_lookup(entries.drop_first(), key)
    }
}

/// The value an optional reference stands for: `null` where there is none.
pub open spec fn or_null(v: Option<&JsonValue>) -> JsonValue {
    match v {
        Some(x) => *x,
        None => JsonValue::Null,
    }
}

impl JsonValue {
    /// The member `key` of an object; nothing for a missing member or a non-object.
    pub open spec fn lookup(self, key: Seq<char>) -> Option<JsonValue> {
        match self {
            JsonValue::Object(entries) => entry_lookup(entries@, key),
            _ => None,
        }
    }

    /// The member `key`, reading as `null` where [`JsonValue::lookup`] finds nothing.
    pub open spec fn member(self, key: Seq<char>) -> JsonValue {
        match self.lookup(key) {
            Some(v) => v,
            None => JsonValue::Null,
        }
    }

    /// The characters of a string value.
    pub open spec fn text(self) -> Option<Seq<char>> {
        match self {
            JsonValue::String(s) => Some(s@),
            _ => None,
        }
    }

    /// The elements of an array value.
    pub open spec fn items(self) -> Option<Seq<JsonValue>> {
        match self {
            JsonValue::Array(a) => Some(a@),
            _ => None,
        }
    }

    /// The member named `key` of an object (the first one, should there be several).
    pub fn get(&self, key: &str) -> (r: Option<&JsonValue>)
        ensures
            match r {
                Some(v) => self.lookup(key@) == Some(*v),
                None => self.lookup(key@) is None,
            },
    {
        match self {
            JsonValue::Object(entries) => {
                let n = entries.len();
                let mut i: usize = 0;
                assert(entries@.subrange(0, n as int) =~= entries@);
                while i < n
                    invariant
                        n == entries@.len(),
                        i <= n,
                        entry_lookup(entries@.subrange(i as int, n as int), key@) == self.lookup(
                            key@,
                        ),
                    decreases n - i,
                {
                    assert(entries@.subrange(i as int, n as int).drop_first() =~= entries@.subrange(
                        i + 1,
                        n as int,
                    ));
                    assert(entries@.subrange(i as int, n as int)[0] == entries@[i as int]);
                    if same_text(entries[i].0.as_str(), key) {
                        return Some(&entries[i].1);
                    }
                    i = i + 1;
                }
                None
            },
            _ => None,
        }
    }
}

/// `v[key]`: the member `key` of the value that `v` stands for, `None` standing for `null`.
pub fn member_of<'a>(v: Option<&'a JsonValue>, key: &str) -> (r: Option<&'a JsonValue>)
    ensures
        or_null(r) == or_null(v).member(key@),
{
    match v {
        Some(x) => x.get(key),
        None => None,
    }
}

/// The text of a string value.
pub fn as_text<'a>(v: Option<&'a JsonValue>) -> (r: Option<&'a str>)
    ensures
        match r {
            Some(s) => or_null(v).text() == Some(s@),
            None => or_null(v).text() is None,
        },
{
    match v {
        Some(JsonValue::String(s)) => Some(s.as_str()),
        _ => None,
    }
}

/// The elements of an array value.
pub fn as_items<'a>(v: Option<&'a JsonValue>) -> (r: Option<&'a Vec<JsonValue>>)
    ensures
        match r {
            Some(a) => or_null(v).items() == Some(a@),
            None => or_null(v).items() is None,
        },
{
    match v {
        Some(JsonValue::Array(a)) => Some(a),
        _ => None,
    }
}

/// Whether the value is an object.
pub fn is_object(v: Option<&JsonValue>) -> (r: bool)
    ensures
        r == (or_null(v) is Object),
{
    match v {
        Some(JsonValue::Object(_)) => true,
        _ => false,
    }
}


// ----- compact JSON text -----

/// The hexadecimal digits, lowercase.
pub open spec fn hex_digits() -> Seq<char> {
    "0123456789abcdef"@
}

/// How a character is written inside a JSON string: `"` and `\` and the
/// control characters are escaped (the short forms `\b \t \n \f \r` where
/// there is one, else `\u00` and two lowercase hexadecimal digits); every other
/// character stands for itself.
pub open spec fn escape_char(c: char) -> Seq<char> {
    if c == '"' {
        "\\\""@
    } else if c == '\\' {
        "\\\\"@
    } else if c == '\u{8}' {
        "\\b"@
    } else if c == '\t' {
        "\\t"@
    } else if c == '\n' {
        "\\n"@
    } else if c == '\u{c}' {
        "\\f"@
    } else if c == '\r' {
        "\\r"@
    } else if (c as int) < 32 {
        "\\u00"@ + seq![hex_digits()[(c as int) / 16], hex_digits()[(c as int) % 16]]
    } else {
        seq![c]
    }
}

/// The characters of `s`, each written as inside a JSON string.
pub open spec fn escaped(s: Seq<char>) -> Seq<char>
    decreases s.len(),
{
    if s.len() == 0 {
        Seq::empty()
    } else {
        escaped(s.drop_last()) + escape_char(s.last())
    }
}

/// `s` as a JSON string.
pub open spec fn quoted(s: Seq<char>) -> Seq<char> {
    "\""@ + escaped(s) + "\""@
}

/// The compact JSON text of a value: no whitespace, members and elements in
/// order, separated by commas.
pub open spec fn json_text(v: JsonValue) -> Seq<char>
    decreases v, 0nat,
{
    match v {
        JsonValue::Null => "null"@,
        JsonValue::Bool(b) => if b {
            "true"@
        } else {
            "false"@
        },
        JsonValue::Number(n) => n@,
        JsonValue::String(s) => quoted(s@),
        JsonValue::Array(a) => "["@ + items_text(a@, a@.len()) + "]"@,
        JsonValue::Object(e) => "{"@ + members_text(e@, e@.len()) + "}"@,
    }
}

/// The first `n` elements of `a`, written as in a JSON array.
pub open spec fn items_text(a: Seq<JsonValue>, n: nat) -> Seq<char>
    decreases a, n,
{
    if n == 0 || n > a.len() {
        Seq::empty()
    } else if n == 1 {
        json_text(a[0])
    } else {
        items_text(a, (n - 1) as nat) + ","@ + json_text(a[n - 1])
    }
}

/// The first `n` members of `e`, written as in a JSON object.
pub open spec fn members_text(e: Seq<(String, JsonValue)>, n: nat) -> Seq<char>
    decreases e, n,
{
    if n == 0 || n > e.len() {
        Seq::empty()
    } else if n == 1 {
        quoted(e[0].0@) + ":"@ + json_text(e[0].1)
    } else {
        members_text(e, (n - 1) as nat) + ","@ + quoted(e[n - 1].0@) + ":"@ + json_text(e[n - 1].1)
    }
}

fn write_escaped(s: &str, out: &mut String)
    ensures
        final(out)@ == old(out)@ + escaped(s@),
{
    let n = s.unicode_len();
    let mut i: usize = 0;
    assert(s@.subrange(0, 0) =~= Seq::<char>::empty());
    assert(out@ =~= old(out)@ + escaped(s@.subrange(0, 0)));
    while i < n
        invariant
            n == s@.len(),
            i <= n,
            out@ == old(out)@ + escaped(s@.subrange(0, i as int)),
        decreases n - i,
    {
        let ghost before = out@;
        let c = s.get_char(i);
        assert(s@.subrange(0, i + 1).drop_last() =~= s@.subrange(0, i as int));
        assert(s@.subrange(0, i + 1).last() == c);
        if c == '"' {
            out.append("\\\"");
        } else if c == '\\' {
            out.append("\\\\");
        } else if c == '\u{8}' {
            out.append("\\b");
        } else if c == '\t' {
            out.append("\\t");
        } else if c == '\n' {
            out.append("\\n");
        } else if c == '\u{c}' {
            out.append("\\f");
        } else if c == '\r' {
            out.append("\\r");
        } else if (c as u32) < 32 {
            let code = c as u32;
            let hi = (code / 16) as usize;
            let lo = (code % 16) as usize;
            proof {
                reveal_strlit("0123456789abcdef");
            }
            out.append("\\u00");
            out.append("0123456789abcdef".substring_char(hi, hi + 1));
            out.append("0123456789abcdef".substring_char(lo, lo + 1));
            assert(out@ =~= before + escape_char(c));
        } else {
            out.append(s.substring_char(i, i + 1));
            assert(s@.subrange(i as int, i + 1) =~= seq![c]);
        }
        assert(out@ =~= old(out)@ + escaped(s@.subrange(0, i + 1)));
        i = i + 1;
    }
    assert(s@.subrange(0, n as int) =~= s@);
}

/// Appends the compact JSON text of `v` to `out`.
pub fn write_json(v: &JsonValue, out: &mut String)
    ensures
        final(out)@ == old(out)@ + json_text(*v),
    decreases v,
{
    match v {
        JsonValue::Null => out.append("null"),
        JsonValue::Bool(b) => if *b {
            out.append("true")
        } else {
            out.append("false")
        },
        JsonValue::Number(n) => out.append(n.as_str()),
        JsonValue::String(s) => {
            out.append("\"");
            write_escaped(s.as_str(), out);
            out.append("\"");
            assert(out@ =~= old(out)@ + quoted(s@));
        },
        JsonValue::Array(a) => {
            out.append("[");
            let n = a.len();
            let mut i: usize = 0;
            while i < n
                invariant
                    n == a@.len(),
                    i <= n,
                    *v == JsonValue::Array(*a),
                    out@ == old(out)@ + "["@ + items_text(a@, i as nat),
                decreases n - i,
            {
                let ghost before = out@;
                if i > 0 {
                    out.append(",");
                }
                proof {
                    broadcast use vstd::std_specs::vec::axiom_vec_decreases_to_view;

                    assert(decreases_to!(*v => (*v)->Array_0));
                    assert(decreases_to!(*a => a@));
                    assert(decreases_to!(a@ => a@[i as int]));
                }
                write_json(&a[i], out);
                assert(out@ =~= old(out)@ + "["@ + items_text(a@, (i + 1) as nat));
                i = i + 1;
            }
            out.append("]");
            assert(out@ =~= old(out)@ + json_text(*v));
        },
        JsonValue::Object(e) => {
            out.append("{");
            let n = e.len();
            let mut i: usize = 0;
            while i < n
                invariant
                    n == e@.len(),
                    i <= n,
                    *v == JsonValue::Object(*e),
                    out@ == old(out)@ + "{"@ + members_text(e@, i as nat),
                decreases n - i,
            {
                let ghost before = out@;
                if i > 0 {
                    out.append(",");
                }
                out.append("\"");
                write_escaped(e[i].0.as_str(), out);
                out.append("\":");
                proof {
                    reveal_strlit("\":");
                    reveal_strlit("\"");
                    reveal_strlit(":");
                }
                proof {
                    broadcast use vstd::std_specs::vec::axiom_vec_decreases_to_view;

                    assert(decreases_to!(*v => (*v)->Object_0));
                    assert(decreases_to!(*e => e@));
                    assert(decreases_to!(e@ => e@[i as int]));
                    assert(decreases_to!(e@[i as int] => e@[i as int].1));
                }
                write_json(&e[i].1, out);
                assert(out@ =~= old(out)@ + "{"@ + members_text(e@, (i + 1) as nat));
                i = i + 1;
            }
            out.append("}");
            assert(out@ =~= old(out)@ + json_text(*v));
        },
    }
}

/// The compact JSON text of `v`.
pub fn to_json_text(v: &JsonValue) -> (r: String)
    ensures
        r@ == json_text(*v),
{
    let mut out = String::new();
    write_json(v, &mut out);
    assert(out@ =~= json_text(*v));
    out
}

} // verus!
