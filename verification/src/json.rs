//! The library's model of a JSON document.
//!
//! A backend response is a tree of nulls, booleans, numbers, strings, arrays
//! and objects. The model keeps an object as a sequence of key/value pairs in
//! document order, and a number as its wire lexeme together with the two
//! integer readings the rest of the library needs: the exact unsigned value,
//! when the wire number is one, and the value truncated toward zero.
use vstd::prelude::*;

verus! {

use vstd::string::StrSliceExecFns;
use vstd::string::StringExecFns;
use crate::strutil::str_eq;

broadcast use vstd::seq::axiom_seq_index_decreases, vstd::std_specs::vec::axiom_vec_index_decreases, vstd::std_specs::vec::axiom_vec_decreases_to_view;

/// A JSON number. `text` is the lexeme as the wire gave it; `int_val` is
/// `Some(n)` exactly when the wire number is the unsigned integer `n`;
/// `trunc` is the wire number truncated toward zero and clamped to `u64`
/// (zero for anything below zero).
#[derive(Debug, PartialEq)]
pub struct JsonNum {
    pub text: String,
    pub int_val: Option<u64>,
    pub trunc: u64,
}

/// A JSON value.
#[derive(Debug, PartialEq)]
pub enum JsonValue {
    Null,
    Bool(bool),
    Num(JsonNum),
    Str(String),
    Arr(Vec<JsonValue>),
    Obj(Vec<(String, JsonValue)>),
}

/// The value at `key` in a pair sequence: the first binding wins, a missing
/// key reads as `Null`, as it does when a JSON object is indexed.
pub open spec fn lookup_pairs(ps: Seq<(String, JsonValue)>, key: Seq<char>) -> JsonValue
    decreases ps.len(),
{
    if ps.len() == 0 {
        JsonValue::Null
    } else if ps[0].0@ == key {
        ps[0].1
    } else {
        lookup_pairs(ps.drop_first(), key)
    }
}

pub open spec fn has_key_pairs(ps: Seq<(String, JsonValue)>, key: Seq<char>) -> bool {
    exists|i: int| 0 <= i < ps.len() && ps[i].0@ == key
}

/// Indexing a value by a field name: `Null` on anything but an object that
/// carries the field.
pub open spec fn json_lookup(v: JsonValue, key: Seq<char>) -> JsonValue {
    match v {
        JsonValue::Obj(ps) => lookup_pairs(ps@, key),
        _ => JsonValue::Null,
    }
}

/// Whether `v` is an object with a binding for `key`.
pub open spec fn json_has(v: JsonValue, key: Seq<char>) -> bool {
    match v {
        JsonValue::Obj(ps) => has_key_pairs(ps@, key),
        _ => false,
    }
}

pub open spec fn spec_as_str(v: JsonValue) -> Option<Seq<char>> {
    match v {
        JsonValue::Str(s) => Some(s@),
        _ => None,
    }
}

pub open spec fn spec_as_u64(v: JsonValue) -> Option<u64> {
    match v {
        JsonValue::Num(n) => n.int_val,
        _ => None,
    }
}

pub open spec fn spec_as_bool(v: JsonValue) -> Option<bool> {
    match v {
        JsonValue::Bool(b) => Some(b),
        _ => None,
    }
}

/// The number truncated toward zero, zero for anything that is not a number:
/// what reading the value as a float and casting to `u64` gives.
pub open spec fn spec_trunc_u64(v: JsonValue) -> u64 {
    match v {
        JsonValue::Num(n) => n.trunc,
        _ => 0,
    }
}

impl JsonValue {
    /// Looks `key` up in an object value. `None` means the field is absent
    /// (or the value is no object); indexing semantics then read it as `Null`.
    #[verifier::loop_isolation(false)]
    pub fn index<'a>(&'a self, key: &str) -> (r: Option<&'a JsonValue>)
        ensures
            match r {
                Some(x) => json_has(*self, key@) && *x == json_lookup(*self, key@),
                None => !json_has(*self, key@) && json_lookup(*self, key@) == JsonValue::Null,
            },
    {
        match self {
            JsonValue::Obj(ps) => {
                let n = ps.len();
                let mut i: usize = 0;
                proof {
                    assert(ps@.skip(0) =~= ps@);
                }
                while i < n
                    invariant
                        i <= n,
                        n == ps@.len(),
                        forall|k: int| 0 <= k < i ==> ps@[k].0@ != key@,
                        lookup_pairs(ps@, key@) == lookup_pairs(ps@.skip(i as int), key@),
                    decreases n - i,
                {
                    if str_eq(ps[i].0.as_str(), key) {
                        proof {
                            let s = ps@.skip(i as int);
                            assert(s[0] == ps@[i as int]);
                            assert(ps@[i as int].0@ == key@);
                            assert(has_key_pairs(ps@, key@));
                            assert(lookup_pairs(s, key@) == s[0].1);
                        }
                        return Some(&ps[i].1);
                    }
                    proof {
                        let s = ps@.skip(i as int);
                        assert(s[0] == ps@[i as int]);
                        assert(s.drop_first() =~= ps@.skip(i + 1));
                    }
                    i = i + 1;
                }
                proof {
                    assert(ps@.skip(i as int).len() == 0);
                    assert(forall|k: int|
                        0 <= k < ps@.len() ==> ps@[k].0@ != key@);
                }
                None
            },
            _ => None,
        }
    }

    /// The string content when the value is a string.
    pub fn as_str<'a>(&'a self) -> (r: Option<&'a str>)
        ensures
            match r {
                Some(s) => spec_as_str(*self) == Some(s@),
                None => spec_as_str(*self) is None,
            },
    {
        match self {
            JsonValue::Str(s) => Some(s.as_str()),
            _ => None,
        }
    }

    /// The exact unsigned integer when the value is one on the wire.
    pub fn as_u64(&self) -> (r: Option<u64>)
        ensures
            r == spec_as_u64(*self),
    {
        match self {
            JsonValue::Num(n) => n.int_val,
            _ => None,
        }
    }

    /// The boolean content when the value is a boolean.
    pub fn as_bool(&self) -> (r: Option<bool>)
        ensures
            r == spec_as_bool(*self),
    {
        match self {
            JsonValue::Bool(b) => Some(*b),
            _ => None,
        }
    }

    /// The number truncated toward zero, zero for anything else.
    pub fn trunc_u64(&self) -> (r: u64)
        ensures
            r == spec_trunc_u64(*self),
    {
        match self {
            JsonValue::Num(n) => n.trunc,
            _ => 0,
        }
    }

    /// Pretty-prints the value: two-space indentation, each array element
    /// and object member on a line of its own, a space after each colon.
    pub fn to_pretty_string(&self) -> (r: String)
        ensures
            r@ == json_pretty(*self, 0),
    {
        let mut out = String::new();
        push_json(&mut out, self, 0);
        out
    }
}

/// The lower-case hexadecimal digit character for a value below sixteen.
pub open spec fn hex_digit(d: int) -> char {
    if d < 10 {
        crate::strutil::dec_digit(d)
    } else if d == 10 {
        'a'
    } else if d == 11 {
        'b'
    } else if d == 12 {
        'c'
    } else if d == 13 {
        'd'
    } else if d == 14 {
        'e'
    } else {
        'f'
    }
}

/// How one character appears inside a JSON string literal: quote and
/// backslash are escaped, control characters get their short escape or a
/// `\u00..` form, everything else stands as itself.
pub open spec fn escape_char(c: char) -> Seq<char> {
    if c == '"' {
        "\\\""@
    } else if c == '\\' {
        "\\\\"@
    } else if c == '\n' {
        "\\n"@
    } else if c == '\r' {
        "\\r"@
    } else if c == '\t' {
        "\\t"@
    } else if c == '\u{8}' {
        "\\b"@
    } else if c == '\u{c}' {
        "\\f"@
    } else if (c as int) < 32 {
        "\\u00"@ + seq![hex_digit((c as int) / 16), hex_digit((c as int) % 16)]
    } else {
        seq![c]
    }
}

/// A string's characters, each escaped.
pub open spec fn escape_str(s: Seq<char>) -> Seq<char>
    decreases s.len(),
{
    if s.len() == 0 {
        Seq::empty()
    } else {
        escape_char(s[0]) + escape_str(s.drop_first())
    }
}

/// `n` spaces.
pub open spec fn spaces(n: nat) -> Seq<char>
    decreases n,
{
    if n == 0 {
        Seq::empty()
    } else {
        spaces((n - 1) as nat) + " "@
    }
}

/// The indentation one level deeper. It saturates at the machine limit,
/// where no real document can arrive.
pub open spec fn bump(ind: nat) -> nat {
    if ind + 2 <= usize::MAX {
        (ind + 2) as nat
    } else {
        ind
    }
}

/// The pretty rendering of a value standing at indentation `ind`.
pub open spec fn json_pretty(v: JsonValue, ind: nat) -> Seq<char>
    decreases v, 1int,
{
    match v {
        JsonValue::Null => "null"@,
        JsonValue::Bool(b) => if b {
            "true"@
        } else {
            "false"@
        },
        JsonValue::Num(n) => n.text@,
        JsonValue::Str(s) => "\""@ + escape_str(s@) + "\""@,
        JsonValue::Arr(items) => if items@.len() == 0 {
            "[]"@
        } else {
            "["@ + pretty_items(items@, bump(ind)) + "\n"@ + spaces(ind) + "]"@
        },
        JsonValue::Obj(ps) => if ps@.len() == 0 {
            "{}"@
        } else {
            "{"@ + pretty_pairs(ps@, bump(ind)) + "\n"@ + spaces(ind) + "}"@
        },
    }
}

/// Array elements, one per line at indentation `ind`, separated by commas.
pub open spec fn pretty_items(items: Seq<JsonValue>, ind: nat) -> Seq<char>
    decreases items, 0int,
{
    if items.len() == 0 {
        Seq::empty()
    } else {
        let head = "\n"@ + spaces(ind) + json_pretty(items[0], ind);
        if items.len() == 1 {
            head
        } else {
            head + ","@ + pretty_items(items.drop_first(), ind)
        }
    }
}

/// Object members, one per line at indentation `ind`, separated by commas.
pub open spec fn pretty_pairs(ps: Seq<(String, JsonValue)>, ind: nat) -> Seq<char>
    decreases ps, 0int,
{
    if ps.len() == 0 {
        Seq::empty()
    } else {
        let head = "\n"@ + spaces(ind) + "\""@ + escape_str(ps[0].0@) + "\": "@ + json_pretty(
            ps[0].1,
            ind,
        );
        if ps.len() == 1 {
            head
        } else {
            head + ","@ + pretty_pairs(ps.drop_first(), ind)
        }
    }
}

proof fn lemma_pretty_items_push(items: Seq<JsonValue>, x: JsonValue, ind: nat)
    ensures
        pretty_items(items.push(x), ind) == pretty_items(items, ind) + (if items.len() == 0 {
            Seq::<char>::empty()
        } else {
            ","@
        }) + "\n"@ + spaces(ind) + json_pretty(x, ind),
    decreases items.len(),
{
    let w = items.push(x);
    if items.len() == 0 {
        assert(w.len() == 1);
        assert(w[0] == x);
        assert(pretty_items(w, ind) =~= pretty_items(items, ind) + Seq::<char>::empty() + "\n"@
            + spaces(ind) + json_pretty(x, ind));
    } else {
        assert(w[0] == items[0]);
        assert(w.drop_first() =~= items.drop_first().push(x));
        lemma_pretty_items_push(items.drop_first(), x, ind);
        assert(pretty_items(w, ind) =~= pretty_items(items, ind) + ","@ + "\n"@ + spaces(ind)
            + json_pretty(x, ind));
    }
}

proof fn lemma_pretty_pairs_push(ps: Seq<(String, JsonValue)>, x: (String, JsonValue), ind: nat)
    ensures
        pretty_pairs(ps.push(x), ind) == pretty_pairs(ps, ind) + (if ps.len() == 0 {
            Seq::<char>::empty()
        } else {
            ","@
        }) + "\n"@ + spaces(ind) + "\""@ + escape_str(x.0@) + "\": "@ + json_pretty(x.1, ind),
    decreases ps.len(),
{
    let w = ps.push(x);
    if ps.len() == 0 {
        assert(w.len() == 1);
        assert(w[0] == x);
        assert(pretty_pairs(w, ind) =~= pretty_pairs(ps, ind) + Seq::<char>::empty() + "\n"@
            + spaces(ind) + "\""@ + escape_str(x.0@) + "\": "@ + json_pretty(x.1, ind));
    } else {
        assert(w[0] == ps[0]);
        assert(w.drop_first() =~= ps.drop_first().push(x));
        lemma_pretty_pairs_push(ps.drop_first(), x, ind);
        assert(pretty_pairs(w, ind) =~= pretty_pairs(ps, ind) + ","@ + "\n"@ + spaces(ind) + "\""@
            + escape_str(x.0@) + "\": "@ + json_pretty(x.1, ind));
    }
}

proof fn lemma_escape_push(s: Seq<char>, c: char)
    ensures
        escape_str(s.push(c)) == escape_str(s) + escape_char(c),
    decreases s.len(),
{
    let w = s.push(c);
    if s.len() == 0 {
        assert(w[0] == c);
        assert(w.drop_first() =~= Seq::<char>::empty());
        assert(escape_str(w.drop_first()) =~= Seq::<char>::empty());
        assert(escape_str(w) =~= escape_str(s) + escape_char(c));
    } else {
        assert(w[0] == s[0]);
        assert(w.drop_first() =~= s.drop_first().push(c));
        lemma_escape_push(s.drop_first(), c);
        assert(escape_str(w) =~= escape_str(s) + escape_char(c));
    }
}

/// The one-character string slice for a lower-case hexadecimal digit.
fn hex_digit_str(d: u64) -> (c: &'static str)
    requires
        d < 16,
    ensures
        c@ == seq![hex_digit(d as int)],
{
    if d < 10 {
        crate::strutil::dec_digit_str(d)
    } else {
        proof {
            reveal_strlit("a");
            reveal_strlit("b");
            reveal_strlit("c");
            reveal_strlit("d");
            reveal_strlit("e");
            reveal_strlit("f");
        }
        let r: &'static str = if d == 10 {
            "a"
        } else if d == 11 {
            "b"
        } else if d == 12 {
            "c"
        } else if d == 13 {
            "d"
        } else if d == 14 {
            "e"
        } else {
            "f"
        };
        proof {
            assert(r@ =~= seq![hex_digit(d as int)]);
        }
        r
    }
}

#[verifier::loop_isolation(false)]
fn push_spaces(out: &mut String, n: usize)
    ensures
        final(out)@ == old(out)@ + spaces(n as nat),
{
    let mut i: usize = 0;
    proof {
        assert(out@ =~= old(out)@ + spaces(0));
    }
    while i < n
        invariant
            i <= n,
            out@ == old(out)@ + spaces(i as nat),
        decreases n - i,
    {
        out.append(" ");
        i = i + 1;
    }
}

#[verifier::loop_isolation(false)]
fn push_escaped(out: &mut String, s: &str)
    ensures
        final(out)@ == old(out)@ + escape_str(s@),
{
    let len = s.unicode_len();
    let mut i: usize = 0;
    proof {
        assert(s@.take(0) =~= Seq::<char>::empty());
        assert(out@ =~= old(out)@ + escape_str(s@.take(0)));
    }
    while i < len
        invariant
            i <= len,
            len == s@.len(),
            out@ == old(out)@ + escape_str(s@.take(i as int)),
        decreases len - i,
    {
        let c = s.get_char(i);
        if c == '"' {
            out.append("\\\"");
        } else if c == '\\' {
            out.append("\\\\");
        } else if c == '\n' {
            out.append("\\n");
        } else if c == '\r' {
            out.append("\\r");
        } else if c == '\t' {
            out.append("\\t");
        } else if c == '\u{8}' {
            out.append("\\b");
        } else if c == '\u{c}' {
            out.append("\\f");
        } else if (c as u32) < 32 {
            out.append("\\u00");
            out.append(hex_digit_str(((c as u32) / 16) as u64));
            out.append(hex_digit_str(((c as u32) % 16) as u64));
            proof {
                assert(escape_char(c) =~= "\\u00"@ + seq![
                    hex_digit((c as int) / 16),
                    hex_digit((c as int) % 16),
                ]);
            }
        } else {
            let piece = s.substring_char(i, i + 1);
            proof {
                assert(piece@ =~= seq![s@[i as int]]);
                assert(escape_char(c) =~= seq![c]);
            }
            out.append(piece);
        }
        proof {
            lemma_escape_push(s@.take(i as int), c);
            assert(s@.take(i + 1) =~= s@.take(i as int).push(c));
        }
        i = i + 1;
    }
    proof {
        assert(s@.take(len as int) =~= s@);
    }
}

#[verifier::loop_isolation(false)]
fn push_json(out: &mut String, v: &JsonValue, ind: usize)
    ensures
        final(out)@ == old(out)@ + json_pretty(*v, ind as nat),
    decreases *v, 1int,
{
    match v {
        JsonValue::Null => {
            out.append("null");
        },
        JsonValue::Bool(b) => {
            if *b {
                out.append("true");
            } else {
                out.append("false");
            }
        },
        JsonValue::Num(n) => {
            out.append(n.text.as_str());
        },
        JsonValue::Str(s) => {
            out.append("\"");
            push_escaped(out, s.as_str());
            out.append("\"");
        },
        JsonValue::Arr(items) => {
            push_array(out, items, ind);
        },
        JsonValue::Obj(ps) => {
            push_object(out, ps, ind);
        },
    }
}

/// The indentation one level deeper, as the printer computes it.
fn bump_exec(ind: usize) -> (r: usize)
    ensures
        r as nat == bump(ind as nat),
{
    if ind <= usize::MAX - 2 {
        ind + 2
    } else {
        ind
    }
}

#[verifier::loop_isolation(false)]
fn push_array(out: &mut String, items: &Vec<JsonValue>, ind: usize)
    ensures
        final(out)@ == old(out)@ + json_pretty(JsonValue::Arr(*items), ind as nat),
    decreases items@, 0int,
{
    let ind2 = bump_exec(ind);
    let count = items.len();
    if count == 0 {
        out.append("[]");
        return;
    }
    out.append("[");
    let ghost start = out@;
    let mut j: usize = 0;
    proof {
        assert(items@.take(0) =~= Seq::<JsonValue>::empty());
    }
    while j < count
        invariant
            j <= count,
            out@ == start + pretty_items(items@.take(j as int), ind2 as nat),
        decreases count - j,
    {
        if j > 0 {
            out.append(",");
        }
        out.append("\n");
        push_spaces(out, ind2);
        push_json(out, &items[j], ind2);
        proof {
            lemma_pretty_items_push(items@.take(j as int), items@[j as int], ind2 as nat);
            assert(items@.take(j + 1) =~= items@.take(j as int).push(items@[j as int]));
        }
        j = j + 1;
    }
    proof {
        assert(items@.take(count as int) =~= items@);
    }
    out.append("\n");
    push_spaces(out, ind);
    out.append("]");
}

#[verifier::loop_isolation(false)]
#[verifier::rlimit(100)]
#[verifier::spinoff_prover]
fn push_object(out: &mut String, ps: &Vec<(String, JsonValue)>, ind: usize)
    ensures
        final(out)@ == old(out)@ + json_pretty(JsonValue::Obj(*ps), ind as nat),
    decreases ps@, 0int,
{
    let ind2 = bump_exec(ind);
    let count = ps.len();
    if count == 0 {
        out.append("{}");
        return;
    }
    out.append("{");
    let ghost start = out@;
    let mut j: usize = 0;
    proof {
        assert(ps@.take(0) =~= Seq::<(String, JsonValue)>::empty());
    }
    while j < count
        invariant
            j <= count,
            out@ == start + pretty_pairs(ps@.take(j as int), ind2 as nat),
        decreases count - j,
    {
        if j > 0 {
            out.append(",");
        }
        out.append("\n");
        push_spaces(out, ind2);
        out.append("\"");
        push_escaped(out, ps[j].0.as_str());
        out.append("\": ");
        push_json(out, &ps[j].1, ind2);
        proof {
            lemma_pretty_pairs_push(ps@.take(j as int), ps@[j as int], ind2 as nat);
            assert(ps@.take(j + 1) =~= ps@.take(j as int).push(ps@[j as int]));
        }
        j = j + 1;
    }
    proof {
        assert(ps@.take(count as int) =~= ps@);
    }
    out.append("\n");
    push_spaces(out, ind);
    out.append("}");
}

} // verus!
