//! A small JSON document model and a verified renderer.
//!
//! The canonical schema is encoded into `JsonValue` trees (see `codec`) and
//! rendered from there as compact JSON text. The renderer is deterministic:
//! its output is exactly the `json_text` of the value's view, so equal
//! values render to identical text. Object fields keep their writing order.

use vstd::prelude::*;

verus! {

/// A JSON value. `Object` keeps its fields in writing order; this crate
/// never reorders or deduplicates them.
pub enum JsonValue {
    Null,
    Number(u32),
    Str(String),
    Array(Vec<JsonValue>),
    Object(Vec<(String, JsonValue)>),
}

/// Ghost view of `JsonValue`.
#[verifier::ext_equal]
pub enum JsonValueView {
    Null,
    Number(u32),
    Str(Seq<char>),
    Array(Seq<JsonValueView>),
    Object(Seq<(Seq<char>, JsonValueView)>),
}

pub open spec fn jv_view(v: JsonValue) -> JsonValueView
    decreases v,
{
    match v {
        JsonValue::Null => JsonValueView::Null,
        JsonValue::Number(n) => JsonValueView::Number(n),
        JsonValue::Str(s) => JsonValueView::Str(s@),
        JsonValue::Array(elems) => JsonValueView::Array(jv_seq_view(elems@)),
        JsonValue::Object(fields) => JsonValueView::Object(jv_fields_view(fields@)),
    }
}

pub open spec fn jv_seq_view(s: Seq<JsonValue>) -> Seq<JsonValueView>
    decreases s,
{
    if s.len() == 0 {
        Seq::empty()
    } else {
        jv_seq_view(s.drop_last()).push(jv_view(s.last()))
    }
}

pub open spec fn jv_fields_view(s: Seq<(String, JsonValue)>) -> Seq<(Seq<char>, JsonValueView)>
    decreases s,
{
    if s.len() == 0 {
        Seq::empty()
    } else {
        jv_fields_view(s.drop_last()).push((s.last().0@, jv_view(s.last().1)))
    }
}

pub proof fn lemma_jv_seq_view_index(s: Seq<JsonValue>, i: int)
    requires
        0 <= i < s.len(),
    ensures
        jv_seq_view(s).len() == s.len(),
        jv_seq_view(s)[i] == jv_view(s[i]),
    decreases s.len(),
{
    lemma_jv_seq_view_len(s);
    lemma_jv_seq_view_len(s.drop_last());
    if i < s.len() - 1 {
        lemma_jv_seq_view_index(s.drop_last(), i);
    }
}

pub proof fn lemma_jv_seq_view_len(s: Seq<JsonValue>)
    ensures
        jv_seq_view(s).len() == s.len(),
    decreases s.len(),
{
    if s.len() > 0 {
        lemma_jv_seq_view_len(s.drop_last());
    }
}

pub proof fn lemma_jv_fields_view_index(s: Seq<(String, JsonValue)>, i: int)
    requires
        0 <= i < s.len(),
    ensures
        jv_fields_view(s).len() == s.len(),
        jv_fields_view(s)[i] == (s[i].0@, jv_view(s[i].1)),
    decreases s.len(),
{
    lemma_jv_fields_view_len(s);
    lemma_jv_fields_view_len(s.drop_last());
    if i < s.len() - 1 {
        lemma_jv_fields_view_index(s.drop_last(), i);
    }
}

pub proof fn lemma_jv_seq_view_push(s: Seq<JsonValue>, x: JsonValue)
    ensures
        jv_seq_view(s.push(x)) == jv_seq_view(s).push(jv_view(x)),
{
    assert(s.push(x).drop_last() =~= s);
    assert(s.push(x).last() == x);
}

pub proof fn lemma_jv_fields_view_push(s: Seq<(String, JsonValue)>, p: (String, JsonValue))
    ensures
        jv_fields_view(s.push(p)) == jv_fields_view(s).push((p.0@, jv_view(p.1))),
{
    assert(s.push(p).drop_last() =~= s);
    assert(s.push(p).last() == p);
}

pub proof fn lemma_jv_fields_view_len(s: Seq<(String, JsonValue)>)
    ensures
        jv_fields_view(s).len() == s.len(),
    decreases s.len(),
{
    if s.len() > 0 {
        lemma_jv_fields_view_len(s.drop_last());
    }
}

/// How one character is written inside a JSON string literal: quotes and
/// backslashes get a backslash escape, every other character stands as
/// itself.
pub open spec fn escape_char(c: char) -> Seq<char> {
    if c == '"' || c == '\\' {
        seq!['\\', c]
    } else {
        seq![c]
    }
}

pub open spec fn escape_text(s: Seq<char>) -> Seq<char>
    decreases s.len(),
{
    if s.len() == 0 {
        Seq::empty()
    } else {
        escape_text(s.drop_last()) + escape_char(s.last())
    }
}

pub open spec fn digit_char(d: nat) -> char
    recommends
        d < 10,
{
    if d == 0 {
        '0'
    } else if d == 1 {
        '1'
    } else if d == 2 {
        '2'
    } else if d == 3 {
        '3'
    } else if d == 4 {
        '4'
    } else if d == 5 {
        '5'
    } else if d == 6 {
        '6'
    } else if d == 7 {
        '7'
    } else if d == 8 {
        '8'
    } else {
        '9'
    }
}

/// The decimal digits of `n`, most significant first, with no leading zero
/// except for `n == 0` itself.
pub open spec fn dec_digits(n: nat) -> Seq<char>
    decreases n,
{
    if n < 10 {
        seq![digit_char(n)]
    } else {
        dec_digits(n / 10).push(digit_char(n % 10))
    }
}

/// The compact JSON text of a value: no whitespace, fields and elements in
/// order, strings quoted and escaped.
pub open spec fn json_text(v: JsonValueView) -> Seq<char>
    decreases v,
{
    match v {
        JsonValueView::Null => "null"@,
        JsonValueView::Number(n) => dec_digits(n as nat),
        JsonValueView::Str(s) => seq!['"'] + escape_text(s) + seq!['"'],
        JsonValueView::Array(elems) => seq!['['] + json_text_elems(elems) + seq![']'],
        JsonValueView::Object(fields) => seq!['{'] + json_text_fields(fields) + seq!['}'],
    }
}

pub open spec fn json_text_elems(s: Seq<JsonValueView>) -> Seq<char>
    decreases s,
{
    if s.len() == 0 {
        Seq::empty()
    } else if s.len() == 1 {
        json_text(s.last())
    } else {
        json_text_elems(s.drop_last()) + seq![','] + json_text(s.last())
    }
}

pub open spec fn json_text_fields(s: Seq<(Seq<char>, JsonValueView)>) -> Seq<char>
    decreases s,
{
    if s.len() == 0 {
        Seq::empty()
    } else if s.len() == 1 {
        json_text_field(s.last())
    } else {
        json_text_fields(s.drop_last()) + seq![','] + json_text_field(s.last())
    }
}

pub open spec fn json_text_field(f: (Seq<char>, JsonValueView)) -> Seq<char>
    decreases f,
{
    seq!['"'] + escape_text(f.0) + seq!['"', ':'] + json_text(f.1)
}

proof fn lemma_text_elems_take_step(s: Seq<JsonValueView>, i: int)
    requires
        0 <= i < s.len(),
    ensures
        i == 0 ==> json_text_elems(s.take(1)) == json_text(s[0]),
        i > 0 ==> json_text_elems(s.take(i + 1)) == json_text_elems(s.take(i)) + seq![',']
            + json_text(s[i]),
{
    assert(s.take(i + 1).drop_last() =~= s.take(i));
    assert(s.take(i + 1).last() == s[i]);
}

proof fn lemma_text_fields_take_step(s: Seq<(Seq<char>, JsonValueView)>, i: int)
    requires
        0 <= i < s.len(),
    ensures
        i == 0 ==> json_text_fields(s.take(1)) == json_text_field(s[0]),
        i > 0 ==> json_text_fields(s.take(i + 1)) == json_text_fields(s.take(i)) + seq![',']
            + json_text_field(s[i]),
{
    assert(s.take(i + 1).drop_last() =~= s.take(i));
    assert(s.take(i + 1).last() == s[i]);
}

/// Relies on `String::push`: appends the given character to the end of the
/// string, leaving the earlier contents in place.
#[verifier::external_body]
fn push_char(s: &mut String, c: char)
    ensures
        final(s)@ == old(s)@.push(c),
{
    s.push(c)
}

fn push_digit(d: u32, out: &mut String)
    requires
        d < 10,
    ensures
        final(out)@ == old(out)@.push(digit_char(d as nat)),
{
    let c: char = if d == 0 {
        '0'
    } else if d == 1 {
        '1'
    } else if d == 2 {
        '2'
    } else if d == 3 {
        '3'
    } else if d == 4 {
        '4'
    } else if d == 5 {
        '5'
    } else if d == 6 {
        '6'
    } else if d == 7 {
        '7'
    } else if d == 8 {
        '8'
    } else {
        '9'
    };
    push_char(out, c);
}

fn push_u32_digits(n: u32, out: &mut String)
    ensures
        final(out)@ == old(out)@ + dec_digits(n as nat),
    decreases n,
{
    if n < 10 {
        push_digit(n, out);
        proof {
            assert(old(out)@ + dec_digits(n as nat) =~= old(out)@.push(digit_char(n as nat)));
        }
    } else {
        push_u32_digits(n / 10, out);
        push_digit(n % 10, out);
        proof {
            assert(old(out)@ + dec_digits(n as nat) =~= (old(out)@ + dec_digits(
                (n / 10) as nat,
            )).push(digit_char((n % 10) as nat)));
        }
    }
}

proof fn lemma_escape_take_step(s: Seq<char>, i: int)
    requires
        0 <= i < s.len(),
    ensures
        escape_text(s.take(i + 1)) == escape_text(s.take(i)) + escape_char(s[i]),
{
    assert(s.take(i + 1).drop_last() =~= s.take(i));
    assert(s.take(i + 1).last() == s[i]);
}

fn push_escaped(s: &str, out: &mut String)
    ensures
        final(out)@ == old(out)@ + escape_text(s@),
{
    let len = s.unicode_len();
    let mut i: usize = 0;
    while i < len
        invariant
            i <= len,
            len == s@.len(),
            out@ == old(out)@ + escape_text(s@.take(i as int)),
        decreases len - i,
    {
        let c = s.get_char(i);
        proof {
            lemma_escape_take_step(s@, i as int);
        }
        if c == '"' || c == '\\' {
            push_char(out, '\\');
            push_char(out, c);
            proof {
                assert(old(out)@ + escape_text(s@.take(i + 1)) =~= (old(out)@ + escape_text(
                    s@.take(i as int),
                )).push('\\').push(c));
            }
        } else {
            push_char(out, c);
            proof {
                assert(old(out)@ + escape_text(s@.take(i + 1)) =~= (old(out)@ + escape_text(
                    s@.take(i as int),
                )).push(c));
            }
        }
        i += 1;
    }
    proof {
        assert(s@.take(len as int) =~= s@);
    }
}

/// Appends the compact JSON text of `v`.
#[verifier::loop_isolation(false)]
pub fn render_into(v: &JsonValue, out: &mut String)
    ensures
        final(out)@ == old(out)@ + json_text(jv_view(*v)),
    decreases *v,
{
    match v {
        JsonValue::Null => {
            out.append("null");
        },
        JsonValue::Number(n) => {
            push_u32_digits(*n, out);
        },
        JsonValue::Str(s) => {
            push_char(out, '"');
            push_escaped(s.as_str(), out);
            push_char(out, '"');
            proof {
                assert(old(out)@ + json_text(jv_view(*v)) =~= ((old(out)@.push('"')) + escape_text(
                    s@,
                )).push('"'));
            }
        },
        JsonValue::Array(elems) => {
            push_char(out, '[');
            let ghost evs = jv_seq_view(elems@);
            proof {
                lemma_jv_seq_view_len(elems@);
            }
            let mut i: usize = 0;
            while i < elems.len()
                invariant
                    i <= elems.len(),
                    out@ == old(out)@.push('[') + json_text_elems(evs.take(i as int)),
                decreases elems@.len() - i,
            {
                if i > 0 {
                    push_char(out, ',');
                }
                proof {
                    lemma_jv_seq_view_index(elems@, i as int);
                    assert(decreases_to!(*v => *elems));
                    assert(decreases_to!(*elems => elems@));
                    assert(decreases_to!(elems@ => elems@[i as int]));
                }
                render_into(&elems[i], out);
                proof {
                    lemma_text_elems_take_step(evs, i as int);
                    assert(out@ =~= old(out)@.push('[') + json_text_elems(evs.take(i + 1)));
                }
                i += 1;
            }
            push_char(out, ']');
            proof {
                assert(evs.take(elems@.len() as int) =~= evs);
                assert(old(out)@ + json_text(jv_view(*v)) =~= (old(out)@.push('[')
                    + json_text_elems(evs)).push(']'));
            }
        },
        JsonValue::Object(fields) => {
            push_char(out, '{');
            let ghost fvs = jv_fields_view(fields@);
            proof {
                lemma_jv_fields_view_len(fields@);
            }
            let mut i: usize = 0;
            while i < fields.len()
                invariant
                    i <= fields.len(),
                    out@ == old(out)@.push('{') + json_text_fields(fvs.take(i as int)),
                decreases fields@.len() - i,
            {
                if i > 0 {
                    push_char(out, ',');
                }
                proof {
                    lemma_jv_fields_view_index(fields@, i as int);
                }
                push_char(out, '"');
                push_escaped(fields[i].0.as_str(), out);
                push_char(out, '"');
                push_char(out, ':');
                proof {
                    assert(decreases_to!(*v => *fields));
                    assert(decreases_to!(*fields => fields@));
                    assert(decreases_to!(fields@ => fields@[i as int]));
                    assert(decreases_to!(fields@[i as int] => fields@[i as int].1));
                }
                render_into(&fields[i].1, out);
                proof {
                    lemma_text_fields_take_step(fvs, i as int);
                    assert(out@ =~= old(out)@.push('{') + json_text_fields(fvs.take(i + 1)));
                }
                i += 1;
            }
            push_char(out, '}');
            proof {
                assert(fvs.take(fields@.len() as int) =~= fvs);
                assert(old(out)@ + json_text(jv_view(*v)) =~= (old(out)@.push('{')
                    + json_text_fields(fvs)).push('}'));
            }
        },
    }
}

/// The compact JSON text of `v`, as a fresh string.
pub fn render(v: &JsonValue) -> (r: String)
    ensures
        r@ == json_text(jv_view(*v)),
{
    let mut out = String::new();
    render_into(v, &mut out);
    proof {
        assert(Seq::<char>::empty() + json_text(jv_view(*v)) =~= json_text(jv_view(*v)));
    }
    out
}

} // verus!
