//! A semi-structured value, as it appears in a log entry's field map, with a
//! fully specified compact textual rendering.
//!
//! The pipeline never interprets field values; it only carries them and
//! renders them. The rendering is the usual compact object notation: no
//! spaces, string keys and values escaped, object members in the order they
//! are stored (the field map keeps them sorted by key).

use vstd::prelude::*;
use crate::ext::push_char;
use crate::strutil::{escape_seq, push_escaped, push_i64_dec, push_u64_dec, spec_i64_dec, spec_u64_dec};

verus! {

/// A semi-structured value: null, boolean, number, string, array or map.
#[derive(Debug)]
#[verifier::ext_equal]
pub enum JsonVal {
    Null,
    Bool(bool),
    UInt(u64),
    Int(i64),
    Str(String),
    Arr(Vec<JsonVal>),
    Obj(Vec<(String, JsonVal)>),
}

/// Rendering of one value.
pub open spec fn render_json(v: JsonVal) -> Seq<char>
    decreases v, 0int,
{
    match v {
        JsonVal::Null => "null"@,
        JsonVal::Bool(b) => if b { "true"@ } else { "false"@ },
        JsonVal::UInt(n) => spec_u64_dec(n as int),
        JsonVal::Int(n) => spec_i64_dec(n as int),
        JsonVal::Str(s) => seq!['"'] + escape_seq(s@) + seq!['"'],
        JsonVal::Arr(items) => seq!['['] + render_list(items@, items@.len() as int) + seq![']'],
        JsonVal::Obj(fields) => seq!['{'] + render_members(fields@, fields@.len() as int) + seq!['}'],
    }
}

/// Rendering of the first `i` elements of an array body, comma-separated.
pub open spec fn render_list(items: Seq<JsonVal>, i: int) -> Seq<char>
    decreases items, i,
{
    if i <= 0 || i > items.len() {
        Seq::empty()
    } else if i == 1 {
        render_json(items[0])
    } else {
        render_list(items, i - 1) + seq![','] + render_json(items[i - 1])
    }
}

/// Rendering of one object member: quoted escaped key, a colon, the value.
pub open spec fn render_member(k: Seq<char>, v: JsonVal) -> Seq<char>
    decreases v, 1int,
{
    seq!['"'] + escape_seq(k) + seq!['"', ':'] + render_json(v)
}

/// Rendering of the first `i` members of an object body, comma-separated.
pub open spec fn render_members(fields: Seq<(String, JsonVal)>, i: int) -> Seq<char>
    decreases fields, i,
{
    if i <= 0 || i > fields.len() {
        Seq::empty()
    } else if i == 1 {
        render_member(fields[0].0@, fields[0].1)
    } else {
        render_members(fields, i - 1) + seq![','] + render_member(fields[i - 1].0@, fields[i - 1].1)
    }
}

/// Appends the rendering of `v` to `out`.
pub fn push_json(out: &mut String, v: &JsonVal)
    ensures
        final(out)@ == old(out)@ + render_json(*v),
    decreases v, 1int,
{
    match v {
        JsonVal::Null => {
            out.append("null");
        }
        JsonVal::Bool(b) => {
            if *b {
                out.append("true");
            } else {
                out.append("false");
            }
        }
        JsonVal::UInt(n) => {
            push_u64_dec(out, *n);
        }
        JsonVal::Int(n) => {
            push_i64_dec(out, *n);
        }
        JsonVal::Str(s) => {
            push_char(out, '"');
            push_escaped(out, s.as_str());
            push_char(out, '"');
            assert(out@ =~= old(out)@ + render_json(*v));
        }
        JsonVal::Arr(items) => {
            push_char(out, '[');
            let n = items.len();
            let mut i: usize = 0;
            while i < n
                invariant
                    i <= n,
                    n == items@.len(),
                    v == JsonVal::Arr(*items),
                    out@ == old(out)@ + seq!['['] + render_list(items@, i as int),
                decreases n - i,
            {
                if i > 0 {
                    push_char(out, ',');
                }
                proof {
                    assert(*items == v->Arr_0);
                    assert(decreases_to!(*v => v->Arr_0@[i as int]));
                }
                push_json(out, &items[i]);
                proof {
                    assert(out@ =~= old(out)@ + seq!['['] + render_list(items@, i as int + 1));
                }
                i = i + 1;
            }
            push_char(out, ']');
            assert(out@ =~= old(out)@ + render_json(*v));
        }
        JsonVal::Obj(fields) => {
            push_char(out, '{');
            proof {
                assert(*fields == v->Obj_0);
                assert(decreases_to!(*v => v->Obj_0));
            }
            push_members(out, fields);
            push_char(out, '}');
            assert(out@ =~= old(out)@ + render_json(*v));
        }
    }
}

/// Appends the comma-separated members of a field map, in storage order.
pub fn push_members(out: &mut String, fields: &Vec<(String, JsonVal)>)
    ensures
        final(out)@ == old(out)@ + render_members(fields@, fields@.len() as int),
    decreases fields, 0int,
{
    let n = fields.len();
    let mut i: usize = 0;
    while i < n
        invariant
            i <= n,
            n == fields@.len(),
            out@ == old(out)@ + render_members(fields@, i as int),
        decreases n - i,
    {
        if i > 0 {
            push_char(out, ',');
        }
        push_char(out, '"');
        push_escaped(out, fields[i].0.as_str());
        push_char(out, '"');
        push_char(out, ':');
        proof {
            assert(decreases_to!(*fields => fields@[i as int].1));
        }
        push_json(out, &fields[i].1);
        proof {
            let k = fields@[i as int].0@;
            let val = fields@[i as int].1;
            assert(render_member(k, val) =~= seq!['"'] + escape_seq(k) + seq!['"', ':'] + render_json(val));
            if i == 0 {
                assert(render_members(fields@, 1) =~= render_member(fields@[0].0@, fields@[0].1));
            } else {
                assert(render_members(fields@, i as int + 1) =~= render_members(fields@, i as int)
                    + seq![','] + render_member(k, val));
            }
            assert(out@ =~= old(out)@ + render_members(fields@, i as int + 1));
        }
        i = i + 1;
    }
}

/// Renders `v` on its own.
pub fn render_json_string(v: &JsonVal) -> (r: String)
    ensures
        r@ == render_json(*v),
{
    let mut out = String::new();
    push_json(&mut out, v);
    proof {
        assert(out@ =~= render_json(*v));
    }
    out
}

} // verus!
