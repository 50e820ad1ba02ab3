//! Request parameters and their two encodings: URL query pairs and a JSON
//! object body. Absent parameters appear in neither.
use vstd::prelude::*;
use vstd::string::StringExecFns;

use crate::auth::headers_view;
use crate::digits::{int_text, push_int};
use crate::fixed9::{canonical_text, Fixed9};
use crate::json::{json_quote, json_string_literal};
use crate::text::owned;

verus! {

/// The value of one request parameter.
#[derive(Clone, Debug)]
pub enum ParamValue {
    Absent,
    Text(String),
    List(Vec<String>),
    Flag(bool),
    Int(i64),
    Decimal(Fixed9),
    /// A value already written as compact JSON text.
    Nested(String),
}

/// A named request parameter.
#[derive(Clone, Debug)]
pub struct Param {
    pub name: &'static str,
    pub value: ParamValue,
}

/// A parameter value as mathematical text and numbers.
pub enum ValueView {
    Absent,
    Text(Seq<char>),
    List(Seq<Seq<char>>),
    Flag(bool),
    Int(int),
    Decimal(int),
    Nested(Seq<char>),
}

pub open spec fn strings_view(v: Seq<String>) -> Seq<Seq<char>> {
    v.map_values(|s: String| s@)
}

pub open spec fn value_view(v: ParamValue) -> ValueView {
    match v {
        ParamValue::Absent => ValueView::Absent,
        ParamValue::Text(s) => ValueView::Text(s@),
        ParamValue::List(l) => ValueView::List(strings_view(l@)),
        ParamValue::Flag(b) => ValueView::Flag(b),
        ParamValue::Int(i) => ValueView::Int(i as int),
        ParamValue::Decimal(d) => ValueView::Decimal(d.0 as int),
        ParamValue::Nested(s) => ValueView::Nested(s@),
    }
}

pub open spec fn params_view(ps: Seq<Param>) -> Seq<(Seq<char>, ValueView)> {
    ps.map_values(|p: Param| (p.name@, value_view(p.value)))
}

/// Texts joined by `,`.
pub open spec fn join_commas(items: Seq<Seq<char>>) -> Seq<char>
    decreases items.len(),
{
    if items.len() == 0 {
        Seq::empty()
    } else if items.len() == 1 {
        items[0]
    } else {
        join_commas(items.drop_last()) + seq![','] + items.last()
    }
}

pub open spec fn bool_text(b: bool) -> Seq<char> {
    if b {
        "true"@
    } else {
        "false"@
    }
}

/// A parameter value as query text: lists joined by commas, decimals in
/// canonical form.
pub open spec fn query_value(v: ValueView) -> Seq<char> {
    match v {
        ValueView::Absent => Seq::empty(),
        ValueView::Text(s) => s,
        ValueView::List(l) => join_commas(l),
        ValueView::Flag(b) => bool_text(b),
        ValueView::Int(i) => int_text(i),
        ValueView::Decimal(d) => canonical_text(d),
        ValueView::Nested(s) => s,
    }
}

/// The query pairs: one per present parameter, in order.
pub open spec fn query_pairs_spec(ps: Seq<(Seq<char>, ValueView)>) -> Seq<(Seq<char>, Seq<char>)>
    decreases ps.len(),
{
    if ps.len() == 0 {
        Seq::empty()
    } else {
        let rest = query_pairs_spec(ps.drop_last());
        if ps.last().1 is Absent {
            rest
        } else {
            rest.push((ps.last().0, query_value(ps.last().1)))
        }
    }
}

/// A parameter value as JSON text.
pub open spec fn json_value(v: ValueView) -> Seq<char> {
    match v {
        ValueView::Absent => "null"@,
        ValueView::Text(s) => json_string_literal(s),
        ValueView::List(l) => seq!['['] + join_commas(l.map_values(|s: Seq<char>| json_string_literal(s)))
            + seq![']'],
        ValueView::Flag(b) => bool_text(b),
        ValueView::Int(i) => int_text(i),
        ValueView::Decimal(d) => json_string_literal(canonical_text(d)),
        ValueView::Nested(s) => s,
    }
}

/// The `"name":value` members of the present parameters, in order.
pub open spec fn json_members(ps: Seq<(Seq<char>, ValueView)>) -> Seq<Seq<char>>
    decreases ps.len(),
{
    if ps.len() == 0 {
        Seq::empty()
    } else {
        let rest = json_members(ps.drop_last());
        if ps.last().1 is Absent {
            rest
        } else {
            rest.push(json_string_literal(ps.last().0) + seq![':'] + json_value(ps.last().1))
        }
    }
}

/// The JSON object body of the present parameters.
pub open spec fn json_object(ps: Seq<(Seq<char>, ValueView)>) -> Seq<char> {
    seq!['{'] + join_commas(json_members(ps)) + seq!['}']
}

/// Appends `item` to a comma-joined text of `items`.
proof fn lemma_join_push(items: Seq<Seq<char>>, item: Seq<char>)
    ensures
        join_commas(items.push(item)) == if items.len() == 0 {
            item
        } else {
            join_commas(items) + seq![','] + item
        },
{
    assert(items.push(item).drop_last() =~= items);
}

fn push_bool(out: &mut String, b: bool)
    ensures
        final(out)@ == old(out)@ + bool_text(b),
{
    if b {
        out.append("true");
    } else {
        out.append("false");
    }
}

/// Texts joined by `,`.
pub fn join_list(items: &Vec<String>, quoted: bool) -> (r: String)
    ensures
        !quoted ==> r@ == join_commas(strings_view(items@)),
        quoted ==> r@ == join_commas(
            strings_view(items@).map_values(|s: Seq<char>| json_string_literal(s)),
        ),
{
    let ghost v = strings_view(items@);
    let ghost q = v.map_values(|s: Seq<char>| json_string_literal(s));
    let mut out = String::new();
    let mut i: usize = 0;
    while i < items.len()
        invariant
            i <= items@.len(),
            v == strings_view(items@),
            q == v.map_values(|s: Seq<char>| json_string_literal(s)),
            !quoted ==> out@ == join_commas(v.take(i as int)),
            quoted ==> out@ == join_commas(q.take(i as int)),
        decreases items@.len() - i,
    {
        if i > 0 {
            out.push(',');
        }
        let ghost before = out@;
        if quoted {
            let t = json_quote(items[i].as_str());
            out.append(t.as_str());
        } else {
            out.append(items[i].as_str());
        }
        proof {
            lemma_join_push(v.take(i as int), v[i as int]);
            lemma_join_push(q.take(i as int), q[i as int]);
            assert(v.take(i as int).push(v[i as int]) =~= v.take(i + 1));
            assert(q.take(i as int).push(q[i as int]) =~= q.take(i + 1));
        }
        i = i + 1;
    }
    assert(v.take(items@.len() as int) =~= v);
    assert(q.take(items@.len() as int) =~= q);
    out
}

/// Appends the query text of a value.
fn push_query_value(out: &mut String, v: &ParamValue)
    ensures
        final(out)@ == old(out)@ + query_value(value_view(*v)),
{
    match v {
        ParamValue::Absent => {
            assert(final(out)@ =~= old(out)@ + query_value(value_view(*v)));
        },
        ParamValue::Text(s) => out.append(s.as_str()),
        ParamValue::List(l) => {
            let t = join_list(l, false);
            out.append(t.as_str());
        },
        ParamValue::Flag(b) => push_bool(out, *b),
        ParamValue::Int(i) => push_int(out, *i),
        ParamValue::Decimal(d) => {
            let t = d.format();
            out.append(t.as_str());
        },
        ParamValue::Nested(s) => out.append(s.as_str()),
    }
}

/// Appends the JSON text of a value.
fn push_json_value(out: &mut String, v: &ParamValue)
    ensures
        final(out)@ == old(out)@ + json_value(value_view(*v)),
{
    match v {
        ParamValue::Absent => out.append("null"),
        ParamValue::Text(s) => {
            let t = json_quote(s.as_str());
            out.append(t.as_str());
        },
        ParamValue::List(l) => {
            out.push('[');
            let t = join_list(l, true);
            out.append(t.as_str());
            out.push(']');
            assert(final(out)@ =~= old(out)@ + json_value(value_view(*v)));
        },
        ParamValue::Flag(b) => push_bool(out, *b),
        ParamValue::Int(i) => push_int(out, *i),
        ParamValue::Decimal(d) => {
            let f = d.format();
            let t = json_quote(f.as_str());
            out.append(t.as_str());
        },
        ParamValue::Nested(s) => out.append(s.as_str()),
    }
}

/// The URL query pairs of the present parameters, in order; lists are
/// joined by commas.
pub fn query_pairs(params: &Vec<Param>) -> (r: Vec<(String, String)>)
    ensures
        headers_view(r@) == query_pairs_spec(params_view(params@)),
{
    let ghost ps = params_view(params@);
    let mut out: Vec<(String, String)> = Vec::new();
    let mut i: usize = 0;
    while i < params.len()
        invariant
            i <= params@.len(),
            ps == params_view(params@),
            headers_view(out@) == query_pairs_spec(ps.take(i as int)),
        decreases params@.len() - i,
    {
        let p = &params[i];
        assert(ps.take(i + 1).drop_last() =~= ps.take(i as int));
        let present = match &p.value {
            ParamValue::Absent => false,
            _ => true,
        };
        if present {
            let mut t = String::new();
            push_query_value(&mut t, &p.value);
            out.push((owned(p.name), t));
            assert(headers_view(out@) =~= query_pairs_spec(ps.take(i + 1)));
        }
        i = i + 1;
    }
    assert(ps.take(params@.len() as int) =~= ps);
    out
}

/// The JSON object of the present parameters, in order.
pub fn json_body(params: &Vec<Param>) -> (r: String)
    ensures
        r@ == json_object(params_view(params@)),
{
    let ghost ps = params_view(params@);
    let mut inner = String::new();
    let mut any = false;
    let mut i: usize = 0;
    while i < params.len()
        invariant
            i <= params@.len(),
            ps == params_view(params@),
            inner@ == join_commas(json_members(ps.take(i as int))),
            any == (json_members(ps.take(i as int)).len() > 0),
        decreases params@.len() - i,
    {
        let p = &params[i];
        let ghost done = json_members(ps.take(i as int));
        assert(ps.take(i + 1).drop_last() =~= ps.take(i as int));
        let present = match &p.value {
            ParamValue::Absent => false,
            _ => true,
        };
        if present {
            if any {
                inner.push(',');
            }
            any = true;
            let name = json_quote(p.name);
            inner.append(name.as_str());
            inner.push(':');
            push_json_value(&mut inner, &p.value);
            proof {
                lemma_join_push(done, json_string_literal(ps[i as int].0) + seq![':'] + json_value(
                    ps[i as int].1,
                ));
            }
            assert(inner@ =~= join_commas(json_members(ps.take(i + 1))));
        }
        i = i + 1;
    }
    assert(ps.take(params@.len() as int) =~= ps);
    let mut out = String::new();
    out.push('{');
    out.append(inner.as_str());
    out.push('}');
    assert(out@ =~= json_object(ps));
    out
}

/// A parameter without a value leaves both encodings as they are: it is
/// neither a query pair nor a member of the JSON body.
pub proof fn lemma_absent_is_omitted(ps: Seq<(Seq<char>, ValueView)>, i: int)
    requires
        0 <= i < ps.len(),
        ps[i].1 is Absent,
    ensures
        query_pairs_spec(ps.remove(i)) == query_pairs_spec(ps),
        json_members(ps.remove(i)) == json_members(ps),
        json_object(ps.remove(i)) == json_object(ps),
    decreases ps.len(),
{
    if i == ps.len() - 1 {
        assert(ps.remove(i) =~= ps.drop_last());
    } else {
        let r = ps.remove(i);
        assert(r.drop_last() =~= ps.drop_last().remove(i));
        assert(r.last() == ps.last());
        lemma_absent_is_omitted(ps.drop_last(), i);
    }
}

} // verus!
