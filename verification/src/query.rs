//! REST query construction: a GET URL's query string is built from the
//! catalog-declared parameters in order. An optional parameter whose value
//! is absent is omitted entirely; a mandatory parameter whose value
//! stringifies to empty keeps its name but loses the `=value` suffix.

use vstd::prelude::*;

use crate::text::{bool_text_spec, bool_to_text, dec_of, u64_to_dec};

verus! {

/// A value a query parameter can carry.
pub enum QueryValue {
    Text(String),
    UInt(u64),
    Bool(bool),
}

/// The rendering of a query value.
pub open spec fn query_value_text(v: QueryValue) -> Seq<char> {
    match v {
        QueryValue::Text(s) => s@,
        QueryValue::UInt(n) => dec_of(n as nat),
        QueryValue::Bool(b) => bool_text_spec(b),
    }
}

impl QueryValue {
    /// Render the value as it appears in a query string.
    pub fn to_text(&self) -> (r: String)
        ensures
            r@ == query_value_text(*self),
    {
        match self {
            QueryValue::Text(s) => s.clone(),
            QueryValue::UInt(n) => u64_to_dec(*n),
            QueryValue::Bool(b) => String::from_str(bool_to_text(*b)),
        }
    }
}

/// One declared parameter's argument: absent optional, present optional,
/// or mandatory.
pub enum QueryArg {
    /// A declared optional parameter without a value: omitted entirely.
    Absent,
    /// A present optional parameter: always rendered `name=value`.
    Opt(QueryValue),
    /// A mandatory parameter: rendered `name=value`, or `name` alone if the
    /// value stringifies to empty.
    Req(QueryValue),
}

/// A named argument of a query-form REST call.
pub struct QueryParam {
    pub name: String,
    pub arg: QueryArg,
}

/// Whether the parameter contributes a pair to the query string.
pub open spec fn query_emits(p: QueryParam) -> bool {
    !(p.arg is Absent)
}

/// The text one parameter contributes; `first` says whether no pair stands
/// before it, so that the pair opens the query with `?` rather than `&`.
pub open spec fn query_frag(p: QueryParam, first: bool) -> Seq<char> {
    let sep: Seq<char> = if first {
        "?"@
    } else {
        "&"@
    };
    match p.arg {
        QueryArg::Absent => Seq::empty(),
        QueryArg::Opt(v) => sep + p.name@ + "="@ + query_value_text(v),
        QueryArg::Req(v) => if query_value_text(v).len() > 0 {
            sep + p.name@ + "="@ + query_value_text(v)
        } else {
            sep + p.name@
        },
    }
}

/// The query string of the parameters from `ps`, with `first` saying
/// whether any earlier parameter already opened the query.
pub open spec fn query_string_rec(ps: Seq<QueryParam>, first: bool) -> Seq<char>
    decreases ps.len(),
{
    if ps.len() == 0 {
        Seq::empty()
    } else {
        query_frag(ps[0], first) + query_string_rec(
            ps.drop_first(),
            first && !query_emits(ps[0]),
        )
    }
}

/// The full query string of a declared parameter list: `?k1=v1&k2=v2...`,
/// empty when every parameter is an absent optional.
pub open spec fn query_string_spec(ps: Seq<QueryParam>) -> Seq<char> {
    query_string_rec(ps, true)
}

/// Append one parameter's contribution to the query string being built.
fn append_query_frag(out: &mut String, p: &QueryParam, first: bool) -> (emitted: bool)
    ensures
        final(out)@ == old(out)@ + query_frag(*p, first),
        emitted == query_emits(*p),
{
    match &p.arg {
        QueryArg::Absent => false,
        QueryArg::Opt(v) => {
            out.append(if first {
                "?"
            } else {
                "&"
            });
            out.append(p.name.as_str());
            out.append("=");
            let text = v.to_text();
            out.append(text.as_str());
            true
        },
        QueryArg::Req(v) => {
            out.append(if first {
                "?"
            } else {
                "&"
            });
            out.append(p.name.as_str());
            let text = v.to_text();
            if text.unicode_len() > 0 {
                out.append("=");
                out.append(text.as_str());
            }
            true
        },
    }
}

/// Build the query string of a declared parameter list, in declared order.
pub fn build_query_string(params: &Vec<QueryParam>) -> (r: String)
    ensures
        r@ == query_string_spec(params@),
{
    let ghost ps = params@;
    let mut out = String::new();
    let mut first = true;
    let mut i: usize = 0;
    proof {
        assert(ps.skip(0) =~= ps);
        assert(out@ + query_string_rec(ps, true) =~= query_string_rec(ps, true));
    }
    while i < params.len()
        invariant
            0 <= i <= ps.len(),
            params@ == ps,
            query_string_spec(ps) == out@ + query_string_rec(ps.skip(i as int), first),
        decreases ps.len() - i,
    {
        proof {
            assert(ps.skip(i as int)[0] == ps[i as int]);
            assert(ps.skip(i as int).drop_first() =~= ps.skip(i as int + 1));
        }
        let emitted = append_query_frag(&mut out, &params[i], first);
        first = first && !emitted;
        i = i + 1;
    }
    proof {
        assert(ps.skip(ps.len() as int) =~= Seq::<QueryParam>::empty());
    }
    out
}

} // verus!
