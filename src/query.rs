//! Query strings built from optional named parameters.
use vstd::prelude::*;
use vstd::string::StringExecFns;
use crate::percent::{append_encoded, percent_encoded};

verus! {

/// A query parameter as the contracts see it: its name and its value.
pub type ParamView = (Seq<char>, Seq<char>);

/// The characters of a `&str` that may be absent.
pub open spec fn opt_view(v: Option<&str>) -> Option<Seq<char>> {
    match v {
        Some(s) => Some(s@),
        None => None,
    }
}

/// The parameters as name/value pairs of characters.
pub open spec fn params_view(ps: Seq<(String, String)>) -> Seq<ParamView> {
    ps.map_values(|p: (String, String)| (p.0@, p.1@))
}

/// No parameter when the value is absent, one when it is present.
pub open spec fn opt_param(name: Seq<char>, v: Option<Seq<char>>) -> Seq<ParamView> {
    match v {
        Some(x) => seq![(name, x)],
        None => seq![],
    }
}

/// `name=value`, with the value percent-encoded.
pub open spec fn param_text(p: ParamView) -> Seq<char> {
    p.0 + seq!['='] + percent_encoded(p.1)
}

/// The parameters written in order and separated by `&`.
pub open spec fn joined(ps: Seq<ParamView>) -> Seq<char>
    decreases ps.len(),
{
    if ps.len() == 0 {
        seq![]
    } else if ps.len() == 1 {
        param_text(ps[0])
    } else {
        joined(ps.drop_last()) + seq!['&'] + param_text(ps.last())
    }
}

/// The empty text when there is no parameter, else `?` and the joined parameters.
pub open spec fn query_text(ps: Seq<ParamView>) -> Seq<char> {
    if ps.len() == 0 {
        seq![]
    } else {
        seq!['?'] + joined(ps)
    }
}

/// Appends the parameter `name=v` when `v` is present.
pub fn push_opt(params: &mut Vec<(String, String)>, name: &str, v: Option<&str>)
    ensures
        params_view(final(params)@) == params_view(old(params)@) + opt_param(name@, opt_view(v)),
{
    match v {
        Some(x) => {
            push_param(params, name, x);
        },
        None => {
            assert(params_view(params@) =~= params_view(params@) + opt_param(name@, opt_view(v)));
        },
    }
}

/// Appends the parameter `name=v`.
pub fn push_param(params: &mut Vec<(String, String)>, name: &str, v: &str)
    ensures
        params_view(final(params)@) == params_view(old(params)@) + seq![(name@, v@)],
{
    let ghost before = params@;
    params.push((String::from_str(name), String::from_str(v)));
    assert(params_view(params@) =~= params_view(before) + seq![(name@, v@)]);
}

/// The query string of `params`, `?` included; empty when there are none.
pub fn query_string(params: &Vec<(String, String)>) -> (r: String)
    ensures
        r@ == query_text(params_view(params@)),
{
    let ghost ps = params_view(params@);
    let mut s = String::new();
    let n = params.len();
    let mut i: usize = 0;
    while i < n
        invariant
            n == params.len(),
            i <= n,
            ps == params_view(params@),
            s@ == query_text(ps.take(i as int)),
        decreases n - i,
    {
        proof {
            reveal_strlit("?");
            reveal_strlit("&");
            reveal_strlit("=");
        }
        if i == 0 {
            s.append("?");
        } else {
            s.append("&");
        }
        s.append(params[i].0.as_str());
        s.append("=");
        append_encoded(&mut s, params[i].1.as_str());
        proof {
            let t = ps.take(i + 1);
            assert(t.drop_last() =~= ps.take(i as int));
            assert(t.last() == ps[i as int]);
            if i == 0 {
                assert(query_text(t) =~= seq!['?'] + param_text(ps[0]));
            } else {
                assert(query_text(t) =~= seq!['?'] + joined(ps.take(i as int)) + seq!['&']
                    + param_text(ps[i as int]));
            }
            assert(s@ =~= query_text(t));
        }
        i = i + 1;
    }
    assert(ps.take(n as int) =~= ps);
    s
}

} // verus!
