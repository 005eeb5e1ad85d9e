//! JSON objects whose members are all strings.
use vstd::prelude::*;
use vstd::string::StringExecFns;
use crate::error::ApiError;
use crate::decimal::digit_char;
use crate::query::ParamView;

verus! {

/// A lowercase hexadecimal digit.
pub open spec fn hex_lower(d: nat) -> char {
    if d < 10 {
        digit_char(d)
    } else if d == 10 {
        'a'
    } else if d == 11 {
        'b'
    } else if d == 12 {
        'c'
    } else if d == 13 {
        'd'
    } else if d == 14 {
        'e'
    } else {
        'f'
    }
}

/// How a character is written inside a JSON string: `"` and `\` behind a
/// backslash, the usual short escapes for backspace, tab, line feed, form
/// feed and carriage return, `\u00xx` for the other control characters,
/// and every other character as it is.
pub open spec fn escaped_char(c: char) -> Seq<char> {
    let n = c as u32 as nat;
    if c == '"' {
        seq!['\\', '"']
    } else if c == '\\' {
        seq!['\\', '\\']
    } else if n == 8 {
        seq!['\\', 'b']
    } else if n == 9 {
        seq!['\\', 't']
    } else if n == 10 {
        seq!['\\', 'n']
    } else if n == 12 {
        seq!['\\', 'f']
    } else if n == 13 {
        seq!['\\', 'r']
    } else if n < 32 {
        seq!['\\', 'u', '0', '0', hex_lower(n / 16), hex_lower(n % 16)]
    } else {
        seq![c]
    }
}

/// The characters of `s`, each escaped.
pub open spec fn escaped(s: Seq<char>) -> Seq<char>
    decreases s.len(),
{
    if s.len() == 0 {
        seq![]
    } else {
        escaped(s.drop_last()) + escaped_char(s.last())
    }
}

/// The JSON text of a string: quoted and escaped.
pub open spec fn json_quoted(s: Seq<char>) -> Seq<char> {
    seq!['"'] + escaped(s) + seq!['"']
}

/// Relies on serde_json::to_string on a `str`: it writes the quoted, escaped
/// string into a `Vec`, which cannot fail.
#[verifier::external_body]
fn quote(s: &str) -> (r: Result<String, serde_json::Error>)
    ensures
        r is Ok,
        r->Ok_0@ == json_quoted(s@),
{
    serde_json::to_string(s)
}

/// `key:value`, both already written as JSON text.
pub open spec fn member_text(m: ParamView) -> Seq<char> {
    m.0 + seq![':'] + m.1
}

/// The members written in order and separated by `,`.
pub open spec fn members_text(ms: Seq<ParamView>) -> Seq<char>
    decreases ms.len(),
{
    if ms.len() == 0 {
        seq![]
    } else if ms.len() == 1 {
        member_text(ms[0])
    } else {
        members_text(ms.drop_last()) + seq![','] + member_text(ms.last())
    }
}

/// An object of the given members, written as JSON text.
pub open spec fn object_text(ms: Seq<ParamView>) -> Seq<char> {
    seq!['{'] + members_text(ms) + seq!['}']
}

/// Each field name and value written as a JSON string.
pub open spec fn quoted_fields(fs: Seq<ParamView>) -> Seq<ParamView> {
    fs.map_values(|f: ParamView| (json_quoted(f.0), json_quoted(f.1)))
}

/// The compact JSON text of an object whose members are the given
/// string fields, in their order.
pub open spec fn string_object_text(fs: Seq<ParamView>) -> Seq<char> {
    object_text(quoted_fields(fs))
}

/// `a` comes before `b` in the order of code points, as Rust orders strings.
pub open spec fn key_less(a: Seq<char>, b: Seq<char>) -> bool
    decreases a.len(),
{
    if a.len() == 0 {
        b.len() > 0
    } else if b.len() == 0 {
        false
    } else if a[0] != b[0] {
        (a[0] as u32) < (b[0] as u32)
    } else {
        key_less(a.drop_first(), b.drop_first())
    }
}

/// Each key comes strictly before the next, as in serde_json's `Map`, which
/// keeps its keys sorted and unique.
pub open spec fn keys_ascending(fs: Seq<ParamView>) -> bool {
    forall|i: int| 0 <= i < fs.len() - 1 ==> key_less(#[trigger] fs[i].0, fs[i + 1].0)
}

/// Writes an object from members whose keys and values are already JSON text.
pub fn frame_object(members: &Vec<(String, String)>) -> (r: String)
    ensures
        r@ == object_text(crate::query::params_view(members@)),
{
    let ghost ms = crate::query::params_view(members@);
    proof {
        reveal_strlit("{");
    }
    let mut s = String::from_str("{");
    let n = members.len();
    let mut i: usize = 0;
    while i < n
        invariant
            n == members.len(),
            i <= n,
            ms == crate::query::params_view(members@),
            s@ == seq!['{'] + members_text(ms.take(i as int)),
        decreases n - i,
    {
        let ghost s0 = s@;
        proof {
            reveal_strlit(",");
            reveal_strlit(":");
        }
        if i > 0 {
            s.append(",");
        }
        s.append(members[i].0.as_str());
        s.append(":");
        s.append(members[i].1.as_str());
        proof {
            let t = ms.take(i + 1);
            assert(t.drop_last() =~= ms.take(i as int));
            assert(t.last() == ms[i as int]);
            assert(ms[i as int] == (members@[i as int].0@, members@[i as int].1@));
            if i == 0 {
                assert(members_text(ms.take(0)) =~= seq![]);
                assert(s@ =~= s0 + member_text(ms[0]));
                assert(members_text(t) =~= member_text(ms[0]));
            } else {
                assert(members_text(t) =~= members_text(ms.take(i as int)) + seq![',']
                    + member_text(ms[i as int]));
            }
            assert(s@ =~= seq!['{'] + members_text(t));
        }
        i = i + 1;
    }
    assert(ms.take(n as int) =~= ms);
    proof {
        reveal_strlit("}");
    }
    s.append("}");
    s
}

/// The compact JSON text that serde_json writes for an object whose members
/// are the given string fields. Its `Map` writes members in the order of their
/// keys, so the fields come sorted by key.
pub fn string_object(fields: &Vec<(String, String)>) -> (r: Result<String, ApiError>)
    requires
        keys_ascending(crate::query::params_view(fields@)),
    ensures
        r is Ok,
        r->Ok_0@ == string_object_text(crate::query::params_view(fields@)),
{
    let ghost fs = crate::query::params_view(fields@);
    let mut members: Vec<(String, String)> = Vec::new();
    let n = fields.len();
    let mut i: usize = 0;
    while i < n
        invariant
            n == fields.len(),
            i <= n,
            fs == crate::query::params_view(fields@),
            crate::query::params_view(members@) == quoted_fields(fs.take(i as int)),
        decreases n - i,
    {
        let k = match quote(fields[i].0.as_str()) {
            Ok(k) => k,
            Err(e) => {
                return Err(ApiError::Json(e));
            },
        };
        let v = match quote(fields[i].1.as_str()) {
            Ok(v) => v,
            Err(e) => {
                return Err(ApiError::Json(e));
            },
        };
        let ghost before = members@;
        members.push((k, v));
        proof {
            assert(crate::query::params_view(members@) =~= crate::query::params_view(before)
                + seq![(json_quoted(fs[i as int].0), json_quoted(fs[i as int].1))]);
            assert(quoted_fields(fs.take(i + 1)) =~= quoted_fields(fs.take(i as int))
                + seq![(json_quoted(fs[i as int].0), json_quoted(fs[i as int].1))]);
        }
        i = i + 1;
    }
    assert(fs.take(n as int) =~= fs);
    Ok(frame_object(&members))
}

} // verus!
