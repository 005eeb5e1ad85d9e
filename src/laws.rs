//! Properties of the requests that hold for every input.
use vstd::prelude::*;
use crate::account::{bills_params, leverage_fields, positions_params};
use crate::query::{joined, opt_param, query_text, ParamView};

verus! {

/// Position of a positions filter in the order in which filters are sent.
pub open spec fn positions_rank(name: Seq<char>) -> int {
    if name == "instType"@ {
        0
    } else if name == "instId"@ {
        1
    } else {
        2
    }
}

/// The positions query string holds exactly the filters given, in the order
/// instType, instId, posId, joined by `&` after a `?`; it is empty, `?`
/// included, when no filter is given.
pub proof fn positions_query_law(
    inst_type: Option<Seq<char>>,
    inst_id: Option<Seq<char>>,
    pos_id: Option<Seq<char>>,
)
    ensures
        ({
            let ps = positions_params(inst_type, inst_id, pos_id);
            &&& (query_text(ps).len() == 0) <==> (inst_type is None && inst_id is None
                && pos_id is None)
            &&& query_text(ps).len() != 0 ==> query_text(ps) == seq!['?'] + joined(ps)
            &&& forall|p: ParamView|
                ps.contains(p) <==> ((inst_type is Some && p == ("instType"@, inst_type->Some_0))
                    || (inst_id is Some && p == ("instId"@, inst_id->Some_0)) || (pos_id is Some
                    && p == ("posId"@, pos_id->Some_0)))
            &&& forall|i: int, j: int|
                0 <= i < j < ps.len() ==> positions_rank(ps[i].0) < positions_rank(ps[j].0)
        }),
{
    reveal_strlit("instType");
    reveal_strlit("instId");
    reveal_strlit("posId");
    let ps = positions_params(inst_type, inst_id, pos_id);
    assert("posId"@[0] != "instType"@[0] && "posId"@[0] != "instId"@[0]);
    assert("instId"@.len() != "instType"@.len());
    let a = opt_param("instType"@, inst_type);
    let b = opt_param("instId"@, inst_id);
    assert forall|i: int| 0 <= i < ps.len() implies positions_rank(ps[i].0) == (if i < a.len() {
        0int
    } else if i < a.len() + b.len() {
        1int
    } else {
        2int
    }) by {
        if i < a.len() {
            assert(ps[i] == a[i]);
        } else if i < a.len() + b.len() {
            assert(ps[i] == b[i - a.len()]);
        } else {
            assert(ps[i].0 == "posId"@);
        }
    }
    assert(ps.len() == 0 ==> query_text(ps).len() == 0);
    if ps.len() > 0 {
        assert(query_text(ps)[0] == '?');
    }
    assert forall|p: ParamView|
        ps.contains(p) <==> ((inst_type is Some && p == ("instType"@, inst_type->Some_0)) || (
        inst_id is Some && p == ("instId"@, inst_id->Some_0)) || (pos_id is Some && p == (
        "posId"@,
        pos_id->Some_0,
        ))) by {
        if (inst_type is Some && p == ("instType"@, inst_type->Some_0)) || (inst_id is Some && p
            == ("instId"@, inst_id->Some_0)) || (pos_id is Some && p == ("posId"@, pos_id->Some_0)) {
            let k = if inst_type is Some && p == ("instType"@, inst_type->Some_0) {
                0int
            } else if inst_id is Some && p == ("instId"@, inst_id->Some_0) {
                if inst_type is Some { 1int } else { 0int }
            } else {
                ps.len() - 1
            };
            assert(ps[k] == p);
        }
    }
}

/// The set-leverage body has a `posSide` member exactly when a side is given.
pub proof fn leverage_side_law(
    inst_id: Seq<char>,
    leverage: Seq<char>,
    margin_mode: Seq<char>,
    pos_side: Option<Seq<char>>,
)
    ensures
        ({
            let fs = leverage_fields(inst_id, leverage, margin_mode, pos_side);
            &&& (exists|i: int| 0 <= i < fs.len() && fs[i].0 == "posSide"@) <==> pos_side is Some
            &&& pos_side is Some ==> fs.last() == ("posSide"@, pos_side->Some_0)
        }),
{
    reveal_strlit("instId");
    reveal_strlit("lever");
    reveal_strlit("mgnMode");
    reveal_strlit("posSide");
    let fs = leverage_fields(inst_id, leverage, margin_mode, pos_side);
    if pos_side is Some {
        assert(fs[3].0 == "posSide"@);
    } else {
        assert(fs.len() == 3);
        assert forall|i: int| 0 <= i < fs.len() implies fs[i].0 != "posSide"@ by {
            assert("posSide"@[1] == 'o');
            if i == 0 {
                assert(fs[i].0[1] == 'n');
            } else if i == 1 {
                assert(fs[i].0.len() != "posSide"@.len());
            } else {
                assert(fs[i].0[1] == 'g');
            }
        }
    }
}

/// The bills start and end times are sent as `begin` and `end`, and no
/// parameter is named `startTime` or `endTime`.
pub proof fn bills_time_names_law(
    inst_type: Option<Seq<char>>,
    ccy: Option<Seq<char>>,
    margin_mode: Option<Seq<char>>,
    typ: Option<Seq<char>>,
    start_time: Option<Seq<char>>,
    end_time: Option<Seq<char>>,
    limit: Option<u32>,
)
    ensures
        ({
            let ps = bills_params(inst_type, ccy, margin_mode, typ, start_time, end_time, limit);
            &&& start_time is Some ==> ps.contains(("begin"@, start_time->Some_0))
            &&& end_time is Some ==> ps.contains(("end"@, end_time->Some_0))
            &&& forall|i: int|
                0 <= i < ps.len() ==> ps[i].0 != "startTime"@ && ps[i].0 != "endTime"@
        }),
{
    reveal_strlit("instType");
    reveal_strlit("ccy");
    reveal_strlit("mgnMode");
    reveal_strlit("type");
    reveal_strlit("begin");
    reveal_strlit("end");
    reveal_strlit("limit");
    reveal_strlit("startTime");
    reveal_strlit("endTime");
    let ps = bills_params(inst_type, ccy, margin_mode, typ, start_time, end_time, limit);
    let names = seq!["instType"@, "ccy"@, "mgnMode"@, "type"@, "begin"@, "end"@, "limit"@];
    assert forall|i: int| 0 <= i < ps.len() implies names.contains(ps[i].0) by {
        assert(names[0] == "instType"@);
        assert(names[6] == "limit"@);
    }
    assert forall|k: int| 0 <= k < names.len() implies names[k] != "startTime"@ && names[k]
        != "endTime"@ by {
        assert(names[k].len() != 9 && names[k].len() != 7 || names[k][0] != 's' && names[k][0]
            != 'e');
    }
    if start_time is Some {
        let k = ps.len() - 1 - (if end_time is Some { 1int } else { 0 }) - (if limit is Some {
            1int
        } else {
            0
        });
        assert(ps[k] == ("begin"@, start_time->Some_0));
    }
    if end_time is Some {
        let k = ps.len() - 1 - (if limit is Some { 1int } else { 0 });
        assert(ps[k] == ("end"@, end_time->Some_0));
    }
}

} // verus!
