//! Aggregation of the providers' public sessions into one discovery result:
//! sanitized sessions in a stable kind order, truncated to the caller's limit,
//! with one warning per failed provider.

use vstd::prelude::*;
use crate::json::{Json, get_spec, str_spec, arr_spec, json_eq, str_member, bool_member, value_member, clone_json, split_member};
use crate::error::{AppControlError, AppResult};
use crate::app::sanitize::{public_sanitized, sanitize_public_value};
use crate::app::facade::{ensure_foreground_invariance, interference_details};

verus! {

/// The position of a session's `kind` in the public order: host,
/// application, document, window, then every other kind.
pub open spec fn kind_rank(session: Json) -> int {
    match get_spec(session, "kind"@) {
        Some(k) => match str_spec(k) {
            Some(s) => if s == "host"@ {
                0
            } else if s == "application"@ {
                1
            } else if s == "document"@ {
                2
            } else if s == "window"@ {
                3
            } else {
                4
            },
            None => 4,
        },
        None => 4,
    }
}

/// Whether a session has the rank `r`.
pub open spec fn has_rank(r: int) -> spec_fn(Json) -> bool {
    |s: Json| kind_rank(s) == r
}

/// The sessions in the public order; sessions of equal rank keep their order.
pub open spec fn ranked(s: Seq<Json>) -> Seq<Json> {
    s.filter(has_rank(0)) + s.filter(has_rank(1)) + s.filter(has_rank(2))
        + s.filter(has_rank(3)) + s.filter(has_rank(4))
}

/// The rank of a session's kind.
pub fn session_kind_rank(session: &Json) -> (r: u8)
    ensures
        r == kind_rank(*session),
{
    match session.get("kind") {
        Some(k) => match k.as_str() {
            Some(s) => {
                if crate::text::str_eq(s, "host") {
                    0
                } else if crate::text::str_eq(s, "application") {
                    1
                } else if crate::text::str_eq(s, "document") {
                    2
                } else if crate::text::str_eq(s, "window") {
                    3
                } else {
                    4
                }
            },
            None => 4,
        },
        None => 4,
    }
}

proof fn lemma_filter_step(s: Seq<Json>, i: int, r: int)
    requires
        0 <= i < s.len(),
    ensures
        s.take(i + 1).filter(has_rank(r)) == if kind_rank(s[i]) == r {
            s.take(i).filter(has_rank(r)).push(s[i])
        } else {
            s.take(i).filter(has_rank(r))
        },
{
    reveal(Seq::filter);
    let t = s.take(i + 1);
    assert(t.drop_last() =~= s.take(i));
    assert(t.last() == s[i]);
    assert(has_rank(r)(s[i]) == (kind_rank(s[i]) == r));
    assert(t.len() > 0);
    assert(t.filter(has_rank(r)) == if has_rank(r)(t.last()) {
        t.drop_last().filter(has_rank(r)).push(t.last())
    } else {
        t.drop_last().filter(has_rank(r))
    });
}

proof fn lemma_ranked_len(s: Seq<Json>)
    ensures
        ranked(s).len() == s.len(),
    decreases s.len(),
{
    reveal(Seq::filter);
    if s.len() > 0 {
        let d = s.drop_last();
        lemma_ranked_len(d);
        assert(has_rank(0)(s.last()) == (kind_rank(s.last()) == 0));
        assert(has_rank(1)(s.last()) == (kind_rank(s.last()) == 1));
        assert(has_rank(2)(s.last()) == (kind_rank(s.last()) == 2));
        assert(has_rank(3)(s.last()) == (kind_rank(s.last()) == 3));
        assert(has_rank(4)(s.last()) == (kind_rank(s.last()) == 4));
    }
}

/// Every session in a rank's part has that rank.
proof fn lemma_filter_ranks(s: Seq<Json>, r: int)
    ensures
        forall|i: int| 0 <= i < s.filter(has_rank(r)).len() ==> kind_rank(#[trigger] s.filter(has_rank(r))[i]) == r,
{
    s.filter_lemma(has_rank(r));
    assert forall|i: int| 0 <= i < s.filter(has_rank(r)).len() implies kind_rank(#[trigger] s.filter(has_rank(r))[i]) == r by {
        assert(has_rank(r)(s.filter(has_rank(r))[i]));
    }
}

/// Appending a part of one rank to a list ordered by rank and ranked no higher
/// keeps it ordered.
proof fn lemma_append_rank(x: Seq<Json>, y: Seq<Json>, r: int)
    requires
        forall|i: int, j: int| 0 <= i < j < x.len() ==> kind_rank(#[trigger] x[i]) <= kind_rank(#[trigger] x[j]),
        forall|i: int| 0 <= i < x.len() ==> kind_rank(#[trigger] x[i]) <= r,
        forall|i: int| 0 <= i < y.len() ==> kind_rank(#[trigger] y[i]) == r,
    ensures
        forall|i: int, j: int| 0 <= i < j < (x + y).len() ==> kind_rank(#[trigger] (x + y)[i]) <= kind_rank(#[trigger] (x + y)[j]),
        forall|i: int| 0 <= i < (x + y).len() ==> kind_rank(#[trigger] (x + y)[i]) <= r,
{
    let z = x + y;
    assert forall|i: int, j: int| 0 <= i < j < z.len() implies kind_rank(#[trigger] z[i]) <= kind_rank(#[trigger] z[j]) by {
        if j < x.len() {
            assert(z[i] == x[i] && z[j] == x[j]);
        } else if i < x.len() {
            assert(z[i] == x[i] && z[j] == y[j - x.len()]);
        } else {
            assert(z[i] == y[i - x.len()] && z[j] == y[j - x.len()]);
        }
    }
    assert forall|i: int| 0 <= i < z.len() implies kind_rank(#[trigger] z[i]) <= r by {
        if i < x.len() {
            assert(z[i] == x[i]);
        } else {
            assert(z[i] == y[i - x.len()]);
        }
    }
}

/// The five rank parts together hold exactly the sessions.
proof fn lemma_parts_multiset(s: Seq<Json>)
    ensures
        s.to_multiset() == s.filter(has_rank(0)).to_multiset().add(s.filter(has_rank(1)).to_multiset())
            .add(s.filter(has_rank(2)).to_multiset()).add(s.filter(has_rank(3)).to_multiset())
            .add(s.filter(has_rank(4)).to_multiset()),
    decreases s.len(),
{
    broadcast use vstd::seq_lib::group_to_multiset_ensures;
    broadcast use vstd::multiset::group_multiset_axioms;
    reveal(Seq::filter);
    if s.len() == 0 {
        assert(s.to_multiset() =~= vstd::multiset::Multiset::empty());
        assert(s.filter(has_rank(0)).to_multiset() =~= vstd::multiset::Multiset::empty());
        assert(s.filter(has_rank(1)).to_multiset() =~= vstd::multiset::Multiset::empty());
        assert(s.filter(has_rank(2)).to_multiset() =~= vstd::multiset::Multiset::empty());
        assert(s.filter(has_rank(3)).to_multiset() =~= vstd::multiset::Multiset::empty());
        assert(s.filter(has_rank(4)).to_multiset() =~= vstd::multiset::Multiset::empty());
    } else {
        let d = s.drop_last();
        let x = s.last();
        lemma_parts_multiset(d);
        assert(s =~= d.push(x));
        assert(has_rank(0)(x) == (kind_rank(x) == 0));
        assert(has_rank(1)(x) == (kind_rank(x) == 1));
        assert(has_rank(2)(x) == (kind_rank(x) == 2));
        assert(has_rank(3)(x) == (kind_rank(x) == 3));
        assert(has_rank(4)(x) == (kind_rank(x) == 4));
        assert(s.to_multiset() =~= s.filter(has_rank(0)).to_multiset().add(s.filter(has_rank(1)).to_multiset())
            .add(s.filter(has_rank(2)).to_multiset()).add(s.filter(has_rank(3)).to_multiset())
            .add(s.filter(has_rank(4)).to_multiset()));
    }
}

/// The public order is ordered by kind rank and holds exactly the given
/// sessions, each as often as it was given.
pub proof fn lemma_ranked_order(s: Seq<Json>)
    ensures
        forall|i: int, j: int| 0 <= i < j < ranked(s).len() ==> kind_rank(#[trigger] ranked(s)[i]) <= kind_rank(#[trigger] ranked(s)[j]),
        ranked(s).to_multiset() == s.to_multiset(),
{
    broadcast use vstd::seq_lib::lemma_multiset_commutative;
    lemma_filter_ranks(s, 0);
    lemma_filter_ranks(s, 1);
    lemma_filter_ranks(s, 2);
    lemma_filter_ranks(s, 3);
    lemma_filter_ranks(s, 4);
    let p0 = s.filter(has_rank(0));
    let p1 = s.filter(has_rank(1));
    let p2 = s.filter(has_rank(2));
    let p3 = s.filter(has_rank(3));
    let p4 = s.filter(has_rank(4));
    lemma_append_rank(Seq::empty(), p0, 0);
    assert(Seq::<Json>::empty() + p0 =~= p0);
    lemma_append_rank(p0, p1, 1);
    lemma_append_rank(p0 + p1, p2, 2);
    lemma_append_rank(p0 + p1 + p2, p3, 3);
    lemma_append_rank(p0 + p1 + p2 + p3, p4, 4);
    lemma_parts_multiset(s);
}

/// Orders sessions by kind, keeping the order of sessions of equal kind.
pub fn order_sessions(items: Vec<Json>) -> (r: Vec<Json>)
    ensures
        r@ == ranked(items@),
{
    let ghost orig = items@;
    assert(orig.len() == items.len());
    let mut rest = items;
    let mut b0: Vec<Json> = Vec::new();
    let mut b1: Vec<Json> = Vec::new();
    let mut b2: Vec<Json> = Vec::new();
    let mut b3: Vec<Json> = Vec::new();
    let mut b4: Vec<Json> = Vec::new();
    let mut i: usize = 0;
    while rest.len() > 0
        invariant
            orig.len() <= usize::MAX,
            i + rest@.len() == orig.len(),
            rest@ == orig.skip(i as int),
            b0@ == orig.take(i as int).filter(has_rank(0)),
            b1@ == orig.take(i as int).filter(has_rank(1)),
            b2@ == orig.take(i as int).filter(has_rank(2)),
            b3@ == orig.take(i as int).filter(has_rank(3)),
            b4@ == orig.take(i as int).filter(has_rank(4)),
        decreases rest@.len(),
    {
        let item = rest.remove(0);
        proof {
            assert(item == orig[i as int]);
            lemma_filter_step(orig, i as int, 0);
            lemma_filter_step(orig, i as int, 1);
            lemma_filter_step(orig, i as int, 2);
            lemma_filter_step(orig, i as int, 3);
            lemma_filter_step(orig, i as int, 4);
        }
        let rank = session_kind_rank(&item);
        if rank == 0 {
            b0.push(item);
        } else if rank == 1 {
            b1.push(item);
        } else if rank == 2 {
            b2.push(item);
        } else if rank == 3 {
            b3.push(item);
        } else {
            b4.push(item);
        }
        assert(rest@ =~= orig.skip(i + 1));
        i = i + 1;
    }
    assert(orig.take(i as int) =~= orig);
    b0.append(&mut b1);
    b0.append(&mut b2);
    b0.append(&mut b3);
    b0.append(&mut b4);
    b0
}

/// The sessions that one provider's result publishes: the `sessions` array of
/// a successful result, and nothing otherwise.
pub open spec fn published(result: AppResult<Json>) -> Seq<Json> {
    match result {
        Ok(v) => match get_spec(v, "sessions"@) {
            Some(items) => match arr_spec(items) {
                Some(s) => s,
                None => Seq::empty(),
            },
            None => Seq::empty(),
        },
        Err(_) => Seq::empty(),
    }
}

/// The sessions of all providers, in provider order.
pub open spec fn all_published(results: Seq<AppResult<Json>>) -> Seq<Json>
    decreases results.len(),
{
    if results.len() == 0 {
        Seq::empty()
    } else {
        all_published(results.drop_last()) + published(results.last())
    }
}

/// The errors of the failed providers, in provider order.
pub open spec fn failures(results: Seq<AppResult<Json>>) -> Seq<AppControlError>
    decreases results.len(),
{
    if results.len() == 0 {
        Seq::empty()
    } else {
        match results.last() {
            Err(e) => failures(results.drop_last()).push(e),
            Ok(_) => failures(results.drop_last()),
        }
    }
}

/// Whether `w` is the public warning for the provider error `e`: its code and message.
pub open spec fn warning_of(e: AppControlError, w: Json) -> bool {
    match w {
        Json::Obj(m) => m@.len() == 2 && str_member(m@[0], "code"@, e.code@)
            && m@[1].0@ == "message"@ && str_spec(m@[1].1) == Some(e.message@),
        _ => false,
    }
}

/// Whether `w` holds one warning per failed provider, in order.
pub open spec fn warnings_for(errors: Seq<AppControlError>, w: Seq<Json>) -> bool {
    w.len() == errors.len() && forall|i: int| 0 <= i < w.len() ==> warning_of(errors[i], #[trigger] w[i])
}

/// Whether `clean` is `raw` with every session sanitized.
pub open spec fn sanitized_all(raw: Seq<Json>, clean: Seq<Json>) -> bool {
    raw.len() == clean.len() && forall|i: int| 0 <= i < raw.len() ==> public_sanitized(raw[i], #[trigger] clean[i])
}

/// How many sessions are shown of `total` under the limit `max_items`.
pub open spec fn shown(total: int, max_items: int) -> int {
    if total <= max_items { total } else { max_items }
}

/// The discovery data: fixed facts, the counts, the ordered and truncated
/// sessions and the provider warnings.
pub open spec fn discovery_data(d: Json, clean: Seq<Json>, max_items: int, errors: Seq<AppControlError>) -> bool {
    let n = shown(clean.len() as int, max_items);
    match d {
        Json::Obj(m) => m@.len() == 10
            && str_member(m@[0], "surface"@, "app"@)
            && str_member(m@[1], "capability"@, "application.session.discover@1"@)
            && bool_member(m@[2], "readOnly"@, true)
            && bool_member(m@[3], "foregroundUnchanged"@, true)
            && str_member(m@[4], "targetIdentity"@, "opaque-versioned-session-id"@)
            && value_member(m@[5], "count"@, Json::Int(n as i128))
            && value_member(m@[6], "total"@, Json::Int(clean.len() as i128))
            && bool_member(m@[7], "truncated"@, clean.len() > max_items)
            && m@[8].0@ == "sessions"@ && arr_spec(m@[8].1) == Some(ranked(clean).take(n))
            && m@[9].0@ == "warnings"@ && (match m@[9].1 {
                Json::Arr(w) => warnings_for(errors, w@),
                _ => false,
            }),
        _ => false,
    }
}

/// The discovery envelope: a copy of the data's members, then `app`, `ok`
/// and the data itself.
pub open spec fn discovery_envelope(env: Json, clean: Seq<Json>, max_items: int, errors: Seq<AppControlError>) -> bool {
    match env {
        Json::Obj(e) => e@.len() == 13
            && str_member(e@[10], "app"@, "app"@)
            && bool_member(e@[11], "ok"@, true)
            && e@[12].0@ == "data"@
            && discovery_data(e@[12].1, clean, max_items, errors)
            && match e@[12].1 {
                Json::Obj(m) => forall|k: int| 0 <= k < 10 ==>
                    (#[trigger] e@[k]).0@ == m@[k].0@ && json_eq(m@[k].1, e@[k].1),
                _ => false,
            },
        _ => false,
    }
}

/// The warning for a failed provider.
fn warning(e: AppControlError) -> (w: Json)
    ensures
        warning_of(e, w),
{
    let mut m: Vec<(String, Json)> = Vec::new();
    m.push(crate::json::str_pair("code", e.code));
    m.push(crate::json::member("message", Json::Str(e.message)));
    Json::Obj(m)
}

/// The published sessions of one result, moved out of it.
fn take_published(result: Json) -> (r: Vec<Json>)
    ensures
        r@ == published(Ok(result)),
{
    match result {
        Json::Obj(fields) => {
            let (_, found) = split_member(fields, "sessions");
            match found {
                Some(Json::Arr(items)) => items,
                _ => Vec::new(),
            }
        },
        _ => Vec::new(),
    }
}

proof fn lemma_published_step(results: Seq<AppResult<Json>>, i: int)
    requires
        0 <= i < results.len(),
    ensures
        all_published(results.take(i + 1)) == all_published(results.take(i)) + published(results[i]),
        failures(results.take(i + 1)) == match results[i] {
            Err(e) => failures(results.take(i)).push(e),
            Ok(_) => failures(results.take(i)),
        },
{
    let t = results.take(i + 1);
    assert(t.drop_last() =~= results.take(i));
    assert(t.last() == results[i]);
}

/// Merges the providers' results into the public discovery envelope. A
/// change of the foreground window during the discovery refuses the whole
/// result; a failed provider only adds a warning.
pub fn session_discovery(results: Vec<AppResult<Json>>, max_items: usize, foreground_before: isize, foreground_after: isize) -> (r: AppResult<Json>)
    ensures
        r is Ok <==> foreground_before == foreground_after,
        r matches Err(e) ==> e.code@ == "HOST_INTERFERENCE_DETECTED"@
            && e.message@ == "The foreground target changed during a non-foreground app operation."@
            && interference_details(e.details, None, false),
        r matches Ok(env) ==> exists|clean: Seq<Json>| #[trigger] sanitized_all(all_published(results@), clean)
            && discovery_envelope(env, clean, max_items as int, failures(results@)),
{
    let ghost orig = results@;
    assert(orig.len() == results.len());
    let mut rest = results;
    let mut merged: Vec<Json> = Vec::new();
    let mut warnings: Vec<Json> = Vec::new();
    let ghost mut raw: Seq<Json> = Seq::empty();
    let mut i: usize = 0;
    assert(orig.take(0) =~= Seq::<AppResult<Json>>::empty());
    while rest.len() > 0
        invariant
            orig.len() <= usize::MAX,
            i + rest@.len() == orig.len(),
            rest@ == orig.skip(i as int),
            raw == all_published(orig.take(i as int)),
            sanitized_all(raw, merged@),
            warnings_for(failures(orig.take(i as int)), warnings@),
        decreases rest@.len(),
    {
        let result = rest.remove(0);
        proof {
            assert(result == orig[i as int]);
            lemma_published_step(orig, i as int);
        }
        match result {
            Ok(v) => {
                let items = take_published(v);
                let ghost batch = items@;
                assert(batch.len() == items.len());
                let mut pending = items;
                let mut j: usize = 0;
                while pending.len() > 0
                    invariant
                        batch.len() <= usize::MAX,
                        j + pending@.len() == batch.len(),
                        pending@ == batch.skip(j as int),
                        sanitized_all(raw + batch.take(j as int), merged@),
                    decreases pending@.len(),
                {
                    let item = pending.remove(0);
                    assert(item == batch[j as int]);
                    let clean = sanitize_public_value(item);
                    merged.push(clean);
                    assert(raw + batch.take(j + 1) =~= (raw + batch.take(j as int)).push(batch[j as int]));
                    assert(pending@ =~= batch.skip(j + 1));
                    j = j + 1;
                }
                assert(batch.take(j as int) =~= batch);
                proof { raw = raw + batch; }
            },
            Err(e) => {
                let w = warning(e);
                warnings.push(w);
            },
        }
        assert(rest@ =~= orig.skip(i + 1));
        i = i + 1;
    }
    assert(orig.take(i as int) =~= orig);
    if let Err(e) = ensure_foreground_invariance(foreground_before, foreground_after, None, false) {
        return Err(e);
    }
    let ghost clean = merged@;
    let mut sessions = order_sessions(merged);
    let total: usize = sessions.len();
    sessions.truncate(max_items);
    let count: usize = sessions.len();
    proof {
        lemma_ranked_len(clean);
        assert(count == shown(clean.len() as int, max_items as int));
        assert(sessions@ == ranked(clean).take(count as int));
    }
    let mut m: Vec<(String, Json)> = Vec::new();
    m.push(crate::json::str_pair("surface", "app"));
    m.push(crate::json::str_pair("capability", crate::capabilities::APPLICATION_SESSION_DISCOVER));
    m.push(crate::json::bool_pair("readOnly", true));
    m.push(crate::json::bool_pair("foregroundUnchanged", true));
    m.push(crate::json::str_pair("targetIdentity", "opaque-versioned-session-id"));
    m.push(crate::json::value_pair("count", Json::Int(count as i128)));
    m.push(crate::json::value_pair("total", Json::Int(total as i128)));
    m.push(crate::json::bool_pair("truncated", total > count));
    m.push(crate::json::value_pair("sessions", Json::Arr(sessions)));
    m.push(crate::json::value_pair("warnings", Json::Arr(warnings)));
    let data = Json::Obj(m);
    let copy = clone_json(&data);
    let mut envelope: Vec<(String, Json)> = match copy {
        Json::Obj(fields) => fields,
        _ => Vec::new(),
    };
    envelope.push(crate::json::str_pair("app", "app"));
    envelope.push(crate::json::bool_pair("ok", true));
    envelope.push(crate::json::value_pair("data", data));
    let env = Json::Obj(envelope);
    proof {
        assert(discovery_data(data, clean, max_items as int, failures(orig)));
        assert(discovery_envelope(env, clean, max_items as int, failures(orig)));
    }
    assert(sanitized_all(all_published(orig), clean));
    Ok(env)
}

} // verus!
