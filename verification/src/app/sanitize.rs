//! Removal of the native foreground handles from public facade values: every
//! `foreground` object loses its `before` and `after` members, at any depth.

use vstd::prelude::*;
use crate::json::{Json, json_eq, split_member, without_member};

verus! {

/// The members of a foreground object without its native handles.
pub open spec fn without_handles(z: Seq<(String, Json)>) -> Seq<(String, Json)> {
    without_member(without_member(z, "before"@), "after"@)
}

/// Whether `b` is the object `z` without its native handles.
pub open spec fn handles_dropped(z: Json, b: Json) -> bool {
    match (z, b) {
        (Json::Obj(zf), Json::Obj(bf)) => bf@ == without_handles(zf@),
        _ => false,
    }
}

/// Whether `b` is `a` with the native foreground handles removed: arrays and
/// objects keep their shape and member names, every value is sanitized in
/// turn, and the value of a `foreground` member that is an object also loses
/// its `before` and `after` members; scalars are unchanged.
pub open spec fn public_sanitized(a: Json, b: Json) -> bool
    decreases a, 0nat,
{
    match a {
        Json::Arr(v) => match b {
            Json::Arr(w) => v@.len() == w@.len()
                && forall|i: int| 0 <= i < v@.len() ==> public_sanitized(#[trigger] v@[i], w@[i]),
            _ => false,
        },
        Json::Obj(f) => match b {
            Json::Obj(g) => f@.len() == g@.len()
                && forall|i: int| 0 <= i < f@.len() ==>
                    (#[trigger] g@[i]).0@ == f@[i].0@ && member_sanitized(f@[i].0@, f@[i].1, g@[i].1),
            _ => false,
        },
        _ => json_eq(a, b),
    }
}

/// Whether `b` is the sanitized value of the member `key` whose value is `a`.
pub open spec fn member_sanitized(key: Seq<char>, a: Json, b: Json) -> bool
    decreases a, 1nat,
{
    if key == "foreground"@ && a is Obj {
        exists|z: Json| #![trigger handles_dropped(z, b)] public_sanitized(a, z) && handles_dropped(z, b)
    } else {
        public_sanitized(a, b)
    }
}

/// Removes the native foreground handles from a public value.
pub fn sanitize_public_value(value: Json) -> (r: Json)
    ensures
        public_sanitized(value, r),
    decreases value,
{
    let ghost whole = value;
    match value {
        Json::Arr(items) => {
            let ghost orig = items;
            let mut rest = items;
            let mut out: Vec<Json> = Vec::new();
            let total: usize = rest.len();
            let mut i: usize = 0;
            while rest.len() > 0
                invariant
                    whole == Json::Arr(orig),
                    whole == value,
                    orig@.len() == total,
                    i + rest@.len() == orig@.len(),
                    rest@ == orig@.skip(i as int),
                    out@.len() == i,
                    forall|k: int| 0 <= k < i ==> public_sanitized(#[trigger] orig@[k], out@[k]),
                decreases rest@.len(),
            {
                let item = rest.remove(0);
                proof {
                    assert(item == orig@[i as int]);
                    vstd::std_specs::vec::axiom_vec_index_decreases(orig, i as int);
                    assert(decreases_to!(whole => whole->Arr_0));
                    assert(decreases_to!(whole => item));
                }
                let s = sanitize_public_value(item);
                out.push(s);
                assert(rest@ =~= orig@.skip(i + 1));
                i = i + 1;
            }
            let r = Json::Arr(out);
            assert(public_sanitized(whole, r));
            r
        },
        Json::Obj(fields) => {
            let ghost orig = fields;
            let mut rest = fields;
            let mut out: Vec<(String, Json)> = Vec::new();
            let total: usize = rest.len();
            let mut i: usize = 0;
            while rest.len() > 0
                invariant
                    whole == Json::Obj(orig),
                    whole == value,
                    orig@.len() == total,
                    i + rest@.len() == orig@.len(),
                    rest@ == orig@.skip(i as int),
                    out@.len() == i,
                    forall|k: int| 0 <= k < i ==>
                        (#[trigger] out@[k]).0@ == orig@[k].0@
                        && member_sanitized(orig@[k].0@, orig@[k].1, out@[k].1),
                decreases rest@.len(),
            {
                let (key, item) = rest.remove(0);
                proof {
                    assert((key, item) == orig@[i as int]);
                    vstd::std_specs::vec::axiom_vec_index_decreases(orig, i as int);
                    assert(decreases_to!(whole => whole->Obj_0));
                    assert(decreases_to!(orig@[i as int] => orig@[i as int].1));
                    assert(decreases_to!(whole => item));
                }
                let is_object = match &item { Json::Obj(_) => true, _ => false };
                let foreground = crate::text::str_eq(key.as_str(), "foreground");
                let ghost item_before = item;
                let s = sanitize_public_value(item);
                let ghost sanitized = s;
                let value = if foreground && is_object {
                    match s {
                        Json::Obj(z) => {
                            let (z1, _) = split_member(z, "before");
                            let (z2, _) = split_member(z1, "after");
                            let v = Json::Obj(z2);
                            assert(handles_dropped(sanitized, v));
                            v
                        },
                        other => other,
                    }
                } else {
                    s
                };
                proof {
                    if foreground && is_object {
                        assert(sanitized is Obj);
                        assert(handles_dropped(sanitized, value));
                    }
                    assert(member_sanitized(key@, item_before, value));
                }
                out.push((key, value));
                assert(rest@ =~= orig@.skip(i + 1));
                i = i + 1;
            }
            assert(orig@.len() == out@.len());
            Json::Obj(out)
        },
        Json::Null => Json::Null,
        Json::Bool(b) => Json::Bool(b),
        Json::Int(n) => Json::Int(n),
        Json::Fraction => Json::Fraction,
        Json::Str(s) => {
            let r = Json::Str(s);
            assert(json_eq(whole, r));
            r
        },
    }
}

} // verus!
