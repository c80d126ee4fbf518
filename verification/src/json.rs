//! A plain JSON value that the library's logic reads and builds; app/ converts
//! it to and from `serde_json::Value`.

use vstd::prelude::*;
use crate::text::str_eq;

verus! {

/// A JSON value. Numbers are integers; a fractional number is kept only as
/// the fact that it is one, since no rule of the library reads its value.
#[derive(Debug, PartialEq)]
pub enum Json {
    Null,
    Bool(bool),
    Int(i128),
    Fraction,
    Str(String),
    Arr(Vec<Json>),
    Obj(Vec<(String, Json)>),
}

/// The value of the first member of `fields` named `key`.
pub open spec fn field_of(fields: Seq<(String, Json)>, key: Seq<char>) -> Option<Json>
    decreases fields.len(),
{
    if fields.len() == 0 {
        None
    } else if fields[0].0@ == key {
        Some(fields[0].1)
    } else {
        field_of(fields.drop_first(), key)
    }
}

/// The member `key` of an object; `None` for a missing member or a non-object.
pub open spec fn get_spec(j: Json, key: Seq<char>) -> Option<Json> {
    match j {
        Json::Obj(fields) => field_of(fields@, key),
        _ => None,
    }
}

/// The characters of a string value.
pub open spec fn str_spec(j: Json) -> Option<Seq<char>> {
    match j {
        Json::Str(s) => Some(s@),
        _ => None,
    }
}

/// A non-negative integer that fits in 64 bits.
pub open spec fn u64_spec(j: Json) -> Option<u64> {
    match j {
        Json::Int(n) => if 0 <= n && n <= u64::MAX { Some(n as u64) } else { None },
        _ => None,
    }
}

/// A signed integer that fits in 64 bits.
pub open spec fn i64_spec(j: Json) -> Option<i64> {
    match j {
        Json::Int(n) => if i64::MIN <= n && n <= i64::MAX { Some(n as i64) } else { None },
        _ => None,
    }
}

/// A boolean value.
pub open spec fn bool_spec(j: Json) -> Option<bool> {
    match j {
        Json::Bool(b) => Some(b),
        _ => None,
    }
}

/// The elements of an array value.
pub open spec fn arr_spec(j: Json) -> Option<Seq<Json>> {
    match j {
        Json::Arr(v) => Some(v@),
        _ => None,
    }
}

/// The member `key` of a list of object members.
pub fn fields_get<'a>(fields: &'a Vec<(String, Json)>, key: &str) -> (r: Option<&'a Json>)
    ensures
        match field_of(fields@, key@) {
            Some(v) => r matches Some(x) && *x == v,
            None => r is None,
        },
{
    let mut i: usize = 0;
    assert(fields@.skip(0) =~= fields@);
    while i < fields.len()
        invariant
            i <= fields@.len(),
            field_of(fields@, key@) == field_of(fields@.skip(i as int), key@),
        decreases fields@.len() - i,
    {
        assert(fields@.skip(i as int).drop_first() =~= fields@.skip(i + 1));
        assert(fields@.skip(i as int)[0] == fields@[i as int]);
        if str_eq(fields[i].0.as_str(), key) {
            return Some(&fields[i].1);
        }
        i = i + 1;
    }
    None
}

impl Json {
    /// The member `key` of an object value.
    pub fn get(&self, key: &str) -> (r: Option<&Json>)
        ensures
            match get_spec(*self, key@) {
                Some(v) => r matches Some(x) && *x == v,
                None => r is None,
            },
    {
        match self {
            Json::Obj(fields) => fields_get(fields, key),
            _ => None,
        }
    }

    /// The string slice of a string value.
    pub fn as_str(&self) -> (r: Option<&str>)
        ensures
            match str_spec(*self) {
                Some(s) => r matches Some(x) && x@ == s,
                None => r is None,
            },
    {
        match self {
            Json::Str(s) => Some(s.as_str()),
            _ => None,
        }
    }

    /// A non-negative integer value that fits in 64 bits.
    pub fn as_u64(&self) -> (r: Option<u64>)
        ensures
            r == u64_spec(*self),
    {
        match self {
            Json::Int(n) => if 0 <= *n && *n <= u64::MAX as i128 { Some(*n as u64) } else { None },
            _ => None,
        }
    }

    /// A signed integer value that fits in 64 bits.
    pub fn as_i64(&self) -> (r: Option<i64>)
        ensures
            r == i64_spec(*self),
    {
        match self {
            Json::Int(n) => if i64::MIN as i128 <= *n && *n <= i64::MAX as i128 { Some(*n as i64) } else { None },
            _ => None,
        }
    }

    /// A boolean value.
    pub fn as_bool(&self) -> (r: Option<bool>)
        ensures
            r == bool_spec(*self),
    {
        match self {
            Json::Bool(b) => Some(*b),
            _ => None,
        }
    }

    /// The elements of an array value.
    pub fn as_array(&self) -> (r: Option<&Vec<Json>>)
        ensures
            match arr_spec(*self) {
                Some(s) => r matches Some(v) && v@ == s,
                None => r is None,
            },
    {
        match self {
            Json::Arr(v) => Some(v),
            _ => None,
        }
    }

    /// A string value built from a slice.
    pub fn string(s: &str) -> (r: Json)
        ensures
            str_spec(r) == Some(s@),
    {
        Json::Str(crate::text::owned(s))
    }
}

/// One object member.
pub fn member(key: &str, value: Json) -> (r: (String, Json))
    ensures
        r.0@ == key@,
        r.1 == value,
{
    (crate::text::owned(key), value)
}

} // verus!

verus! {

/// Whether a member is `key` with the string `val`.
pub open spec fn str_member(p: (String, Json), key: Seq<char>, val: Seq<char>) -> bool {
    p.0@ == key && str_spec(p.1) == Some(val)
}

/// Whether a member is `key` with the boolean `val`.
pub open spec fn bool_member(p: (String, Json), key: Seq<char>, val: bool) -> bool {
    p.0@ == key && p.1 == Json::Bool(val)
}

/// Whether a member is `key` with the value `val`.
pub open spec fn value_member(p: (String, Json), key: Seq<char>, val: Json) -> bool {
    p.0@ == key && p.1 == val
}

/// A string member.
pub fn str_pair(key: &str, val: &str) -> (r: (String, Json))
    ensures
        str_member(r, key@, val@),
{
    (crate::text::owned(key), Json::string(val))
}

/// A boolean member.
pub fn bool_pair(key: &str, val: bool) -> (r: (String, Json))
    ensures
        bool_member(r, key@, val),
{
    (crate::text::owned(key), Json::Bool(val))
}

/// A member with an arbitrary value.
pub fn value_pair(key: &str, val: Json) -> (r: (String, Json))
    ensures
        value_member(r, key@, val),
{
    (crate::text::owned(key), val)
}

} // verus!

verus! {

/// Deep equality of two JSON values: same shape, same scalars, strings with
/// equal characters, and pairwise deeply equal members and elements.
pub open spec fn json_eq(a: Json, b: Json) -> bool
    decreases a,
{
    match a {
        Json::Null => b == Json::Null,
        Json::Bool(x) => b == Json::Bool(x),
        Json::Int(n) => b == Json::Int(n),
        Json::Fraction => b == Json::Fraction,
        Json::Str(s) => match b {
            Json::Str(t) => s@ == t@,
            _ => false,
        },
        Json::Arr(v) => match b {
            Json::Arr(w) => v@.len() == w@.len()
                && forall|i: int| 0 <= i < v@.len() ==> json_eq(#[trigger] v@[i], w@[i]),
            _ => false,
        },
        Json::Obj(f) => match b {
            Json::Obj(g) => f@.len() == g@.len()
                && forall|i: int| 0 <= i < f@.len() ==> (#[trigger] f@[i]).0@ == g@[i].0@ && json_eq(f@[i].1, g@[i].1),
            _ => false,
        },
    }
}

} // verus!

verus! {

/// A deep copy of a JSON value.
pub fn clone_json(j: &Json) -> (r: Json)
    ensures
        json_eq(*j, r),
    decreases j,
{
    match j {
        Json::Null => Json::Null,
        Json::Bool(b) => Json::Bool(*b),
        Json::Int(n) => Json::Int(*n),
        Json::Fraction => Json::Fraction,
        Json::Str(s) => Json::Str(s.clone()),
        Json::Arr(v) => {
            let mut out: Vec<Json> = Vec::new();
            let mut i: usize = 0;
            while i < v.len()
                invariant
                    *j == Json::Arr(*v),
                    i <= v@.len(),
                    out@.len() == i,
                    forall|k: int| 0 <= k < i ==> json_eq(#[trigger] v@[k], out@[k]),
                decreases v@.len() - i,
            {
                proof {
                    vstd::std_specs::vec::axiom_vec_index_decreases(*v, i as int);
                    assert(decreases_to!(*j => (*j)->Arr_0));
                    assert(decreases_to!(*v => v[i as int]));
                    assert(decreases_to!(*j => v[i as int]));
                }
                out.push(clone_json(&v[i]));
                i = i + 1;
            }
            Json::Arr(out)
        },
        Json::Obj(fields) => {
            let mut out: Vec<(String, Json)> = Vec::new();
            let mut i: usize = 0;
            while i < fields.len()
                invariant
                    *j == Json::Obj(*fields),
                    i <= fields@.len(),
                    out@.len() == i,
                    forall|k: int| 0 <= k < i ==> (#[trigger] fields@[k]).0@ == out@[k].0@
                        && json_eq(fields@[k].1, out@[k].1),
                decreases fields@.len() - i,
            {
                proof {
                    vstd::std_specs::vec::axiom_vec_index_decreases(*fields, i as int);
                    assert(decreases_to!(fields@[i as int] => fields@[i as int].1));
                    assert(decreases_to!(*j => (*j)->Obj_0));
                    assert(decreases_to!(*fields => fields[i as int]));
                    assert(decreases_to!(*j => fields[i as int].1));
                }
                let v = clone_json(&fields[i].1);
                out.push((fields[i].0.clone(), v));
                i = i + 1;
            }
            Json::Obj(out)
        },
    }
}

} // verus!

verus! {

/// The members not named `key`.
pub open spec fn not_named(key: Seq<char>) -> spec_fn((String, Json)) -> bool {
    |p: (String, Json)| p.0@ != key
}

/// The members of `fields` without those named `key`.
pub open spec fn without_member(fields: Seq<(String, Json)>, key: Seq<char>) -> Seq<(String, Json)> {
    fields.filter(not_named(key))
}

/// Removing the members named `key` leaves the member named `other` as it was.
pub proof fn lemma_field_of_filter(fields: Seq<(String, Json)>, key: Seq<char>, other: Seq<char>)
    requires
        other != key,
    ensures
        field_of(without_member(fields, key), other) == field_of(fields, other),
    decreases fields.len(),
{
    let f = not_named(key);
    if fields.len() > 0 {
        let rest = fields.drop_first();
        lemma_field_of_filter(rest, key, other);
        assert(fields =~= seq![fields[0]] + rest);
        rest.lemma_filter_prepend(fields[0], f);
        if f(fields[0]) {
            let g = seq![fields[0]] + rest.filter(f);
            assert(g.drop_first() =~= rest.filter(f));
            assert(g[0] == fields[0]);
        } else {
            assert(Seq::<(String, Json)>::empty() + rest.filter(f) =~= rest.filter(f));
        }
    } else {
        assert(fields.filter(f) =~= Seq::<(String, Json)>::empty());
    }
}

/// Once the members named `key` are removed, the object has no member `key`.
pub proof fn lemma_field_of_filter_removed(fields: Seq<(String, Json)>, key: Seq<char>)
    ensures
        field_of(without_member(fields, key), key) is None,
    decreases fields.len(),
{
    let f = not_named(key);
    if fields.len() > 0 {
        let rest = fields.drop_first();
        lemma_field_of_filter_removed(rest, key);
        assert(fields =~= seq![fields[0]] + rest);
        rest.lemma_filter_prepend(fields[0], f);
        if f(fields[0]) {
            let g = seq![fields[0]] + rest.filter(f);
            assert(g.drop_first() =~= rest.filter(f));
            assert(g[0] == fields[0]);
        } else {
            assert(Seq::<(String, Json)>::empty() + rest.filter(f) =~= rest.filter(f));
        }
    } else {
        assert(fields.filter(f) =~= Seq::<(String, Json)>::empty());
    }
}

/// Appending a member changes what `key` reads only when the object had no
/// member `key` and the new member is named `key`.
pub proof fn lemma_field_of_push(fields: Seq<(String, Json)>, p: (String, Json), key: Seq<char>)
    ensures
        field_of(fields, key) is Some ==> field_of(fields.push(p), key) == field_of(fields, key),
        field_of(fields, key) is None ==> field_of(fields.push(p), key) == (if p.0@ == key { Some(p.1) } else { None }),
    decreases fields.len(),
{
    if fields.len() > 0 {
        lemma_field_of_push(fields.drop_first(), p, key);
        assert(fields.push(p).drop_first() =~= fields.drop_first().push(p));
        assert(fields.push(p)[0] == fields[0]);
    } else {
        assert(fields.push(p) =~= seq![p]);
        assert(seq![p].drop_first() =~= Seq::<(String, Json)>::empty());
        assert(field_of(Seq::<(String, Json)>::empty(), key) is None);
    }
}

/// Sets member `key` to `value`: any member of that name is dropped and the
/// new member is appended; every other member keeps its value.
pub fn set_member(fields: Vec<(String, Json)>, key: &str, value: Json) -> (r: Vec<(String, Json)>)
    ensures
        field_of(r@, key@) == Some(value),
        forall|k: Seq<char>| k != key@ ==> #[trigger] field_of(r@, k) == field_of(fields@, k),
{
    let ghost f = not_named(key@);
    let mut fields = fields;
    let total = fields.len();
    let ghost orig = fields@;
    let mut kept: Vec<(String, Json)> = Vec::new();
    // Walk from the front by removing the first element each time.
    let mut i: usize = 0;
    while fields.len() > 0
        invariant
            f == not_named(key@),
            orig.len() <= usize::MAX,
            i + fields@.len() == orig.len(),
            fields@ == orig.skip(i as int),
            kept@ == orig.take(i as int).filter(f),
        decreases fields@.len(),
    {
        let p = fields.remove(0);
        proof {
            let t = orig.take(i + 1);
            assert(t.drop_last() =~= orig.take(i as int));
            assert(t.last() == p);
            reveal_with_fuel(Seq::filter, 1);
        }
        if !str_eq(p.0.as_str(), key) {
            kept.push(p);
        }
        assert(fields@ =~= orig.skip(i + 1));
        i = i + 1;
    }
    assert(orig.take(i as int) =~= orig);
    proof {
        assert forall|k: Seq<char>| k != key@ implies field_of(kept@, k) == field_of(orig, k) by {
            lemma_field_of_filter(orig, key@, k);
        }
        lemma_field_of_filter_removed(orig, key@);
    }
    let ghost before = kept@;
    kept.push(member(key, value));
    proof {
        lemma_field_of_push(before, kept@.last(), key@);
        assert(kept@ =~= before.push(kept@.last()));
        assert forall|k: Seq<char>| k != key@ implies #[trigger] field_of(kept@, k) == field_of(orig, k) by {
            lemma_field_of_push(before, kept@.last(), k);
        }
    }
    kept
}

} // verus!

verus! {

/// Whether `r` is `fields` without the members named in `keys`: those are
/// gone and every other member keeps its value.
pub open spec fn stripped(fields: Seq<(String, Json)>, keys: Seq<Seq<char>>, r: Seq<(String, Json)>) -> bool {
    forall|k: Seq<char>| #[trigger] field_of(r, k) == if keys.contains(k) { None } else { field_of(fields, k) }
}

/// Separates the members named `key` from the others: the others keep their
/// order, and the value of the first named member is returned.
pub fn split_member(fields: Vec<(String, Json)>, key: &str) -> (r: (Vec<(String, Json)>, Option<Json>))
    ensures
        r.0@ == without_member(fields@, key@),
        r.1 == field_of(fields@, key@),
{
    let ghost f = not_named(key@);
    let mut fields = fields;
    let ghost orig = fields@;
    let mut kept: Vec<(String, Json)> = Vec::new();
    let mut found: Option<Json> = None;
    let total: usize = fields.len();
    let mut i: usize = 0;
    while fields.len() > 0
        invariant
            f == not_named(key@),
            orig.len() == total,
            i + fields@.len() == orig.len(),
            fields@ == orig.skip(i as int),
            kept@ == orig.take(i as int).filter(f),
            found == field_of(orig.take(i as int), key@),
        decreases fields@.len(),
    {
        let p = fields.remove(0);
        proof {
            let t = orig.take(i + 1);
            assert(t.drop_last() =~= orig.take(i as int));
            assert(t.last() == p);
            reveal_with_fuel(Seq::filter, 1);
            lemma_field_of_push(orig.take(i as int), p, key@);
            assert(t =~= orig.take(i as int).push(p));
        }
        if !str_eq(p.0.as_str(), key) {
            kept.push(p);
        } else if found.is_none() {
            found = Some(p.1);
        }
        assert(fields@ =~= orig.skip(i + 1));
        i = i + 1;
    }
    assert(orig.take(i as int) =~= orig);
    (kept, found)
}

/// Removes every member named in `keys`.
pub fn remove_members(fields: Vec<(String, Json)>, keys: &[&str]) -> (r: Vec<(String, Json)>)
    ensures
        stripped(fields@, keys@.map_values(|k: &str| k@), r@),
{
    let ghost orig = fields@;
    let mut cur = fields;
    let mut i: usize = 0;
    assert(stripped(orig, keys@.take(0).map_values(|k: &str| k@), cur@)) by {
        assert(keys@.take(0).map_values(|k: &str| k@) =~= Seq::<Seq<char>>::empty());
    }
    while i < keys.len()
        invariant
            i <= keys@.len(),
            stripped(orig, keys@.take(i as int).map_values(|k: &str| k@), cur@),
        decreases keys@.len() - i,
    {
        let key = keys[i];
        let ghost before = cur@;
        let (rest, _) = split_member(cur, key);
        cur = rest;
        proof {
            let ks = keys@.take(i as int).map_values(|k: &str| k@);
            let ks1 = keys@.take(i + 1).map_values(|k: &str| k@);
            assert(ks1 =~= ks.push(key@));
            lemma_field_of_filter_removed(before, key@);
            assert forall|k: Seq<char>| #[trigger] field_of(cur@, k) == if ks1.contains(k) { None } else { field_of(orig, k) } by {
                if k != key@ {
                    lemma_field_of_filter(before, key@, k);
                    if ks.contains(k) {
                        let j = choose|j: int| 0 <= j < ks.len() && ks[j] == k;
                        assert(ks1[j] == k);
                        assert(ks1.contains(k));
                    } else {
                        assert(!ks1.contains(k)) by {
                            if ks1.contains(k) {
                                let j = choose|j: int| 0 <= j < ks1.len() && ks1[j] == k;
                                assert(j < ks.len());
                                assert(ks[j] == k);
                            }
                        }
                    }
                } else {
                    assert(ks1[ks1.len() - 1] == k);
                }
            }
        }
        i = i + 1;
    }
    assert(keys@.take(keys@.len() as int) =~= keys@);
    cur
}

} // verus!
