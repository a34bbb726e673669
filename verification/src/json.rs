//! A dynamic JSON-like value: the shape of token claims is decided by the
//! authorization server, so claims are held as a tagged union over plain
//! values rather than as a fixed struct.
use vstd::prelude::*;

use crate::text::str_eq_chars;
use crate::text::chars_of;

verus! {

/// A JSON-like document value. Objects are held as ordered field lists;
/// numbers are held as signed 64-bit integers, which covers every claim the
/// gateway reads (expiry timestamps, counters, identifiers).
#[derive(Debug, PartialEq)]
pub enum JsonValue {
    Null,
    Bool(bool),
    Int(i64),
    Str(String),
    Arr(Vec<JsonValue>),
    Obj(Vec<(String, JsonValue)>),
}

/// Structural equality of two values: same variant, equal contents.
/// Strings compare by their characters; arrays and objects compare
/// element by element, objects field by field in order.
pub open spec fn json_eq(a: JsonValue, b: JsonValue) -> bool
    decreases a,
{
    match (a, b) {
        (JsonValue::Null, JsonValue::Null) => true,
        (JsonValue::Bool(x), JsonValue::Bool(y)) => x == y,
        (JsonValue::Int(x), JsonValue::Int(y)) => x == y,
        (JsonValue::Str(x), JsonValue::Str(y)) => x@ == y@,
        (JsonValue::Arr(x), JsonValue::Arr(y)) => {
            &&& x@.len() == y@.len()
            &&& forall|i: int| 0 <= i < x@.len() ==> json_eq(#[trigger] x@[i], y@[i])
        },
        (JsonValue::Obj(x), JsonValue::Obj(y)) => {
            &&& x@.len() == y@.len()
            &&& forall|i: int|
                0 <= i < x@.len() ==> {
                    &&& (#[trigger] x@[i]).0@ == y@[i].0@
                    &&& json_eq(x@[i].1, y@[i].1)
                }
        },
        _ => false,
    }
}

/// Decides structural equality, as `json_eq` states it.
pub fn eq_value(a: &JsonValue, b: &JsonValue) -> (r: bool)
    ensures
        r == json_eq(*a, *b),
    decreases *a,
{
    match (a, b) {
        (JsonValue::Null, JsonValue::Null) => true,
        (JsonValue::Bool(x), JsonValue::Bool(y)) => x == y,
        (JsonValue::Int(x), JsonValue::Int(y)) => x == y,
        (JsonValue::Str(x), JsonValue::Str(y)) => *x == *y,
        (JsonValue::Arr(x), JsonValue::Arr(y)) => {
            if x.len() != y.len() {
                return false;
            }
            let mut i: usize = 0;
            while i < x.len()
                invariant
                    i <= x@.len(),
                    x@.len() == y@.len(),
                    a is Arr && a->Arr_0 == x,
                    b is Arr && b->Arr_0 == y,
                    forall|j: int| 0 <= j < i ==> json_eq(#[trigger] x@[j], y@[j]),
                decreases x@.len() - i,
            {
                proof {
                    assert(decreases_to!(*a => x@[i as int]));
                }
                if !eq_value(&x[i], &y[i]) {
                    return false;
                }
                i = i + 1;
            }
            true
        },
        (JsonValue::Obj(x), JsonValue::Obj(y)) => {
            if x.len() != y.len() {
                return false;
            }
            let mut i: usize = 0;
            while i < x.len()
                invariant
                    i <= x@.len(),
                    x@.len() == y@.len(),
                    a is Obj && a->Obj_0 == x,
                    b is Obj && b->Obj_0 == y,
                    forall|j: int|
                        0 <= j < i ==> {
                            &&& (#[trigger] x@[j]).0@ == y@[j].0@
                            &&& json_eq(x@[j].1, y@[j].1)
                        },
                decreases x@.len() - i,
            {
                let key_match = x[i].0 == y[i].0;
                if !key_match {
                    return false;
                }
                proof {
                    assert(decreases_to!(*a => x@[i as int].1));
                }
                if !eq_value(&x[i].1, &y[i].1) {
                    return false;
                }
                i = i + 1;
            }
            true
        },
        _ => false,
    }
}

/// Index of the first `'.'` in `s`, or `s.len()` if there is none.
pub open spec fn first_dot(s: Seq<char>) -> nat
    decreases s.len(),
{
    if s.len() == 0 {
        0
    } else if s[0] == '.' {
        0
    } else {
        (1 + first_dot(s.drop_first())) as nat
    }
}

/// The segments of `s` between `'.'` separators. A string without a dot is
/// one segment; consecutive dots yield empty segments.
pub open spec fn split_on_dots(s: Seq<char>) -> Seq<Seq<char>>
    decreases s.len(),
{
    let d = first_dot(s);
    if d >= s.len() {
        seq![s]
    } else {
        seq![s.take(d as int)] + split_on_dots(s.skip(d + 1int))
    }
}

/// The key segments of a dotted path. The empty path has no segments, so a
/// lookup with it yields the root value.
pub open spec fn path_segments(s: Seq<char>) -> Seq<Seq<char>> {
    if s.len() == 0 {
        Seq::empty()
    } else {
        split_on_dots(s)
    }
}

/// The value of the first field named `key`, if any.
pub open spec fn obj_get(fields: Seq<(String, JsonValue)>, key: Seq<char>) -> Option<JsonValue>
    decreases fields.len(),
{
    if fields.len() == 0 {
        None
    } else if fields[0].0@ == key {
        Some(fields[0].1)
    } else {
        obj_get(fields.drop_first(), key)
    }
}

/// Key lookup on a value: only an object can be traversed by key.
pub open spec fn spec_get(v: JsonValue, key: Seq<char>) -> Option<JsonValue> {
    match v {
        JsonValue::Obj(fields) => obj_get(fields@, key),
        _ => None,
    }
}

/// Walks `v` along the given key segments; absence or a non-object on the
/// way yields `None`.
pub open spec fn lookup_path(v: JsonValue, segs: Seq<Seq<char>>) -> Option<JsonValue>
    decreases segs.len(),
{
    if segs.len() == 0 {
        Some(v)
    } else {
        match spec_get(v, segs[0]) {
            Some(w) => lookup_path(w, segs.drop_first()),
            None => None,
        }
    }
}

/// What a dotted-path lookup returns on `v`.
pub open spec fn spec_get_path(v: JsonValue, path: Seq<char>) -> Option<JsonValue> {
    lookup_path(v, path_segments(path))
}

proof fn lemma_first_dot_concat(pre: Seq<char>, rest: Seq<char>)
    requires
        forall|j: int| 0 <= j < pre.len() ==> pre[j] != '.',
        rest.len() > 0,
        rest[0] == '.',
    ensures
        first_dot(pre + rest) == pre.len(),
    decreases pre.len(),
{
    if pre.len() == 0 {
        assert(pre + rest =~= rest);
    } else {
        assert((pre + rest)[0] == pre[0]);
        assert((pre + rest).drop_first() =~= pre.drop_first() + rest);
        lemma_first_dot_concat(pre.drop_first(), rest);
    }
}

proof fn lemma_first_dot_none(s: Seq<char>)
    requires
        forall|j: int| 0 <= j < s.len() ==> s[j] != '.',
    ensures
        first_dot(s) == s.len(),
    decreases s.len(),
{
    if s.len() > 0 {
        lemma_first_dot_none(s.drop_first());
    }
}

proof fn lemma_split_dot_head(pre: Seq<char>, rest: Seq<char>)
    requires
        forall|j: int| 0 <= j < pre.len() ==> pre[j] != '.',
        rest.len() > 0,
        rest[0] == '.',
    ensures
        split_on_dots(pre + rest) == seq![pre] + split_on_dots(rest.drop_first()),
{
    lemma_first_dot_concat(pre, rest);
    let s = pre + rest;
    assert(s.take(pre.len() as int) =~= pre);
    assert(s.skip(pre.len() + 1int) =~= rest.drop_first());
}

proof fn lemma_split_no_dot(s: Seq<char>)
    requires
        forall|j: int| 0 <= j < s.len() ==> s[j] != '.',
    ensures
        split_on_dots(s) == seq![s],
{
    lemma_first_dot_none(s);
}

impl JsonValue {
    /// Looks up a field of an object value by its key, given as characters.
    pub fn get_key<'a>(&'a self, key: &[char]) -> (r: Option<&'a JsonValue>)
        ensures
            match r {
                Some(w) => spec_get(*self, key@) == Some(*w),
                None => spec_get(*self, key@) is None,
            },
    {
        match self {
            JsonValue::Obj(fields) => {
                let n = fields.len();
                let mut i: usize = 0;
                assert(fields@.skip(0) =~= fields@);
                while i < n
                    invariant
                        i <= n,
                        n == fields@.len(),
                        self is Obj && self->Obj_0 == *fields,
                        obj_get(fields@, key@) == obj_get(fields@.skip(i as int), key@),
                    decreases n - i,
                {
                    assert(fields@.skip(i as int)[0] == fields@[i as int]);
                    if str_eq_chars(fields[i].0.as_str(), key) {
                        return Some(&fields[i].1);
                    }
                    assert(fields@.skip(i as int).drop_first() =~= fields@.skip(i + 1));
                    i = i + 1;
                }
                None
            },
            _ => None,
        }
    }

    /// Dotted-path lookup: walks nested object fields by the successive
    /// dot-separated keys of `path`, returning the terminal value, or the
    /// root value itself when `path` is empty.
    pub fn get_path<'a>(&'a self, path: &str) -> (r: Option<&'a JsonValue>)
        ensures
            match r {
                Some(w) => spec_get_path(*self, path@) == Some(*w),
                None => spec_get_path(*self, path@) is None,
            },
    {
        let cs = chars_of(path);
        if cs.len() == 0 {
            return Some(self);
        }
        let segs = split_dots(&cs);
        let ghost f = split_on_dots(path@);
        let mut cur: &JsonValue = self;
        let mut k: usize = 0;
        assert(f.skip(0) =~= f);
        while k < segs.len()
            invariant
                k <= segs@.len(),
                segs@.len() == f.len(),
                forall|j: int| 0 <= j < f.len() ==> (#[trigger] segs@[j])@ == f[j],
                lookup_path(*self, f) == lookup_path(*cur, f.skip(k as int)),
                spec_get_path(*self, path@) == lookup_path(*self, f),
            decreases segs@.len() - k,
        {
            assert(f.skip(k as int)[0] == f[k as int]);
            match cur.get_key(segs[k].as_slice()) {
                Some(w) => {
                    assert(f.skip(k as int).drop_first() =~= f.skip(k + 1));
                    cur = w;
                    k = k + 1;
                },
                None => {
                    return None;
                },
            }
        }
        assert(f.skip(k as int) =~= Seq::<Seq<char>>::empty());
        Some(cur)
    }
}

/// Splits a non-empty character sequence into its dot-separated segments.
fn split_dots(cs: &Vec<char>) -> (segs: Vec<Vec<char>>)
    ensures
        segs@.len() == split_on_dots(cs@).len(),
        forall|k: int|
            0 <= k < segs@.len() ==> (#[trigger] segs@[k])@ == split_on_dots(cs@)[k],
{
    let mut segs: Vec<Vec<char>> = Vec::new();
    let mut cur: Vec<char> = Vec::new();
    let n = cs.len();
    let mut i: usize = 0;
    proof {
        assert(cur@ + cs@.skip(0) =~= cs@);
        assert(Seq::new(segs@.len(), |k: int| segs@[k]@) + split_on_dots(cs@) =~= split_on_dots(
            cs@,
        ));
    }
    while i < n
        invariant
            i <= n,
            n == cs@.len(),
            forall|j: int| 0 <= j < cur@.len() ==> cur@[j] != '.',
            split_on_dots(cs@) == {
                let done = Seq::new(segs@.len(), |k: int| segs@[k]@);
                done + split_on_dots(cur@ + cs@.skip(i as int))
            },
        decreases n - i,
    {
        let ghost done = Seq::new(segs@.len(), |k: int| segs@[k]@);
        let c = cs[i];
        if c == '.' {
            proof {
                lemma_split_dot_head(cur@, cs@.skip(i as int));
                assert(cs@.skip(i as int).drop_first() =~= cs@.skip(i + 1));
            }
            segs.push(cur);
            cur = Vec::new();
            proof {
                assert(Seq::new(segs@.len(), |k: int| segs@[k]@) =~= done.push(
                    segs@[segs@.len() - 1]@,
                ));
                assert(cur@ + cs@.skip(i + 1) =~= cs@.skip(i + 1));
                assert(split_on_dots(cs@) =~= Seq::new(segs@.len(), |k: int| segs@[k]@)
                    + split_on_dots(cur@ + cs@.skip(i + 1)));
            }
        } else {
            let ghost cur0 = cur@;
            cur.push(c);
            proof {
                assert(cur@ + cs@.skip(i + 1) =~= cur0 + cs@.skip(i as int));
            }
        }
        i = i + 1;
    }
    proof {
        lemma_split_no_dot(cur@);
        assert(cur@ + cs@.skip(n as int) =~= cur@);
    }
    let ghost done = Seq::new(segs@.len(), |k: int| segs@[k]@);
    segs.push(cur);
    proof {
        assert(Seq::new(segs@.len(), |k: int| segs@[k]@) =~= done.push(segs@[segs@.len() - 1]@));
    }
    segs
}

} // verus!
