//! A structured model of the JSON values exchanged with the remote service.
//!
//! Responses are decoded into this generic shape first, sanitized, and only
//! then decoded into typed results, so that malformed partial records never
//! reach typed decoding.

use vstd::prelude::*;
use vstd::seq_lib::*;

verus! {

/// A generic structured value: the shape of every request and response body.
/// Numbers are modeled as 64-bit signed integers, which covers every value
/// the service assigns (identifiers, orders, counts).
#[derive(Debug, PartialEq, Eq)]
pub enum JsonValue {
    Null,
    Bool(bool),
    Int(i64),
    Text(String),
    Array(Vec<JsonValue>),
    Object(Vec<(String, JsonValue)>),
}

/// First-match lookup of a key among the members of an object.
pub open spec fn spec_lookup(pairs: Seq<(String, JsonValue)>, key: Seq<char>) -> Option<JsonValue>
    decreases pairs.len(),
{
    if pairs.len() == 0 {
        None
    } else if pairs[0].0@ == key {
        Some(pairs[0].1)
    } else {
        spec_lookup(pairs.drop_first(), key)
    }
}

/// An object with zero members: the spurious placeholder shape that the
/// remote service occasionally emits inside result arrays.
pub open spec fn spec_is_empty_object(v: JsonValue) -> bool {
    v matches JsonValue::Object(pairs) && pairs@.len() == 0
}

/// Elements kept by the sanitization rule: everything except empty objects.
pub open spec fn spec_keeps(v: JsonValue) -> bool {
    !spec_is_empty_object(v)
}

/// The sanitization rule on a result array: remove every element that is an
/// object with zero members; keep everything else, order preserved.
pub open spec fn spec_sanitize_items(items: Seq<JsonValue>) -> Seq<JsonValue> {
    items.filter(|x: JsonValue| spec_keeps(x))
}

impl JsonValue {
    /// Whether this value is an object with zero members.
    pub fn is_empty_object(&self) -> (r: bool)
        ensures
            r == spec_is_empty_object(*self),
    {
        match self {
            JsonValue::Object(pairs) => pairs.len() == 0,
            _ => false,
        }
    }
}

/// First-match lookup of `key` among an object's members.
pub fn object_get<'a>(pairs: &'a Vec<(String, JsonValue)>, key: &String) -> (r: Option<
    &'a JsonValue,
>)
    ensures
        match r {
            Some(v) => spec_lookup(pairs@, key@) == Some(*v),
            None => spec_lookup(pairs@, key@) is None,
        },
{
    proof {
        assert(pairs@.skip(0) =~= pairs@);
    }
    let mut i: usize = 0;
    while i < pairs.len()
        invariant
            i <= pairs@.len(),
            spec_lookup(pairs@, key@) == spec_lookup(pairs@.skip(i as int), key@),
        decreases pairs@.len() - i as int,
    {
        proof {
            assert(pairs@.skip(i as int)[0] == pairs@[i as int]);
        }
        if pairs[i].0 == *key {
            assert(spec_lookup(pairs@.skip(i as int), key@) == Some(pairs@[i as int].1));
            return Some(&pairs[i].1);
        }
        proof {
            assert(pairs@.skip(i as int).drop_first() =~= pairs@.skip(i as int + 1));
        }
        i = i + 1;
    }
    proof {
        assert(pairs@.skip(i as int).len() == 0);
    }
    None
}

/// How the filter underlying the sanitization rule grows with its input.
proof fn lemma_filter_push(items: Seq<JsonValue>, x: JsonValue)
    ensures
        spec_sanitize_items(items.push(x)) == if spec_keeps(x) {
            spec_sanitize_items(items).push(x)
        } else {
            spec_sanitize_items(items)
        },
{
    reveal(Seq::filter);
    assert(items.push(x).drop_last() =~= items);
    assert(items.push(x).last() == x);
}

/// Sanitization is idempotent: applying the empty-object removal rule to an
/// already-sanitized array is a no-op.
pub proof fn lemma_sanitize_idempotent(items: Seq<JsonValue>)
    ensures
        spec_sanitize_items(spec_sanitize_items(items)) == spec_sanitize_items(items),
    decreases items.len(),
{
    reveal(Seq::filter);
    if items.len() == 0 {
    } else {
        let prefix = items.drop_last();
        let x = items.last();
        lemma_sanitize_idempotent(prefix);
        assert(prefix.push(x) =~= items);
        lemma_filter_push(prefix, x);
        if spec_keeps(x) {
            lemma_filter_push(spec_sanitize_items(prefix), x);
        }
    }
}

/// Applies the sanitization rule to the elements of a result array.
pub fn sanitize_items(items: Vec<JsonValue>) -> (r: Vec<JsonValue>)
    ensures
        r@ == spec_sanitize_items(items@),
{
    let ghost all = items@;
    let mut rest = items;
    let mut out: Vec<JsonValue> = Vec::new();
    let ghost done: Seq<JsonValue> = Seq::empty();
    while rest.len() > 0
        invariant
            all =~= done + rest@,
            out@ == spec_sanitize_items(done),
        decreases rest@.len(),
    {
        let x = rest.remove(0);
        proof {
            assert(done.push(x) + rest@ =~= all);
            lemma_filter_push(done, x);
        }
        if !x.is_empty_object() {
            out.push(x);
        }
        proof {
            done = done.push(x);
        }
    }
    proof {
        assert(done =~= all);
    }
    out
}

} // verus!
