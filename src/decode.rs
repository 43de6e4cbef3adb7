//! Decoding records from JSON.
//!
//! A record field that may be missing is an `Option`: an absent member and a
//! `null` member both give `None`, and a member of the wrong kind rejects the
//! whole record. Members that a record does not declare are ignored.
use vstd::prelude::*;
use crate::json::{Json, member};

verus! {

/// A record that can be read from a JSON value.
pub trait Decode: Sized {
    /// `j` has the shape that this record reads.
    spec fn accepts(j: Json) -> bool;

    /// `self` holds what `j` says.
    spec fn decoded_from(self, j: Json) -> bool;

    /// Reads a record from `j`, or `None` when `j` does not have its shape.
    fn decode(j: &Json) -> (r: Option<Self>)
        ensures
            match r {
                Some(v) => Self::accepts(*j) && v.decoded_from(*j),
                None => !Self::accepts(*j),
            },
    ;
}

/// A string view of an optional string field.
pub open spec fn text_view(o: Option<String>) -> Option<Seq<char>> {
    match o {
        Some(s) => Some(s@),
        None => None,
    }
}

/// Member `key` of `j` is absent, `null`, or a string.
pub open spec fn text_ok(j: Json, key: Seq<char>) -> bool {
    match member(j, key) {
        None => true,
        Some(Json::Str(_)) => true,
        _ => false,
    }
}

/// The string held by member `key` of `j`.
pub open spec fn text_at(j: Json, key: Seq<char>) -> Option<Seq<char>> {
    match member(j, key) {
        Some(Json::Str(s)) => Some(s@),
        _ => None,
    }
}

/// Member `key` of `j` is absent, `null`, or an integer in the range of `i32`.
pub open spec fn i32_ok(j: Json, key: Seq<char>) -> bool {
    match member(j, key) {
        None => true,
        Some(Json::Integer(n)) => i32::MIN <= n <= i32::MAX,
        _ => false,
    }
}

/// The `i32` held by member `key` of `j`.
pub open spec fn i32_at(j: Json, key: Seq<char>) -> Option<i32> {
    match member(j, key) {
        Some(Json::Integer(n)) => Some(n as i32),
        _ => None,
    }
}

/// Member `key` of `j` is absent, `null`, or an integer in the range of `i64`.
pub open spec fn i64_ok(j: Json, key: Seq<char>) -> bool {
    match member(j, key) {
        None => true,
        Some(Json::Integer(_)) => true,
        _ => false,
    }
}

/// The `i64` held by member `key` of `j`.
pub open spec fn i64_at(j: Json, key: Seq<char>) -> Option<i64> {
    match member(j, key) {
        Some(Json::Integer(n)) => Some(n),
        _ => None,
    }
}

/// Member `key` of `j` is absent, `null`, or a boolean.
pub open spec fn bool_ok(j: Json, key: Seq<char>) -> bool {
    match member(j, key) {
        None => true,
        Some(Json::Bool(_)) => true,
        _ => false,
    }
}

/// The boolean held by member `key` of `j`.
pub open spec fn bool_at(j: Json, key: Seq<char>) -> Option<bool> {
    match member(j, key) {
        Some(Json::Bool(b)) => Some(b),
        _ => None,
    }
}

/// Member `key` of `j` is absent, `null`, or a value that record `T` accepts.
pub open spec fn record_ok<T: Decode>(j: Json, key: Seq<char>) -> bool {
    match member(j, key) {
        None => true,
        Some(v) => T::accepts(v),
    }
}

/// `o` is the record read from member `key` of `j`, or `None` where it is absent.
pub open spec fn record_is<T: Decode>(o: Option<T>, j: Json, key: Seq<char>) -> bool {
    match (o, member(j, key)) {
        (None, None) => true,
        (Some(x), Some(v)) => x.decoded_from(v),
        _ => false,
    }
}

/// Record `T` accepts every item.
pub open spec fn items_ok<T: Decode>(items: Seq<Json>) -> bool {
    forall|i: int| 0 <= i < items.len() ==> T::accepts(#[trigger] items[i])
}

/// Each record of `xs` is read from the item at the same position.
pub open spec fn items_are<T: Decode>(xs: Seq<T>, items: Seq<Json>) -> bool {
    &&& xs.len() == items.len()
    &&& forall|i: int| 0 <= i < xs.len() ==> (#[trigger] xs[i]).decoded_from(items[i])
}

/// `j` is an array whose every item record `T` accepts.
pub open spec fn list_ok<T: Decode>(j: Json) -> bool {
    match j {
        Json::Array(items) => items_ok::<T>(items@),
        _ => false,
    }
}

/// `xs` are the records read from the items of array `j`.
pub open spec fn list_is<T: Decode>(xs: Seq<T>, j: Json) -> bool {
    match j {
        Json::Array(items) => items_are(xs, items@),
        _ => false,
    }
}

/// Member `key` of `j` is absent, `null`, or an array of values that `T` accepts.
pub open spec fn opt_list_ok<T: Decode>(j: Json, key: Seq<char>) -> bool {
    match member(j, key) {
        None => true,
        Some(v) => list_ok::<T>(v),
    }
}

/// `o` is the list read from member `key` of `j`, or `None` where it is absent.
pub open spec fn opt_list_is<T: Decode>(o: Option<Vec<T>>, j: Json, key: Seq<char>) -> bool {
    match (o, member(j, key)) {
        (None, None) => true,
        (Some(xs), Some(v)) => list_is(xs@, v),
        _ => false,
    }
}

/// Member `key` of `j` is present and an array of values that `T` accepts.
pub open spec fn req_list_ok<T: Decode>(j: Json, key: Seq<char>) -> bool {
    match member(j, key) {
        Some(v) => list_ok::<T>(v),
        None => false,
    }
}

/// `xs` is the list read from member `key` of `j`.
pub open spec fn req_list_is<T: Decode>(xs: Vec<T>, j: Json, key: Seq<char>) -> bool {
    match member(j, key) {
        Some(v) => list_is(xs@, v),
        None => false,
    }
}

/// Member `key` of `j` is present and a value that record `T` accepts.
pub open spec fn req_record_ok<T: Decode>(j: Json, key: Seq<char>) -> bool {
    match member(j, key) {
        Some(v) => T::accepts(v),
        None => false,
    }
}

/// `x` is the record read from member `key` of `j`.
pub open spec fn req_record_is<T: Decode>(x: T, j: Json, key: Seq<char>) -> bool {
    match member(j, key) {
        Some(v) => x.decoded_from(v),
        None => false,
    }
}

/// A member that the body leaves out (or sets to `null`) never rejects a record
/// and always reads as absent, whatever the kind of optional field it would fill.
/// Every record's `accepts` and `decoded_from` are conjunctions of these per-field
/// terms, so a body holding any subset of a record's optional members decodes,
/// with each member left out read as `None`.
pub proof fn lemma_absent_member_reads_none<T: Decode>(j: Json, key: Seq<char>)
    requires
        member(j, key).is_none(),
    ensures
        text_ok(j, key) && text_at(j, key).is_none(),
        i32_ok(j, key) && i32_at(j, key).is_none(),
        i64_ok(j, key) && i64_at(j, key).is_none(),
        bool_ok(j, key) && bool_at(j, key).is_none(),
        record_ok::<T>(j, key),
        forall|o: Option<T>| record_is(o, j, key) <==> o.is_none(),
        opt_list_ok::<T>(j, key),
        forall|o: Option<Vec<T>>| opt_list_is(o, j, key) <==> o.is_none(),
{
}

/// Reads an optional string member; `None` when it has another kind.
pub fn text_field(j: &Json, key: &str) -> (r: Option<Option<String>>)
    ensures
        r.is_some() == text_ok(*j, key@),
        r matches Some(o) ==> text_view(o) == text_at(*j, key@),
{
    match j.member(key) {
        None => Some(None),
        Some(Json::Str(s)) => Some(Some(s.clone())),
        Some(_) => None,
    }
}

/// Reads an optional `i32` member; `None` when it has another kind or is out of range.
pub fn i32_field(j: &Json, key: &str) -> (r: Option<Option<i32>>)
    ensures
        r.is_some() == i32_ok(*j, key@),
        r matches Some(o) ==> o == i32_at(*j, key@),
{
    match j.member(key) {
        None => Some(None),
        Some(Json::Integer(n)) => {
            if i32::MIN as i64 <= *n && *n <= i32::MAX as i64 {
                Some(Some(*n as i32))
            } else {
                None
            }
        },
        Some(_) => None,
    }
}

/// Reads an optional `i64` member; `None` when it has another kind.
pub fn i64_field(j: &Json, key: &str) -> (r: Option<Option<i64>>)
    ensures
        r.is_some() == i64_ok(*j, key@),
        r matches Some(o) ==> o == i64_at(*j, key@),
{
    match j.member(key) {
        None => Some(None),
        Some(Json::Integer(n)) => Some(Some(*n)),
        Some(_) => None,
    }
}

/// Reads an optional boolean member; `None` when it has another kind.
pub fn bool_field(j: &Json, key: &str) -> (r: Option<Option<bool>>)
    ensures
        r.is_some() == bool_ok(*j, key@),
        r matches Some(o) ==> o == bool_at(*j, key@),
{
    match j.member(key) {
        None => Some(None),
        Some(Json::Bool(b)) => Some(Some(*b)),
        Some(_) => None,
    }
}

/// Reads the records of an array; `None` when `j` is no array or an item has the wrong shape.
pub fn decode_list<T: Decode>(j: &Json) -> (r: Option<Vec<T>>)
    ensures
        r.is_some() == list_ok::<T>(*j),
        r matches Some(xs) ==> list_is(xs@, *j),
{
    match j {
        Json::Array(items) => {
            let mut out: Vec<T> = Vec::new();
            let mut i: usize = 0;
            while i < items.len()
                invariant
                    0 <= i <= items.len(),
                    *j == Json::Array(*items),
                    items_ok::<T>(items@.take(i as int)),
                    items_are(out@, items@.take(i as int)),
                decreases items.len() - i,
            {
                match T::decode(&items[i]) {
                    Some(x) => {
                        out.push(x);
                        i = i + 1;
                        proof {
                            let t = items@.take(i as int);
                            assert(t =~= items@.take(i - 1) + seq![items@[i - 1]]);
                            assert forall|k: int| 0 <= k < t.len() implies T::accepts(
                                #[trigger] t[k],
                            ) by {
                                if k < i - 1 {
                                    assert(t[k] == items@.take(i - 1)[k]);
                                }
                            }
                            assert forall|k: int| 0 <= k < out@.len() implies (
                            #[trigger] out@[k]).decoded_from(t[k]) by {
                                if k < i - 1 {
                                    assert(t[k] == items@.take(i - 1)[k]);
                                }
                            }
                        }
                    },
                    None => {
                        proof {
                            assert(!T::accepts(items@[i as int]));
                        }
                        return None;
                    },
                }
            }
            proof {
                assert(items@.take(i as int) =~= items@);
            }
            Some(out)
        },
        _ => None,
    }
}

/// Reads an optional record member; `None` when it has the wrong shape.
pub fn record_field<T: Decode>(j: &Json, key: &str) -> (r: Option<Option<T>>)
    ensures
        r.is_some() == record_ok::<T>(*j, key@),
        r matches Some(o) ==> record_is(o, *j, key@),
{
    match j.member(key) {
        None => Some(None),
        Some(v) => match T::decode(v) {
            Some(x) => Some(Some(x)),
            None => None,
        },
    }
}

/// Reads an optional list member; `None` when it has the wrong shape.
pub fn list_field<T: Decode>(j: &Json, key: &str) -> (r: Option<Option<Vec<T>>>)
    ensures
        r.is_some() == opt_list_ok::<T>(*j, key@),
        r matches Some(o) ==> opt_list_is(o, *j, key@),
{
    match j.member(key) {
        None => Some(None),
        Some(v) => match decode_list(v) {
            Some(xs) => Some(Some(xs)),
            None => None,
        },
    }
}

/// Reads a list member that must be present.
pub fn req_list_field<T: Decode>(j: &Json, key: &str) -> (r: Option<Vec<T>>)
    ensures
        r.is_some() == req_list_ok::<T>(*j, key@),
        r matches Some(xs) ==> req_list_is(xs, *j, key@),
{
    match j.member(key) {
        None => None,
        Some(v) => decode_list(v),
    }
}

/// Reads a record member that must be present.
pub fn req_record_field<T: Decode>(j: &Json, key: &str) -> (r: Option<T>)
    ensures
        r.is_some() == req_record_ok::<T>(*j, key@),
        r matches Some(x) ==> req_record_is(x, *j, key@),
{
    match j.member(key) {
        None => None,
        Some(v) => T::decode(v),
    }
}

} // verus!
