//! Comparison of parameter values by what they stand for.

use crate::value::{has_key, key_index, trees, ParameterMap, ParameterValue, ValueView};
use vstd::prelude::*;
use vstd::std_specs::cmp::PartialEqSpecImpl;

verus! {

/// Whether the bit pattern is that of a NaN: all exponent bits set and some
/// fraction bit set.
pub open spec fn is_nan(bits: u64) -> bool {
    bits & 0x7ff0_0000_0000_0000 == 0x7ff0_0000_0000_0000 && bits & 0x000f_ffff_ffff_ffff != 0
}

/// Whether the bit pattern is that of a zero, of either sign.
pub open spec fn is_zero(bits: u64) -> bool {
    bits & 0x7fff_ffff_ffff_ffff == 0
}

/// Whether two bit patterns are equal as numbers: neither is a NaN, and they
/// are the same pattern or both a zero.
pub open spec fn same_number(a: u64, b: u64) -> bool {
    !is_nan(a) && !is_nan(b) && (a == b || (is_zero(a) && is_zero(b)))
}

/// Whether the items of two arrays are the same, place by place.
pub open spec fn same_items(a: Seq<ValueView>, b: Seq<ValueView>) -> bool
    decreases a,
{
    a.len() == b.len() && forall|i: int|
        0 <= i < a.len() ==> same_value(#[trigger] a[i], b[i])
}

/// Whether each entry of `a` has its key in `b`, with the same value there.
pub open spec fn entries_within(
    a: Seq<(Seq<char>, ValueView)>,
    b: Seq<(Seq<char>, ValueView)>,
) -> bool
    decreases a,
{
    forall|i: int|
        0 <= i < a.len() ==> has_key(b, (#[trigger] a[i]).0) && same_value(
            a[i].1,
            b[key_index(b, a[i].0)].1,
        )
}

/// Whether two values are the same: of one kind, and equal as strings,
/// numbers or booleans, or the same item by item, or with the same value
/// under each key. The order of the entries of an object plays no role.
pub open spec fn same_value(a: ValueView, b: ValueView) -> bool
    decreases a,
{
    match (a, b) {
        (ValueView::String(x), ValueView::String(y)) => x == y,
        (ValueView::Integer(x), ValueView::Integer(y)) => x == y,
        (ValueView::Float(x), ValueView::Float(y)) => same_number(x.bits, y.bits),
        (ValueView::Boolean(x), ValueView::Boolean(y)) => x == y,
        (ValueView::Array(x), ValueView::Array(y)) => same_items(x, y),
        (ValueView::Object(x), ValueView::Object(y)) => x.len() == y.len() && entries_within(x, y),
        (ValueView::Null, ValueView::Null) => true,
        _ => false,
    }
}

/// Whether two bit patterns are equal as numbers.
pub fn numbers_equal(a: u64, b: u64) -> (r: bool)
    ensures
        r == same_number(a, b),
{
    let a_nan = a & 0x7ff0_0000_0000_0000 == 0x7ff0_0000_0000_0000 && a & 0x000f_ffff_ffff_ffff
        != 0;
    let b_nan = b & 0x7ff0_0000_0000_0000 == 0x7ff0_0000_0000_0000 && b & 0x000f_ffff_ffff_ffff
        != 0;
    let both_zero = a & 0x7fff_ffff_ffff_ffff == 0 && b & 0x7fff_ffff_ffff_ffff == 0;
    !a_nan && !b_nan && (a == b || both_zero)
}

/// Whether the items of two arrays are the same, place by place.
fn items_equal(a: &Vec<ParameterValue>, b: &Vec<ParameterValue>) -> (r: bool)
    ensures
        r == same_items(trees(a@), trees(b@)),
    decreases a,
{
    if a.len() != b.len() {
        return false;
    }
    let mut i: usize = 0;
    while i < a.len()
        invariant
            i <= a@.len(),
            a@.len() == b@.len(),
            forall|j: int| 0 <= j < i ==> same_value(#[trigger] trees(a@)[j], trees(b@)[j]),
        decreases a@.len() - i,
    {
        if !values_equal(&a[i], &b[i]) {
            assert(!same_value(trees(a@)[i as int], trees(b@)[i as int]));
            return false;
        }
        i += 1;
    }
    true
}

/// Whether each entry of `a` has its key in `b`, with the same value there.
fn entries_equal(a: &ParameterMap, b: &ParameterMap) -> (r: bool)
    ensures
        r == (a@.len() == b@.len() && entries_within(a@, b@)),
    decreases a,
{
    let n = a.len();
    if n != b.len() {
        return false;
    }
    let mut i: usize = 0;
    while i < n
        invariant
            i <= n,
            n == a@.len(),
            a@.len() == b@.len(),
            forall|j: int|
                0 <= j < i ==> has_key(b@, (#[trigger] a@[j]).0) && same_value(
                    a@[j].1,
                    b@[key_index(b@, a@[j].0)].1,
                ),
        decreases n - i,
    {
        let (key, value) = a.entry(i);
        match b.get(key) {
            Some(other) => {
                if !values_equal(value, other) {
                    return false;
                }
            },
            None => {
                return false;
            },
        }
        i += 1;
    }
    true
}

/// Whether two values are the same.
pub fn values_equal(a: &ParameterValue, b: &ParameterValue) -> (r: bool)
    ensures
        r == same_value(a@, b@),
    decreases a,
{
    match (a, b) {
        (ParameterValue::String(x), ParameterValue::String(y)) => *x == *y,
        (ParameterValue::Integer(x), ParameterValue::Integer(y)) => *x == *y,
        (ParameterValue::Float(x), ParameterValue::Float(y)) => numbers_equal(x.bits, y.bits),
        (ParameterValue::Boolean(x), ParameterValue::Boolean(y)) => *x == *y,
        (ParameterValue::Array(x), ParameterValue::Array(y)) => items_equal(x, y),
        (ParameterValue::Object(x), ParameterValue::Object(y)) => entries_equal(x, y),
        (ParameterValue::Null, ParameterValue::Null) => true,
        _ => false,
    }
}

impl PartialEq for ParameterValue {
    fn eq(&self, other: &Self) -> (r: bool) {
        values_equal(self, other)
    }
}

impl PartialEqSpecImpl for ParameterValue {
    open spec fn obeys_eq_spec() -> bool {
        true
    }

    open spec fn eq_spec(&self, other: &Self) -> bool {
        same_value(self@, other@)
    }
}

impl PartialEq for ParameterMap {
    fn eq(&self, other: &Self) -> (r: bool) {
        entries_equal(self, other)
    }
}

impl PartialEqSpecImpl for ParameterMap {
    open spec fn obeys_eq_spec() -> bool {
        true
    }

    open spec fn eq_spec(&self, other: &Self) -> bool {
        self@.len() == other@.len() && entries_within(self@, other@)
    }
}

} // verus!
