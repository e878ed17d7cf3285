//! Conversions into parameter values: from scalars, from vectors of one kind
//! of item, and from pairs of a key and a value.

use crate::value::{
    converted_pairs, pair_views, trees, with_entries, FloatValue, ParameterMap, ParameterValue,
    ValueView,
};
use vstd::prelude::*;
use vstd::std_specs::convert::FromSpecImpl;

verus! {

/// `String::from` on a string slice: an owned string with the characters of
/// the slice.
pub assume_specification<'a>[ <std::string::String as std::convert::From<&'a str>>::from ](
    slice: &str,
) -> (owned: std::string::String)
    ensures
        owned@ == slice@,
;

/// std's conversion of a value into its own type, `From<T> for T`: the value
/// comes back as it was given.
pub assume_specification<Same>[ <Same as std::convert::From<Same>>::from ](given: Same) -> (back:
    Same)
    ensures
        back == given,
;

impl From<String> for ParameterValue {
    fn from(value: String) -> (r: ParameterValue) {
        ParameterValue::String(value)
    }
}

impl FromSpecImpl<String> for ParameterValue {
    open spec fn obeys_from_spec() -> bool {
        true
    }

    open spec fn from_spec(value: String) -> ParameterValue {
        ParameterValue::String(value)
    }
}

impl From<&str> for ParameterValue {
    /// A string value with the characters of the slice.
    fn from(value: &str) -> (r: ParameterValue)
        ensures
            r@ == ValueView::String(value@),
    {
        ParameterValue::String(value.to_owned())
    }
}

/// The conversion makes a copy of the slice, and no specification function
/// can name that copy: what the conversion returns is stated by its tree, in
/// the `ensures` of `from`. The same holds of the conversions below that make
/// their items one by one.
impl FromSpecImpl<&str> for ParameterValue {
    open spec fn obeys_from_spec() -> bool {
        false
    }

    open spec fn from_spec(value: &str) -> ParameterValue {
        arbitrary()
    }
}

impl From<i32> for ParameterValue {
    fn from(value: i32) -> (r: ParameterValue) {
        ParameterValue::Integer(value as i64)
    }
}

impl FromSpecImpl<i32> for ParameterValue {
    open spec fn obeys_from_spec() -> bool {
        true
    }

    open spec fn from_spec(value: i32) -> ParameterValue {
        ParameterValue::Integer(value as i64)
    }
}

impl From<i64> for ParameterValue {
    fn from(value: i64) -> (r: ParameterValue) {
        ParameterValue::Integer(value)
    }
}

impl FromSpecImpl<i64> for ParameterValue {
    open spec fn obeys_from_spec() -> bool {
        true
    }

    open spec fn from_spec(value: i64) -> ParameterValue {
        ParameterValue::Integer(value)
    }
}

impl From<FloatValue> for ParameterValue {
    fn from(value: FloatValue) -> (r: ParameterValue) {
        ParameterValue::Float(value)
    }
}

impl FromSpecImpl<FloatValue> for ParameterValue {
    open spec fn obeys_from_spec() -> bool {
        true
    }

    open spec fn from_spec(value: FloatValue) -> ParameterValue {
        ParameterValue::Float(value)
    }
}

impl From<bool> for ParameterValue {
    fn from(value: bool) -> (r: ParameterValue) {
        ParameterValue::Boolean(value)
    }
}

impl FromSpecImpl<bool> for ParameterValue {
    open spec fn obeys_from_spec() -> bool {
        true
    }

    open spec fn from_spec(value: bool) -> ParameterValue {
        ParameterValue::Boolean(value)
    }
}

impl From<Vec<ParameterValue>> for ParameterValue {
    fn from(value: Vec<ParameterValue>) -> (r: ParameterValue) {
        ParameterValue::Array(value)
    }
}

impl FromSpecImpl<Vec<ParameterValue>> for ParameterValue {
    open spec fn obeys_from_spec() -> bool {
        true
    }

    open spec fn from_spec(value: Vec<ParameterValue>) -> ParameterValue {
        ParameterValue::Array(value)
    }
}

impl From<ParameterMap> for ParameterValue {
    fn from(value: ParameterMap) -> (r: ParameterValue) {
        ParameterValue::Object(value)
    }
}

impl FromSpecImpl<ParameterMap> for ParameterValue {
    open spec fn obeys_from_spec() -> bool {
        true
    }

    open spec fn from_spec(value: ParameterMap) -> ParameterValue {
        ParameterValue::Object(value)
    }
}

/// Whether `converted` holds, place by place, a value that the conversion
/// may give for the item at that place.
pub open spec fn converted_items<T: Into<ParameterValue>>(
    items: Seq<T>,
    converted: Seq<ParameterValue>,
) -> bool {
    &&& converted.len() == items.len()
    &&& forall|i: int|
        0 <= i < items.len() ==> call_ensures(T::into, (items[i],), #[trigger] converted[i])
}

/// The items, each converted, in order.
pub fn convert_items<T: Into<ParameterValue>>(items: Vec<T>) -> (r: Vec<ParameterValue>)
    ensures
        converted_items(items@, r@),
{
    let mut out: Vec<ParameterValue> = Vec::new();
    for item in it: items
        invariant
            it.seq() == items@,
            out@.len() == it.index(),
            forall|j: int|
                0 <= j < it.index() ==> call_ensures(T::into, (items@[j],), #[trigger] out@[j]),
    {
        out.push(item.into());
    }
    out
}

impl From<Vec<String>> for ParameterValue {
    /// An array of string values, one for each string, in order.
    fn from(value: Vec<String>) -> (r: ParameterValue)
        ensures
            r@ == ValueView::Array(
                Seq::new(value@.len(), |i: int| ValueView::String(value@[i]@)),
            ),
    {
        let items = convert_items(value);
        assert(trees(items@) =~= Seq::new(value@.len(), |i: int| ValueView::String(value@[i]@)));
        ParameterValue::Array(items)
    }
}

impl FromSpecImpl<Vec<String>> for ParameterValue {
    open spec fn obeys_from_spec() -> bool {
        false
    }

    open spec fn from_spec(value: Vec<String>) -> ParameterValue {
        arbitrary()
    }
}

impl From<Vec<&str>> for ParameterValue {
    /// An array of string values, one for each slice, in order.
    fn from(value: Vec<&str>) -> (r: ParameterValue)
        ensures
            r@ == ValueView::Array(
                Seq::new(value@.len(), |i: int| ValueView::String(value@[i]@)),
            ),
    {
        let items = convert_items(value);
        assert(trees(items@) =~= Seq::new(value@.len(), |i: int| ValueView::String(value@[i]@)));
        ParameterValue::Array(items)
    }
}

impl FromSpecImpl<Vec<&str>> for ParameterValue {
    open spec fn obeys_from_spec() -> bool {
        false
    }

    open spec fn from_spec(value: Vec<&str>) -> ParameterValue {
        arbitrary()
    }
}

impl From<Vec<i32>> for ParameterValue {
    /// An array of integer values, one for each number, in order.
    fn from(value: Vec<i32>) -> (r: ParameterValue)
        ensures
            r@ == ValueView::Array(
                Seq::new(value@.len(), |i: int| ValueView::Integer(value@[i] as i64)),
            ),
    {
        let items = convert_items(value);
        assert(trees(items@) =~= Seq::new(
            value@.len(),
            |i: int| ValueView::Integer(value@[i] as i64),
        ));
        ParameterValue::Array(items)
    }
}

impl FromSpecImpl<Vec<i32>> for ParameterValue {
    open spec fn obeys_from_spec() -> bool {
        false
    }

    open spec fn from_spec(value: Vec<i32>) -> ParameterValue {
        arbitrary()
    }
}

impl From<Vec<i64>> for ParameterValue {
    /// An array of integer values, one for each number, in order.
    fn from(value: Vec<i64>) -> (r: ParameterValue)
        ensures
            r@ == ValueView::Array(Seq::new(value@.len(), |i: int| ValueView::Integer(value@[i]))),
    {
        let items = convert_items(value);
        assert(trees(items@) =~= Seq::new(value@.len(), |i: int| ValueView::Integer(value@[i])));
        ParameterValue::Array(items)
    }
}

impl FromSpecImpl<Vec<i64>> for ParameterValue {
    open spec fn obeys_from_spec() -> bool {
        false
    }

    open spec fn from_spec(value: Vec<i64>) -> ParameterValue {
        arbitrary()
    }
}

impl From<Vec<FloatValue>> for ParameterValue {
    /// An array of float values, one for each number, in order.
    fn from(value: Vec<FloatValue>) -> (r: ParameterValue)
        ensures
            r@ == ValueView::Array(Seq::new(value@.len(), |i: int| ValueView::Float(value@[i]@))),
    {
        let items = convert_items(value);
        assert(trees(items@) =~= Seq::new(value@.len(), |i: int| ValueView::Float(value@[i]@)));
        ParameterValue::Array(items)
    }
}

impl FromSpecImpl<Vec<FloatValue>> for ParameterValue {
    open spec fn obeys_from_spec() -> bool {
        false
    }

    open spec fn from_spec(value: Vec<FloatValue>) -> ParameterValue {
        arbitrary()
    }
}

impl From<Vec<bool>> for ParameterValue {
    /// An array of boolean values, one for each item, in order.
    fn from(value: Vec<bool>) -> (r: ParameterValue)
        ensures
            r@ == ValueView::Array(Seq::new(value@.len(), |i: int| ValueView::Boolean(value@[i]))),
    {
        let items = convert_items(value);
        assert(trees(items@) =~= Seq::new(value@.len(), |i: int| ValueView::Boolean(value@[i])));
        ParameterValue::Array(items)
    }
}

impl FromSpecImpl<Vec<bool>> for ParameterValue {
    open spec fn obeys_from_spec() -> bool {
        false
    }

    open spec fn from_spec(value: Vec<bool>) -> ParameterValue {
        arbitrary()
    }
}

/// Whether `copies` holds, place by place, a copy of the item at that place.
pub open spec fn copied_items<T: Clone>(items: Seq<T>, copies: Seq<T>) -> bool {
    &&& copies.len() == items.len()
    &&& forall|i: int| 0 <= i < items.len() ==> cloned(items[i], #[trigger] copies[i])
}

/// A copy of each item of the slice, in order.
pub fn copy_items<T: Clone>(items: &[T]) -> (r: Vec<T>)
    ensures
        copied_items(items@, r@),
{
    let mut out: Vec<T> = Vec::new();
    let mut i: usize = 0;
    while i < items.len()
        invariant
            i <= items@.len(),
            out@.len() == i,
            forall|j: int| 0 <= j < i ==> cloned(items@[j], #[trigger] out@[j]),
        decreases items@.len() - i,
    {
        out.push(items[i].clone());
        i += 1;
    }
    out
}

impl<T: Clone + Into<ParameterValue>> From<&[T]> for ParameterValue {
    /// What `array_of_slice` gives for the slice. The result is stated there
    /// and not here: a slice of pairs converts to an object, by the
    /// conversion for pairs below, so nothing said here of every `T` would
    /// hold of it.
    fn from(value: &[T]) -> (r: ParameterValue) {
        ParameterValue::array_of_slice(value)
    }
}

impl<T: Clone + Into<ParameterValue>> FromSpecImpl<&[T]> for ParameterValue {
    open spec fn obeys_from_spec() -> bool {
        false
    }

    open spec fn from_spec(value: &[T]) -> ParameterValue {
        arbitrary()
    }
}

/// `Vec::from` on an array: a vector with the items of the array, moved into
/// it in their order.
#[verifier::external_body]
fn vec_from_array<T, const N: usize>(items: [T; N]) -> (r: Vec<T>)
    ensures
        r@ == items@,
{
    Vec::from(items)
}

impl<T: Into<ParameterValue>, const N: usize> From<[T; N]> for ParameterValue {
    /// What `array_of` gives for the array. The result is stated there and
    /// not here: an array of pairs converts to an object, by the conversion
    /// for pairs below, so nothing said here of every `T` would hold of it.
    fn from(value: [T; N]) -> (r: ParameterValue) {
        ParameterValue::array_of(value)
    }
}

impl<T: Into<ParameterValue>, const N: usize> FromSpecImpl<[T; N]> for ParameterValue {
    open spec fn obeys_from_spec() -> bool {
        false
    }

    open spec fn from_spec(value: [T; N]) -> ParameterValue {
        arbitrary()
    }
}

impl<K: Into<String>, V: Into<ParameterValue>, const N: usize> From<[(K, V); N]> for ParameterValue {
    /// An object with the pairs put in one after the other, the key and the
    /// value of each converted first. Of two pairs with one key, the later
    /// one gives the value.
    fn from(value: [(K, V); N]) -> (r: ParameterValue)
        ensures
            exists|converted: Seq<(String, ParameterValue)>|
                #![trigger pair_views(converted)]
                converted_pairs(value@, converted) && r@ == ValueView::Object(
                    with_entries(Seq::empty(), pair_views(converted)),
                ),
    {
        let mut map = ParameterMap::new();
        map.extend_from(vec_from_array(value));
        ParameterValue::Object(map)
    }
}

impl<K: Into<String>, V: Into<ParameterValue>, const N: usize> FromSpecImpl<[(K, V); N]> for ParameterValue {
    open spec fn obeys_from_spec() -> bool {
        false
    }

    open spec fn from_spec(value: [(K, V); N]) -> ParameterValue {
        arbitrary()
    }
}

/// Whether `copies` holds, place by place, a copy of the key and a copy of
/// the value of the pair at that place.
pub open spec fn copied_pairs<K: Clone, V: Clone>(pairs: Seq<(K, V)>, copies: Seq<(K, V)>) -> bool {
    &&& copies.len() == pairs.len()
    &&& forall|i: int|
        0 <= i < pairs.len() ==> cloned(pairs[i].0, (#[trigger] copies[i]).0) && cloned(
            pairs[i].1,
            copies[i].1,
        )
}

/// A copy of each pair of the slice, in order.
pub fn copy_pairs<K: Clone, V: Clone>(pairs: &[(K, V)]) -> (r: Vec<(K, V)>)
    ensures
        copied_pairs(pairs@, r@),
{
    let mut out: Vec<(K, V)> = Vec::new();
    let mut i: usize = 0;
    while i < pairs.len()
        invariant
            i <= pairs@.len(),
            out@.len() == i,
            forall|j: int|
                0 <= j < i ==> cloned(pairs@[j].0, (#[trigger] out@[j]).0) && cloned(
                    pairs@[j].1,
                    out@[j].1,
                ),
        decreases pairs@.len() - i,
    {
        out.push((pairs[i].0.clone(), pairs[i].1.clone()));
        i += 1;
    }
    out
}

impl<K: Clone + Into<String>, V: Clone + Into<ParameterValue>> From<&[(K, V)]> for ParameterValue {
    /// An object with a copy of each pair of the slice put in, one after the
    /// other, the key and the value of each converted first. Of two pairs
    /// with one key, the later one gives the value.
    fn from(value: &[(K, V)]) -> (r: ParameterValue)
        ensures
            exists|copies: Seq<(K, V)>, converted: Seq<(String, ParameterValue)>|
                #![trigger copied_pairs(value@, copies), pair_views(converted)]
                copied_pairs(value@, copies) && converted_pairs(copies, converted) && r@
                    == ValueView::Object(with_entries(Seq::empty(), pair_views(converted))),
    {
        let copies = copy_pairs(value);
        assert(copied_pairs(value@, copies@));
        let mut map = ParameterMap::new();
        map.extend_from(copies);
        ParameterValue::Object(map)
    }
}

impl<K: Clone + Into<String>, V: Clone + Into<ParameterValue>> FromSpecImpl<&[(K, V)]> for ParameterValue {
    open spec fn obeys_from_spec() -> bool {
        false
    }

    open spec fn from_spec(value: &[(K, V)]) -> ParameterValue {
        arbitrary()
    }
}

impl<K: Into<String>, V: Into<ParameterValue>> From<Vec<(K, V)>> for ParameterValue {
    /// An object with the pairs put in one after the other, the key and the
    /// value of each converted first. Of two pairs with one key, the later
    /// one gives the value.
    fn from(value: Vec<(K, V)>) -> (r: ParameterValue)
        ensures
            exists|converted: Seq<(String, ParameterValue)>|
                #![trigger pair_views(converted)]
                converted_pairs(value@, converted) && r@ == ValueView::Object(
                    with_entries(Seq::empty(), pair_views(converted)),
                ),
    {
        let mut map = ParameterMap::new();
        map.extend_from(value);
        ParameterValue::Object(map)
    }
}

impl<K: Into<String>, V: Into<ParameterValue>> FromSpecImpl<Vec<(K, V)>> for ParameterValue {
    open spec fn obeys_from_spec() -> bool {
        false
    }

    open spec fn from_spec(value: Vec<(K, V)>) -> ParameterValue {
        arbitrary()
    }
}

impl From<Vec<(String, ParameterValue)>> for ParameterMap {
    /// A map with the pairs put in one after the other. Of two pairs with
    /// one key, the later one gives the value.
    fn from(value: Vec<(String, ParameterValue)>) -> (r: ParameterMap)
        ensures
            r@ == with_entries(Seq::empty(), pair_views(value@)),
    {
        let mut map = ParameterMap::new();
        for pair in it: value
            invariant
                it.seq() == value@,
                map@ == with_entries(Seq::empty(), pair_views(value@.take(it.index() as int))),
        {
            let (key, item) = pair;
            proof {
                let before = value@.take(it.index() as int);
                let after = value@.take(it.index() + 1);
                assert(pair_views(after).drop_last() =~= pair_views(before));
                assert(pair_views(after).last() == (key@, item@));
            }
            map.insert(key, item);
        }
        assert(value@.take(value@.len() as int) =~= value@);
        map
    }
}

impl FromSpecImpl<Vec<(String, ParameterValue)>> for ParameterMap {
    open spec fn obeys_from_spec() -> bool {
        false
    }

    open spec fn from_spec(value: Vec<(String, ParameterValue)>) -> ParameterMap {
        arbitrary()
    }
}

impl ParameterValue {
    /// An array with the items, each converted, in order.
    pub fn array<V: Into<ParameterValue>>(items: Vec<V>) -> (r: ParameterValue)
        ensures
            r matches ParameterValue::Array(converted) && converted_items(items@, converted@),
    {
        ParameterValue::Array(convert_items(items))
    }

    /// An array with the items of a fixed-size array, each converted, in
    /// order.
    pub fn array_of<T: Into<ParameterValue>, const N: usize>(items: [T; N]) -> (r: ParameterValue)
        ensures
            r matches ParameterValue::Array(converted) && converted_items(items@, converted@),
    {
        ParameterValue::Array(convert_items(vec_from_array(items)))
    }

    /// An array with a copy of each item of the slice, converted, in order.
    pub fn array_of_slice<T: Clone + Into<ParameterValue>>(items: &[T]) -> (r: ParameterValue)
        ensures
            r matches ParameterValue::Array(converted) && exists|copies: Seq<T>|
                #![trigger copied_items(items@, copies)]
                copied_items(items@, copies) && converted_items(copies, converted@),
    {
        let copies = copy_items(items);
        assert(copied_items(items@, copies@));
        ParameterValue::Array(convert_items(copies))
    }

    /// An object with the entries of the map that `map` converts into.
    pub fn object<M: Into<ParameterMap>>(map: M) -> (r: ParameterValue)
        ensures
            r matches ParameterValue::Object(converted) && call_ensures(M::into, (map,), converted),
    {
        ParameterValue::Object(map.into())
    }

    /// An object with the pairs put in one after the other. Of two pairs
    /// with one key, the later one gives the value.
    pub fn object_from(items: Vec<(String, ParameterValue)>) -> (r: ParameterValue)
        ensures
            r@ == ValueView::Object(with_entries(Seq::empty(), pair_views(items@))),
    {
        ParameterValue::Object(ParameterMap::from(items))
    }
}

} // verus!
