//! Free-form values for the parameters of an error: scalars, arrays and
//! objects, nested to any depth.

use crate::text::{joined, push_signed_decimal, signed_decimal};
use vstd::prelude::*;

verus! {

/// A 64-bit floating-point number, held by its IEEE 754 bit pattern together
/// with the two ways of writing it. Two numbers are compared by their bit
/// patterns; the written forms are given by whoever makes the value and are
/// put out as they are.
#[derive(Debug)]
pub struct FloatValue {
    /// The bit pattern of the number.
    pub bits: u64,
    /// The number as plain text.
    pub text: String,
    /// The number as a JSON token: a JSON number, or `null` for a number
    /// that JSON cannot write.
    pub json: String,
}

/// What a `FloatValue` holds.
pub struct FloatView {
    pub bits: u64,
    pub text: Seq<char>,
    pub json: Seq<char>,
}

impl View for FloatValue {
    type V = FloatView;

    open spec fn view(&self) -> FloatView {
        FloatView { bits: self.bits, text: self.text@, json: self.json@ }
    }
}

/// A value of one of seven kinds. Arrays keep the order of their items;
/// objects hold each key once.
#[derive(Debug)]
pub enum ParameterValue {
    String(String),
    Integer(i64),
    Float(FloatValue),
    Boolean(bool),
    Array(Vec<ParameterValue>),
    Object(ParameterMap),
    Null,
}

/// Keys with their values, each key once, in the order in which the keys
/// first came in.
#[derive(Debug)]
pub struct ParameterMap {
    entries: Vec<(String, ParameterValue)>,
}

/// The mathematical tree that a `ParameterValue` stands for.
pub enum ValueView {
    String(Seq<char>),
    Integer(i64),
    Float(FloatView),
    Boolean(bool),
    Array(Seq<ValueView>),
    Object(Seq<(Seq<char>, ValueView)>),
    Null,
}

/// The trees of the items of an array, in order.
pub open spec fn trees(items: Seq<ParameterValue>) -> Seq<ValueView>
    decreases items,
{
    Seq::new(
        items.len(),
        |i: int|
            if 0 <= i < items.len() {
                items[i]@
            } else {
                ValueView::Null
            },
    )
}

impl View for ParameterValue {
    type V = ValueView;

    open spec fn view(&self) -> ValueView
        decreases self,
    {
        match self {
            ParameterValue::String(s) => ValueView::String(s@),
            ParameterValue::Integer(i) => ValueView::Integer(*i),
            ParameterValue::Float(f) => ValueView::Float(f@),
            ParameterValue::Boolean(b) => ValueView::Boolean(*b),
            ParameterValue::Array(items) => ValueView::Array(trees(items@)),
            ParameterValue::Object(map) => ValueView::Object(map@),
            ParameterValue::Null => ValueView::Null,
        }
    }
}

impl View for ParameterMap {
    type V = Seq<(Seq<char>, ValueView)>;

    closed spec fn view(&self) -> Seq<(Seq<char>, ValueView)>
        decreases self,
    {
        Seq::new(
            self.entries@.len(),
            |i: int|
                if 0 <= i < self.entries@.len() {
                    (self.entries@[i].0@, self.entries@[i].1@)
                } else {
                    (Seq::empty(), ValueView::Null)
                },
        )
    }
}

/// Whether no key stands at two places.
pub open spec fn distinct_keys(entries: Seq<(Seq<char>, ValueView)>) -> bool {
    forall|i: int, j: int|
        0 <= i < j < entries.len() ==> (#[trigger] entries[i]).0 != (#[trigger] entries[j]).0
}

/// Whether some entry has the key.
pub open spec fn has_key(entries: Seq<(Seq<char>, ValueView)>, key: Seq<char>) -> bool {
    exists|i: int| 0 <= i < entries.len() && (#[trigger] entries[i]).0 == key
}

/// A place at which the key stands, where there is one.
pub open spec fn key_index(entries: Seq<(Seq<char>, ValueView)>, key: Seq<char>) -> int {
    choose|i: int| 0 <= i < entries.len() && (#[trigger] entries[i]).0 == key
}

/// The value under the key, where there is one.
pub open spec fn value_at(entries: Seq<(Seq<char>, ValueView)>, key: Seq<char>) -> Option<
    ValueView,
> {
    if has_key(entries, key) {
        Some(entries[key_index(entries, key)].1)
    } else {
        None
    }
}

/// The entries after `value` has been put under `key`: in the place of the
/// entry that had the key, or at the end where none had it.
pub open spec fn with_entry(
    entries: Seq<(Seq<char>, ValueView)>,
    key: Seq<char>,
    value: ValueView,
) -> Seq<(Seq<char>, ValueView)> {
    if has_key(entries, key) {
        entries.update(key_index(entries, key), (key, value))
    } else {
        entries.push((key, value))
    }
}

/// The texts of the items of an array, in order.
pub open spec fn item_texts(items: Seq<ValueView>) -> Seq<Seq<char>>
    decreases items,
{
    Seq::new(
        items.len(),
        |i: int|
            if 0 <= i < items.len() {
                value_text(items[i])
            } else {
                Seq::empty()
            },
    )
}

/// The texts of the entries of an object, in order: the key, a colon and a
/// space, and the text of the value.
pub open spec fn entry_texts(entries: Seq<(Seq<char>, ValueView)>) -> Seq<Seq<char>>
    decreases entries,
{
    Seq::new(
        entries.len(),
        |i: int|
            if 0 <= i < entries.len() {
                entries[i].0 + ": "@ + value_text(entries[i].1)
            } else {
                Seq::empty()
            },
    )
}

/// How a value is written as text. A string is written as it is, a number in
/// decimal, a boolean as `true` or `false`, the null value as `null`; an
/// array as `[v1, v2]` and an object as `{k1: v1, k2: v2}`, in the order of
/// their items and entries.
pub open spec fn value_text(value: ValueView) -> Seq<char>
    decreases value,
{
    match value {
        ValueView::String(s) => s,
        ValueView::Integer(i) => signed_decimal(i as int),
        ValueView::Float(f) => f.text,
        ValueView::Boolean(b) => if b {
            "true"@
        } else {
            "false"@
        },
        ValueView::Array(items) => "["@ + joined(item_texts(items), ", "@) + "]"@,
        ValueView::Object(entries) => "{"@ + joined(entry_texts(entries), ", "@) + "}"@,
        ValueView::Null => "null"@,
    }
}

/// Putting a value under a key leaves every key at one place only.
pub proof fn lemma_with_entry_distinct(
    entries: Seq<(Seq<char>, ValueView)>,
    key: Seq<char>,
    value: ValueView,
)
    requires
        distinct_keys(entries),
    ensures
        distinct_keys(with_entry(entries, key, value)),
        has_key(with_entry(entries, key, value), key),
        with_entry(entries, key, value).len() == if has_key(entries, key) {
            entries.len()
        } else {
            entries.len() + 1
        },
{
    let after = with_entry(entries, key, value);
    if has_key(entries, key) {
        let k = key_index(entries, key);
        assert(after[k].0 == key);
        assert forall|i: int, j: int| 0 <= i < j < after.len() implies (#[trigger] after[i]).0 != (
        #[trigger] after[j]).0 by {
            assert(entries[i].0 != entries[j].0);
        }
    } else {
        assert(after[entries.len() as int].0 == key);
        assert forall|i: int, j: int| 0 <= i < j < after.len() implies (#[trigger] after[i]).0 != (
        #[trigger] after[j]).0 by {
            if j < entries.len() {
                assert(entries[i].0 != entries[j].0);
            } else {
                assert(entries[i].0 != key);
            }
        }
    }
}

/// The last value put under a key is the one found there.
pub proof fn lemma_with_entry_sets(
    entries: Seq<(Seq<char>, ValueView)>,
    key: Seq<char>,
    value: ValueView,
)
    requires
        distinct_keys(entries),
    ensures
        value_at(with_entry(entries, key, value), key) == Some(value),
{
    let after = with_entry(entries, key, value);
    lemma_with_entry_distinct(entries, key, value);
    let found = key_index(after, key);
    let put = if has_key(entries, key) {
        key_index(entries, key)
    } else {
        entries.len() as int
    };
    assert(after[put] == (key, value));
    if found != put {
        if found < put {
            assert(after[found].0 != after[put].0);
        } else {
            assert(after[put].0 != after[found].0);
        }
    }
}

/// Putting a value under a key changes nothing under any other key.
pub proof fn lemma_with_entry_keeps_others(
    entries: Seq<(Seq<char>, ValueView)>,
    key: Seq<char>,
    value: ValueView,
    other: Seq<char>,
)
    requires
        distinct_keys(entries),
        other != key,
    ensures
        value_at(with_entry(entries, key, value), other) == value_at(entries, other),
{
    let after = with_entry(entries, key, value);
    lemma_with_entry_distinct(entries, key, value);
    if has_key(entries, other) {
        let at = key_index(entries, other);
        assert(after[at] == entries[at]);
        assert(has_key(after, other));
        let found = key_index(after, other);
        if found != at {
            if found < at {
                assert(after[found].0 != after[at].0);
            } else {
                assert(after[at].0 != after[found].0);
            }
        }
    } else {
        if has_key(after, other) {
            let found = key_index(after, other);
            if found < entries.len() {
                assert(entries[found].0 == other || after[found].0 == key);
            }
        }
    }
}

/// The entries after each of `added` has been put in, one after the other.
pub open spec fn with_entries(
    entries: Seq<(Seq<char>, ValueView)>,
    added: Seq<(Seq<char>, ValueView)>,
) -> Seq<(Seq<char>, ValueView)>
    decreases added.len(),
{
    if added.len() == 0 {
        entries
    } else {
        with_entry(with_entries(entries, added.drop_last()), added.last().0, added.last().1)
    }
}

/// Whether `converted` holds, place by place, a key and a value that the
/// conversions may give for the pair at that place.
pub open spec fn converted_pairs<K: Into<String>, V: Into<ParameterValue>>(
    pairs: Seq<(K, V)>,
    converted: Seq<(String, ParameterValue)>,
) -> bool {
    &&& converted.len() == pairs.len()
    &&& forall|i: int|
        0 <= i < pairs.len() ==> call_ensures(K::into, (pairs[i].0,), (#[trigger] converted[i]).0)
            && call_ensures(V::into, (pairs[i].1,), converted[i].1)
}

impl ParameterMap {
    #[verifier::type_invariant]
    spec fn keys_are_distinct(self) -> bool {
        forall|i: int, j: int|
            0 <= i < j < self.entries@.len() ==> (#[trigger] self.entries@[i]).0@ != (
            #[trigger] self.entries@[j]).0@
    }

    /// A map without entries.
    pub fn new() -> (r: Self)
        ensures
            r@ == Seq::<(Seq<char>, ValueView)>::empty(),
    {
        let r = ParameterMap { entries: Vec::new() };
        assert(r@ =~= Seq::<(Seq<char>, ValueView)>::empty());
        r
    }

    /// The number of entries.
    pub fn len(&self) -> (r: usize)
        ensures
            r == self@.len(),
            distinct_keys(self@),
    {
        proof {
            use_type_invariant(self);
        }
        self.entries.len()
    }

    /// Whether the map has no entry.
    pub fn is_empty(&self) -> (r: bool)
        ensures
            r == (self@.len() == 0),
    {
        self.entries.len() == 0
    }

    /// The entry at place `i`: its key and its value.
    pub fn entry(&self, i: usize) -> (r: (&str, &ParameterValue))
        requires
            i < self@.len(),
        ensures
            (r.0@, r.1@) == self@[i as int],
            decreases_to!(*self => *r.1),
    {
        let e = &self.entries[i];
        (e.0.as_str(), &e.1)
    }

    /// The place of the key, where the map has it.
    fn find(&self, key: &String) -> (r: Option<usize>)
        ensures
            match r {
                Some(i) => i < self@.len() && self@[i as int].0 == key@,
                None => !has_key(self@, key@),
            },
    {
        let mut i: usize = 0;
        while i < self.entries.len()
            invariant
                i <= self.entries@.len(),
                forall|j: int| 0 <= j < i ==> (#[trigger] self@[j]).0 != key@,
            decreases self.entries@.len() - i,
        {
            if self.entries[i].0 == *key {
                return Some(i);
            }
            i += 1;
        }
        None
    }

    /// Whether the map has the key.
    pub fn contains_key(&self, key: &str) -> (r: bool)
        ensures
            r == has_key(self@, key@),
    {
        let owned = key.to_owned();
        self.find(&owned).is_some()
    }

    /// The value under the key, where the map has it.
    pub fn get(&self, key: &str) -> (r: Option<&ParameterValue>)
        ensures
            match r {
                Some(v) => value_at(self@, key@) == Some(v@),
                None => value_at(self@, key@) is None,
            },
    {
        proof {
            use_type_invariant(self);
        }
        let owned = key.to_owned();
        match self.find(&owned) {
            Some(i) => {
                assert(self@[i as int].0 == key@);
                assert(key_index(self@, key@) == i);
                Some(&self.entries[i].1)
            },
            None => None,
        }
    }

    /// Puts each pair into the map, in order, the key and the value each
    /// converted first.
    pub fn extend_from<K: Into<String>, V: Into<ParameterValue>>(&mut self, pairs: Vec<(K, V)>)
        ensures
            exists|converted: Seq<(String, ParameterValue)>|
                #![trigger pair_views(converted)]
                converted_pairs(pairs@, converted) && final(self)@ == with_entries(
                    old(self)@,
                    pair_views(converted),
                ),
    {
        let ghost mut converted: Seq<(String, ParameterValue)> = Seq::empty();
        for pair in it: pairs
            invariant
                it.seq() == pairs@,
                converted.len() == it.index(),
                forall|j: int|
                    0 <= j < it.index() ==> call_ensures(
                        K::into,
                        (pairs@[j].0,),
                        (#[trigger] converted[j]).0,
                    ) && call_ensures(V::into, (pairs@[j].1,), converted[j].1),
                self@ == with_entries(old(self)@, pair_views(converted)),
        {
            let (k, v) = pair;
            let key: String = k.into();
            let value: ParameterValue = v.into();
            proof {
                let next = converted.push((key, value));
                assert(pair_views(next).drop_last() =~= pair_views(converted));
                assert(pair_views(next).last() == (key@, value@));
                converted = next;
            }
            self.insert(key, value);
        }
        assert(converted_pairs(pairs@, converted));
    }

    /// Appends the texts of the entries, `key: value`, with a comma and a
    /// space between each two.
    pub fn write_entries(&self, out: &mut String)
        ensures
            final(out)@ == old(out)@ + joined(entry_texts(self@), ", "@),
    {
        write_entries(&self.entries, out);
        assert(pair_views(self.entries@) =~= self@);
    }

    /// Puts `value` under `key`. Where the map had the key, the new value
    /// takes the place of the old one; otherwise the entry goes to the end.
    pub fn insert(&mut self, key: String, value: ParameterValue)
        ensures
            final(self)@ == with_entry(old(self)@, key@, value@),
            distinct_keys(final(self)@),
    {
        proof {
            use_type_invariant(&*self);
        }
        let found = self.find(&key);
        let mut taken = ParameterMap::new();
        core::mem::swap(self, &mut taken);
        let mut entries = taken.entries;
        match found {
            Some(i) => {
                assert(old(self)@[i as int].0 == key@);
                assert(key_index(old(self)@, key@) == i);
                entries[i] = (key, value);
            },
            None => {
                entries.push((key, value));
            },
        }
        assert forall|a: int, b: int| 0 <= a < b < entries@.len() implies (#[trigger] entries@[a]).0@
            != (#[trigger] entries@[b]).0@ by {
            if found is None {
                assert(a < old(self)@.len());
                assert(b < old(self)@.len() ==> old(self)@[a].0 != old(self)@[b].0);
                assert(b == old(self)@.len() ==> old(self)@[a].0 != key@);
            } else {
                assert(old(self)@[a].0 != old(self)@[b].0);
            }
        }
        *self = ParameterMap { entries };
        assert(self@ =~= with_entry(old(self)@, key@, value@));
        proof {
            lemma_with_entry_distinct(old(self)@, key@, value@);
        }
    }
}

/// The keys with the trees of their values, in order.
pub open spec fn pair_views(entries: Seq<(String, ParameterValue)>) -> Seq<(Seq<char>, ValueView)>
    decreases entries,
{
    Seq::new(
        entries.len(),
        |i: int|
            if 0 <= i < entries.len() {
                (entries[i].0@, entries[i].1@)
            } else {
                (Seq::empty(), ValueView::Null)
            },
    )
}

/// Appends the texts of the items, with a comma and a space between each two.
fn write_items(items: &Vec<ParameterValue>, out: &mut String)
    ensures
        final(out)@ == old(out)@ + joined(item_texts(trees(items@)), ", "@),
    decreases items,
{
    let ghost before = out@;
    let ghost texts = item_texts(trees(items@));
    let mut i: usize = 0;
    while i < items.len()
        invariant
            i <= items@.len(),
            texts == item_texts(trees(items@)),
            out@ == before + joined(texts.take(i as int), ", "@),
        decreases items@.len() - i,
    {
        if i > 0 {
            out.append(", ");
        }
        items[i].write_text(out);
        proof {
            assert(texts.take(i + 1).drop_last() =~= texts.take(i as int));
            assert(texts.take(i + 1).last() == value_text(items@[i as int]@));
        }
        i += 1;
    }
    proof {
        assert(texts.take(i as int) =~= texts);
    }
}

/// Appends the texts of the entries, with a comma and a space between each
/// two.
fn write_entries(entries: &Vec<(String, ParameterValue)>, out: &mut String)
    ensures
        final(out)@ == old(out)@ + joined(entry_texts(pair_views(entries@)), ", "@),
    decreases entries,
{
    let ghost before = out@;
    let ghost texts = entry_texts(pair_views(entries@));
    let mut i: usize = 0;
    while i < entries.len()
        invariant
            i <= entries@.len(),
            texts == entry_texts(pair_views(entries@)),
            out@ == before + joined(texts.take(i as int), ", "@),
        decreases entries@.len() - i,
    {
        if i > 0 {
            out.append(", ");
        }
        out.append(entries[i].0.as_str());
        out.append(": ");
        entries[i].1.write_text(out);
        proof {
            assert(texts.take(i + 1).drop_last() =~= texts.take(i as int));
            assert(texts.take(i + 1).last() == entries@[i as int].0@ + ": "@ + value_text(
                entries@[i as int].1@,
            ));
        }
        i += 1;
    }
    proof {
        assert(texts.take(i as int) =~= texts);
    }
}

/// A copy of the items, each with the tree of the one it was made from.
fn clone_items(items: &Vec<ParameterValue>) -> (r: Vec<ParameterValue>)
    ensures
        trees(r@) == trees(items@),
    decreases items,
{
    let mut out: Vec<ParameterValue> = Vec::new();
    let mut i: usize = 0;
    while i < items.len()
        invariant
            i <= items@.len(),
            out@.len() == i,
            forall|j: int| 0 <= j < i ==> (#[trigger] out@[j])@ == items@[j]@,
        decreases items@.len() - i,
    {
        out.push(items[i].clone());
        i += 1;
    }
    assert(trees(out@) =~= trees(items@));
    out
}

/// A copy of the entries, each with the key and the tree of the one it was
/// made from.
fn clone_entries(entries: &Vec<(String, ParameterValue)>) -> (r: Vec<(String, ParameterValue)>)
    ensures
        r@.len() == entries@.len(),
        forall|j: int|
            0 <= j < entries@.len() ==> (#[trigger] r@[j]).0@ == entries@[j].0@ && r@[j].1@
                == entries@[j].1@,
    decreases entries,
{
    let mut out: Vec<(String, ParameterValue)> = Vec::new();
    let mut i: usize = 0;
    while i < entries.len()
        invariant
            i <= entries@.len(),
            out@.len() == i,
            forall|j: int|
                0 <= j < i ==> (#[trigger] out@[j]).0@ == entries@[j].0@ && out@[j].1@
                    == entries@[j].1@,
        decreases entries@.len() - i,
    {
        out.push((entries[i].0.clone(), entries[i].1.clone()));
        i += 1;
    }
    out
}

impl Clone for FloatValue {
    fn clone(&self) -> (r: Self)
        ensures
            r@ == self@,
    {
        FloatValue { bits: self.bits, text: self.text.clone(), json: self.json.clone() }
    }
}

impl Clone for ParameterMap {
    fn clone(&self) -> (r: Self)
        ensures
            r@ == self@,
        decreases self,
    {
        proof {
            use_type_invariant(self);
        }
        let entries = clone_entries(&self.entries);
        let r = ParameterMap { entries };
        assert(r@ =~= self@);
        r
    }
}

impl Clone for ParameterValue {
    /// A deep copy: the result stands for the same tree.
    fn clone(&self) -> (r: Self)
        ensures
            r@ == self@,
        decreases self,
    {
        match self {
            ParameterValue::String(s) => ParameterValue::String(s.clone()),
            ParameterValue::Integer(i) => ParameterValue::Integer(*i),
            ParameterValue::Float(f) => ParameterValue::Float(f.clone()),
            ParameterValue::Boolean(b) => ParameterValue::Boolean(*b),
            ParameterValue::Array(items) => ParameterValue::Array(clone_items(items)),
            ParameterValue::Object(map) => ParameterValue::Object(map.clone()),
            ParameterValue::Null => ParameterValue::Null,
        }
    }
}

impl FloatValue {
    /// A number from its bit pattern and its two written forms.
    pub fn new(bits: u64, text: String, json: String) -> (r: Self)
        ensures
            r@ == (FloatView { bits, text: text@, json: json@ }),
    {
        FloatValue { bits, text, json }
    }
}

impl ParameterValue {
    /// Appends the text of the value to `out`.
    pub fn write_text(&self, out: &mut String)
        ensures
            final(out)@ == old(out)@ + value_text(self@),
        decreases self,
    {
        match self {
            ParameterValue::String(s) => {
                out.append(s.as_str());
            },
            ParameterValue::Integer(i) => {
                push_signed_decimal(out, *i);
            },
            ParameterValue::Float(f) => {
                out.append(f.text.as_str());
            },
            ParameterValue::Boolean(b) => {
                if *b {
                    out.append("true");
                } else {
                    out.append("false");
                }
            },
            ParameterValue::Array(items) => {
                out.append("[");
                write_items(items, out);
                out.append("]");
            },
            ParameterValue::Object(map) => {
                out.append("{");
                write_entries(&map.entries, out);
                assert(pair_views(map.entries@) =~= map@);
                out.append("}");
            },
            ParameterValue::Null => {
                out.append("null");
            },
        }
    }

    /// The value written as text.
    pub fn to_string(&self) -> (r: String)
        ensures
            r@ == value_text(self@),
    {
        let mut out = String::new();
        self.write_text(&mut out);
        out
    }
}

} // verus!
