//! Builders for objects and arrays whose items are of different kinds.

use crate::value::{trees, with_entry, ParameterMap, ParameterValue, ValueView};
use vstd::prelude::*;

verus! {

/// Builds an object entry by entry.
#[derive(Debug)]
pub struct ObjectBuilder {
    map: ParameterMap,
}

impl View for ObjectBuilder {
    type V = Seq<(Seq<char>, ValueView)>;

    closed spec fn view(&self) -> Seq<(Seq<char>, ValueView)> {
        self.map@
    }
}

impl ObjectBuilder {
    /// A builder without entries.
    pub fn new() -> (r: Self)
        ensures
            r@ == Seq::<(Seq<char>, ValueView)>::empty(),
    {
        ObjectBuilder { map: ParameterMap::new() }
    }

    /// The builder with one more entry, the key and the value each converted
    /// first. A value already under the key gives way to the new one.
    pub fn field<K: Into<String>, V: Into<ParameterValue>>(self, key: K, value: V) -> (r: Self)
        ensures
            exists|k: String, v: ParameterValue|
                #![trigger with_entry(self@, k@, v@)]
                call_ensures(K::into, (key,), k) && call_ensures(V::into, (value,), v) && r@
                    == with_entry(self@, k@, v@),
    {
        let mut builder = self;
        let k: String = key.into();
        let v: ParameterValue = value.into();
        assert(with_entry(self@, k@, v@) == with_entry(self@, k@, v@));
        builder.map.insert(k, v);
        builder
    }

    /// Puts one more entry into the builder, the key and the value each
    /// converted first, and hands the builder back. A value already under
    /// the key gives way to the new one.
    pub fn field_mut<K: Into<String>, V: Into<ParameterValue>>(&mut self, key: K, value: V) -> (r:
        &mut Self)
        ensures
            exists|k: String, v: ParameterValue|
                #![trigger with_entry(old(self)@, k@, v@)]
                call_ensures(K::into, (key,), k) && call_ensures(V::into, (value,), v) && r@
                    == with_entry(old(self)@, k@, v@),
            *final(self) == *final(r),
    {
        let k: String = key.into();
        let v: ParameterValue = value.into();
        assert(with_entry(old(self)@, k@, v@) == with_entry(old(self)@, k@, v@));
        self.map.insert(k, v);
        self
    }

    /// The object with the entries put in so far.
    pub fn build(self) -> (r: ParameterValue)
        ensures
            r@ == ValueView::Object(self@),
    {
        ParameterValue::Object(self.map)
    }
}

/// Builds an array item by item.
#[derive(Debug)]
pub struct ArrayBuilder {
    items: Vec<ParameterValue>,
}

impl View for ArrayBuilder {
    type V = Seq<ValueView>;

    closed spec fn view(&self) -> Seq<ValueView> {
        trees(self.items@)
    }
}

impl ArrayBuilder {
    /// A builder without items.
    pub fn new() -> (r: Self)
        ensures
            r@ == Seq::<ValueView>::empty(),
    {
        let r = ArrayBuilder { items: Vec::new() };
        assert(r@ =~= Seq::<ValueView>::empty());
        r
    }

    /// The builder with one more item at the end, converted first.
    pub fn push<V: Into<ParameterValue>>(self, value: V) -> (r: Self)
        ensures
            exists|v: ParameterValue|
                #![trigger self@.push(v@)]
                call_ensures(V::into, (value,), v) && r@ == self@.push(v@),
    {
        let mut builder = self;
        let v: ParameterValue = value.into();
        assert(trees(self.items@.push(v)) =~= self@.push(v@));
        builder.items.push(v);
        builder
    }

    /// Puts one more item at the end, converted first, and hands the builder
    /// back.
    pub fn push_mut<V: Into<ParameterValue>>(&mut self, value: V) -> (r: &mut Self)
        ensures
            exists|v: ParameterValue|
                #![trigger old(self)@.push(v@)]
                call_ensures(V::into, (value,), v) && r@ == old(self)@.push(v@),
            *final(self) == *final(r),
    {
        let v: ParameterValue = value.into();
        assert(trees(old(self).items@.push(v)) =~= old(self)@.push(v@));
        self.items.push(v);
        self
    }

    /// The array with the items put in so far.
    pub fn build(self) -> (r: ParameterValue)
        ensures
            r@ == ValueView::Array(self@),
    {
        ParameterValue::Array(self.items)
    }
}

impl ParameterValue {
    /// A builder for an object.
    pub fn object_builder() -> (r: ObjectBuilder)
        ensures
            r@ == Seq::<(Seq<char>, ValueView)>::empty(),
    {
        ObjectBuilder::new()
    }

    /// A builder for an array.
    pub fn array_builder() -> (r: ArrayBuilder)
        ensures
            r@ == Seq::<ValueView>::empty(),
    {
        ArrayBuilder::new()
    }

    /// The object that `f` builds: `f` is called once, on an empty builder,
    /// and puts the entries in. The builder that `f` hands back is left as it
    /// comes.
    pub fn build_object<F: FnOnce(&mut ObjectBuilder) -> &mut ObjectBuilder>(f: F) -> (r:
        ParameterValue)
        requires
            forall|builder: &mut ObjectBuilder| builder@.len() == 0 ==> call_requires(f, (builder,)),
        ensures
            exists|builder: &mut ObjectBuilder, handed: &mut ObjectBuilder|
                #![trigger call_ensures(f, (builder,), handed)]
                builder@.len() == 0 && call_ensures(f, (builder,), handed) && final(handed)@
                    == handed@ && r@ == ValueView::Object(final(builder)@),
    {
        let mut builder = ObjectBuilder::new();
        f(&mut builder);
        builder.build()
    }

    /// The array that `f` builds: `f` is called once, on an empty builder,
    /// and puts the items in. The builder that `f` hands back is left as it
    /// comes.
    pub fn build_array<F: FnOnce(&mut ArrayBuilder) -> &mut ArrayBuilder>(f: F) -> (r:
        ParameterValue)
        requires
            forall|builder: &mut ArrayBuilder| builder@.len() == 0 ==> call_requires(f, (builder,)),
        ensures
            exists|builder: &mut ArrayBuilder, handed: &mut ArrayBuilder|
                #![trigger call_ensures(f, (builder,), handed)]
                builder@.len() == 0 && call_ensures(f, (builder,), handed) && final(handed)@
                    == handed@ && r@ == ValueView::Array(final(builder)@),
    {
        let mut builder = ArrayBuilder::new();
        f(&mut builder);
        builder.build()
    }
}

} // verus!
