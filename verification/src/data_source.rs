//! The lazy data source that collection components read, and its in-memory adapter.
use std::hash::Hash;
use vstd::prelude::*;

verus! {

/// A source of items that collection components read lazily, by index.
///
/// Implementations must give every index a stable key, even while its item is not
/// loaded, and must change the revision whenever items, their order or what is loaded
/// changes. Reads happen on the UI thread and must not block.
pub trait LazyDataSource {
    /// The value of one item.
    type Item;

    /// A key that identifies an item across revisions.
    type Key: Eq + Hash;

    /// Number of items, as a number.
    spec fn count_spec(&self) -> nat;

    /// Number of items.
    fn item_count(&self) -> (r: usize)
        ensures
            r == self.count_spec(),
    ;

    /// The data revision.
    fn revision(&self) -> u64;

    /// The stable key of the item at `index`.
    fn key(&self, index: usize) -> Self::Key
        requires
            index < self.count_spec(),
    ;

    /// The item at `index` is loaded.
    spec fn loaded_spec(&self, index: usize) -> bool;

    /// The item at `index`, if it is loaded.
    fn item(&self, index: usize) -> (r: Option<Self::Item>)
        ensures
            r is Some == self.loaded_spec(index),
    ;

    /// Whether the item at `index` is loaded.
    fn is_loaded(&self, index: usize) -> (r: bool)
        ensures
            r == self.loaded_spec(index),
    {
        self.item(index).is_some()
    }
}

/// Makes a `Vec` of an array's items, from `<Vec<T> as From<[T; N]>>::from`, which keeps
/// the items in order.
#[verifier::external_body]
pub(crate) fn vec_from_array<T, const N: usize>(items: [T; N]) -> (r: Vec<T>)
    ensures
        r@ == items@,
{
    Vec::from(items)
}

/// An in-memory data source over items that the caller hands over; keys are made on
/// demand by the key factory, from an item's index and the item.
#[verifier::reject_recursive_types(T)]
#[verifier::reject_recursive_types(K)]
pub struct OwnedDataSource<T, K, F: Fn(usize, &T) -> K> {
    items: Vec<T>,
    key: F,
    revision: u64,
}

impl<T, K, F: Fn(usize, &T) -> K> OwnedDataSource<T, K, F> {
    /// The key factory accepts every index and item.
    #[verifier::type_invariant]
    spec fn factory_total(self) -> bool {
        forall|i: usize, t: &T| call_requires(self.key, (i, t))
    }

    /// The items held.
    pub closed spec fn items_spec(&self) -> Seq<T> {
        self.items@
    }

    /// The key factory.
    pub closed spec fn key_factory(&self) -> F {
        self.key
    }

    /// The revision.
    pub closed spec fn revision_spec(&self) -> u64 {
        self.revision
    }

    /// An adapter over `items`, at revision 0.
    pub fn from_vec(items: Vec<T>, key: F) -> (r: Self)
        requires
            forall|i: usize, t: &T| call_requires(key, (i, t)),
        ensures
            r.items_spec() == items@,
            r.key_factory() == key,
            r.revision_spec() == 0,
    {
        OwnedDataSource { items, key, revision: 0 }
    }

    /// An adapter over the items of an array, at revision 0.
    pub fn from_array<const N: usize>(items: [T; N], key: F) -> (r: Self)
        requires
            forall|i: usize, t: &T| call_requires(key, (i, t)),
        ensures
            r.items_spec() == items@,
            r.key_factory() == key,
            r.revision_spec() == 0,
    {
        Self::from_vec(vec_from_array(items), key)
    }

    /// Sets the revision.
    pub fn with_revision(self, revision: u64) -> (r: Self)
        ensures
            r.items_spec() == self.items_spec(),
            r.key_factory() == self.key_factory(),
            r.revision_spec() == revision,
    {
        proof {
            use_type_invariant(&self);
        }
        OwnedDataSource { revision, ..self }
    }

    /// The items held.
    pub fn items(&self) -> (r: &[T])
        ensures
            r@ == self.items_spec(),
    {
        self.items.as_slice()
    }
}

impl<T: Clone, K: Eq + Hash, F: Fn(usize, &T) -> K> LazyDataSource for OwnedDataSource<T, K, F> {
    type Item = T;

    type Key = K;

    open spec fn count_spec(&self) -> nat {
        self.items_spec().len()
    }

    fn item_count(&self) -> (r: usize) {
        self.items.len()
    }

    fn revision(&self) -> (r: u64)
        ensures
            r == self.revision_spec(),
    {
        self.revision
    }

    /// The key that the factory makes for the item at `index`; the factory must accept
    /// every index and item.
    fn key(&self, index: usize) -> (r: K)
        ensures
            call_ensures(self.key_factory(), (index, &self.items_spec()[index as int]), r),
    {
        proof {
            use_type_invariant(self);
        }
        (self.key)(index, &self.items[index])
    }

    open spec fn loaded_spec(&self, index: usize) -> bool {
        index < self.count_spec()
    }

    fn item(&self, index: usize) -> (r: Option<T>)
        ensures
            (index < self.count_spec()) == (r is Some),
            r matches Some(v) ==> cloned(self.items_spec()[index as int], v),
    {
        if index < self.items.len() {
            Some(self.items[index].clone())
        } else {
            None
        }
    }
}

} // verus!
