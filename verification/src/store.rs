//! The record store: products in insertion order, found by their position.

use crate::category::Category;
use crate::price::Price;
use crate::product::{views, Product, ProductView};
use crate::text::{lowercase, to_chars};
use vstd::prelude::*;

verus! {

/// Why the store refused an operation.
#[derive(Clone, Copy, Debug, PartialEq, Eq, Structural)]
pub enum StoreError {
    /// The category text names none of the categories.
    InvalidCategory,
    /// No entry stands at the position given.
    InvalidPosition,
}

/// One line of a listing: an entry and the position it is displayed at.
#[derive(Clone, Debug, PartialEq, Eq)]
pub struct Entry {
    /// The 1-based display position.
    pub position: usize,
    pub product: Product,
}

/// The products on hand, in the order they were added.
#[derive(Clone, Debug, PartialEq, Eq)]
pub struct Store {
    pub products: Vec<Product>,
}

impl View for Store {
    type V = Seq<ProductView>;

    open spec fn view(&self) -> Seq<ProductView> {
        views(self.products@)
    }
}

/// Whether `needle` stands in `hay` from index `at` on.
pub open spec fn occurs_at(hay: Seq<char>, needle: Seq<char>, at: int) -> bool {
    0 <= at && at + needle.len() <= hay.len() && hay.subrange(at, at + needle.len()) == needle
}

/// Whether `needle` is a contiguous part of `hay`.
pub open spec fn contains(hay: Seq<char>, needle: Seq<char>) -> bool {
    exists|at: int| occurs_at(hay, needle, at)
}

/// Whether a product called `name` answers the search for `query`: the name
/// contains the query once both are in lowercase.
pub open spec fn name_matches(name: Seq<char>, query: Seq<char>) -> bool {
    contains(lowercase(name), lowercase(query))
}

/// The entries that answer the search for `query`, in their order.
pub open spec fn matching(store: Seq<ProductView>, query: Seq<char>) -> Seq<ProductView> {
    store.filter(|p: ProductView| name_matches(p.name, query))
}

/// The store after an attempt to add a product: one entry longer at the end
/// where the category text names a category, unchanged where it does not.
pub open spec fn after_add(
    store: Seq<ProductView>,
    name: Seq<char>,
    price: Price,
    category_text: Seq<char>,
    number_of_items: u32,
) -> Seq<ProductView> {
    match Category::named_by(category_text) {
        Some(category) => store.push(ProductView { name, price, category, number_of_items }),
        None => store,
    }
}

/// What a listing shows of a store: each entry in order, with its 1-based
/// position.
pub open spec fn listing(store: Seq<ProductView>) -> Seq<(int, ProductView)> {
    Seq::new(store.len(), |i: int| (i + 1, store[i]))
}

/// The lines of a listing, each as its position and its product's view.
pub open spec fn entries_view(entries: Seq<Entry>) -> Seq<(int, ProductView)> {
    entries.map_values(|e: Entry| (e.position as int, e.product@))
}

/// The store after an attempt to delete the entry at a 1-based position.
pub open spec fn after_delete(store: Seq<ProductView>, position: int) -> Seq<ProductView> {
    if 1 <= position <= store.len() {
        store.remove(position - 1)
    } else {
        store
    }
}

/// Whether `needle` stands in `hay` from index `at` on.
fn stands_at(hay: &Vec<char>, needle: &Vec<char>, at: usize) -> (r: bool)
    requires
        at + needle.len() <= hay.len(),
    ensures
        r == occurs_at(hay@, needle@, at as int),
{
    let mut k: usize = 0;
    while k < needle.len()
        invariant
            k <= needle.len(),
            at + needle.len() <= hay.len(),
            hay@.subrange(at as int, at + k) == needle@.take(k as int),
        decreases needle.len() - k,
    {
        if hay[at + k] != needle[k] {
            assert(hay@.subrange(at as int, at + needle.len())[k as int] != needle@[k as int]);
            return false;
        }
        assert(hay@.subrange(at as int, at + k + 1) =~= hay@.subrange(at as int, at + k).push(
            hay@[at + k],
        ));
        assert(needle@.take(k + 1) =~= needle@.take(k as int).push(needle@[k as int]));
        k += 1;
    }
    assert(needle@.take(needle.len() as int) =~= needle@);
    true
}

/// Whether `needle` is a contiguous part of `hay`.
pub fn contains_chars(hay: &Vec<char>, needle: &Vec<char>) -> (r: bool)
    ensures
        r == contains(hay@, needle@),
{
    if needle.len() > hay.len() {
        assert(forall|at: int| !occurs_at(hay@, needle@, at));
        return false;
    }
    let last: usize = hay.len() - needle.len();
    let mut at: usize = 0;
    loop
        invariant
            at <= last,
            last == hay.len() - needle.len(),
            needle.len() <= hay.len(),
            forall|j: int| 0 <= j < at ==> !occurs_at(hay@, needle@, j),
        ensures
            at == last,
            forall|j: int| 0 <= j <= last ==> !occurs_at(hay@, needle@, j),
        decreases last - at,
    {
        if stands_at(hay, needle, at) {
            return true;
        }
        if at == last {
            break ;
        }
        at += 1;
    }
    assert(forall|j: int| !occurs_at(hay@, needle@, j));
    false
}

/// Whether `name`, put in lowercase, contains `needle`.
fn name_contains(name: &str, needle: &Vec<char>) -> (r: bool)
    ensures
        r == contains(lowercase(name@), needle@),
{
    let hay = to_chars(name.to_lowercase().as_str());
    contains_chars(&hay, needle)
}

/// Whether a product called `name` answers the search for `query`.
pub fn matches_query(name: &str, query: &str) -> (r: bool)
    ensures
        r == name_matches(name@, query@),
{
    let needle = to_chars(query.to_lowercase().as_str());
    name_contains(name, &needle)
}

proof fn lemma_matching_step(store: Seq<ProductView>, query: Seq<char>, i: int)
    requires
        0 <= i < store.len(),
    ensures
        matching(store.take(i + 1), query) == if name_matches(store[i].name, query) {
            matching(store.take(i), query).push(store[i])
        } else {
            matching(store.take(i), query)
        },
{
    reveal(Seq::filter);
    assert(store.take(i + 1).drop_last() =~= store.take(i));
}

/// A query whose lowercase form is empty is answered by every entry.
pub proof fn lemma_empty_query_matches_all(store: Seq<ProductView>, query: Seq<char>)
    requires
        lowercase(query).len() == 0,
    ensures
        matching(store, query) == store,
    decreases store.len(),
{
    reveal(Seq::filter);
    if store.len() > 0 {
        lemma_empty_query_matches_all(store.drop_last(), query);
        let hay = lowercase(store.last().name);
        assert(hay.subrange(0, 0) =~= lowercase(query));
        assert(occurs_at(hay, lowercase(query), 0));
        assert(store.drop_last().push(store.last()) =~= store);
    } else {
        assert(matching(store, query) =~= store);
    }
}

impl Store {
    /// A store with nothing in it.
    pub fn new() -> (store: Store)
        ensures
            store@ == Seq::<ProductView>::empty(),
    {
        let store = Store { products: Vec::new() };
        assert(store@ =~= Seq::<ProductView>::empty());
        store
    }

    /// How many entries the store holds.
    pub fn len(&self) -> (n: usize)
        ensures
            n == self@.len(),
    {
        self.products.len()
    }

    pub fn is_empty(&self) -> (r: bool)
        ensures
            r == (self@.len() == 0),
    {
        self.products.len() == 0
    }

    /// Adds a product at the end, unless `category_text` names no category:
    /// then the store stays as it is.
    pub fn add(
        &mut self,
        name: String,
        price: Price,
        category_text: &str,
        number_of_items: u32,
    ) -> (r: Result<(), StoreError>)
        ensures
            final(self)@ == after_add(
                old(self)@,
                name@,
                price,
                category_text@,
                number_of_items,
            ),
            Category::named_by(category_text@) is Some ==> r == Ok::<(), StoreError>(()),
            Category::named_by(category_text@) is None ==> r == Err::<(), StoreError>(
                StoreError::InvalidCategory,
            ) && *final(self) == *old(self),
    {
        match Category::parse(category_text) {
            Some(category) => {
                let product = Product { name, price, category, number_of_items };
                self.products.push(product);
                assert(self@ =~= old(self)@.push(product@));
                Ok(())
            },
            None => Err(StoreError::InvalidCategory),
        }
    }

    /// Every entry in order, each with its 1-based position.
    pub fn list(&self) -> (entries: Vec<Entry>)
        ensures
            entries_view(entries@) == listing(self@),
    {
        let mut entries: Vec<Entry> = Vec::new();
        let mut i: usize = 0;
        assert(entries_view(entries@) =~= listing(self@).take(0));
        while i < self.products.len()
            invariant
                i <= self.products.len(),
                entries_view(entries@) == listing(self@).take(i as int),
            decreases self.products.len() - i,
        {
            let ghost before = entries_view(entries@);
            let entry = Entry { position: i + 1, product: self.products[i].duplicate() };
            entries.push(entry);
            assert(entries_view(entries@) =~= before.push((i + 1, self@[i as int])));
            i += 1;
            assert(entries_view(entries@) =~= listing(self@).take(i as int));
        }
        assert(listing(self@).take(i as int) =~= listing(self@));
        entries
    }

    /// The entries whose name contains `query`, letter case ignored, in the
    /// order they stand in the store.
    pub fn search(&self, query: &str) -> (found: Vec<Product>)
        ensures
            views(found@) == matching(self@, query@),
            query@.len() == 0 ==> views(found@) == self@,
    {
        let needle = to_chars(query.to_lowercase().as_str());
        proof {
            if query@.len() == 0 {
                lemma_empty_query_matches_all(self@, query@);
            }
        }
        let mut found: Vec<Product> = Vec::new();
        let mut i: usize = 0;
        assert(views(found@) =~= matching(self@.take(0), query@)) by {
            reveal(Seq::filter);
        }
        while i < self.products.len()
            invariant
                i <= self.products.len(),
                needle@ == lowercase(query@),
                views(found@) == matching(self@.take(i as int), query@),
            decreases self.products.len() - i,
        {
            proof {
                lemma_matching_step(self@, query@, i as int);
            }
            let ghost before = found@;
            if name_contains(self.products[i].name.as_str(), &needle) {
                found.push(self.products[i].duplicate());
                assert(views(found@) =~= views(before).push(self@[i as int]));
            }
            i += 1;
        }
        assert(self@.take(i as int) =~= self@);
        found
    }

    /// Removes the entry at the 1-based `position` and returns its name. A
    /// position at which no entry stands leaves the store as it is.
    pub fn delete_at(&mut self, position: usize) -> (r: Result<String, StoreError>)
        ensures
            final(self)@ == after_delete(old(self)@, position as int),
            1 <= position <= old(self)@.len() ==> r is Ok && r->Ok_0@ == old(self)@[position
                - 1].name,
            !(1 <= position <= old(self)@.len()) ==> r == Err::<String, StoreError>(
                StoreError::InvalidPosition,
            ) && *final(self) == *old(self),
    {
        if position > 0 && position <= self.products.len() {
            let removed = self.products.remove(position - 1);
            assert(self@ =~= old(self)@.remove(position - 1));
            Ok(removed.name)
        } else {
            Err(StoreError::InvalidPosition)
        }
    }
}

} // verus!
