//! What holds of the store's operations and of the persisted form, for all
//! stores: each law is proved from the definitions that the operations'
//! contracts are stated in.

use crate::category::Category;
use crate::decimal::lemma_unsigned_round_trip;
use crate::persist::{
    column_of, header_fields, layout_of, names_column, product_of_fields, product_of_record,
    products_of, row_of_product, rows_of_store, store_of_records, Layout,
};
use crate::price::{lemma_money_round_trip, Price};
use crate::product::ProductView;
use crate::store::{after_add, after_delete, listing, matching, name_matches};
use vstd::prelude::*;

verus! {

/// What a caller hands to the store to add a product.
pub struct AddRequest {
    pub name: Seq<char>,
    pub price: Price,
    pub category_text: Seq<char>,
    pub number_of_items: u32,
}

impl AddRequest {
    /// Whether the category text names a category.
    pub open spec fn is_valid(self) -> bool {
        Category::named_by(self.category_text) is Some
    }

    /// The product that a valid request describes.
    pub open spec fn product(self) -> ProductView {
        ProductView {
            name: self.name,
            price: self.price,
            category: Category::named_by(self.category_text)->0,
            number_of_items: self.number_of_items,
        }
    }
}

/// The store after the requests were made of it one after the other.
pub open spec fn after_adds(store: Seq<ProductView>, requests: Seq<AddRequest>) -> Seq<ProductView>
    decreases requests.len(),
{
    if requests.len() == 0 {
        store
    } else {
        let r = requests.last();
        after_add(
            after_adds(store, requests.drop_last()),
            r.name,
            r.price,
            r.category_text,
            r.number_of_items,
        )
    }
}

/// After any sequence of valid additions to an empty store, the listing
/// shows the products in the order they were added, the first at position
/// 1, the next at 2, and so on.
pub proof fn law_additions_keep_order(requests: Seq<AddRequest>)
    requires
        forall|i: int| 0 <= i < requests.len() ==> (#[trigger] requests[i]).is_valid(),
    ensures
        after_adds(Seq::empty(), requests).len() == requests.len(),
        listing(after_adds(Seq::empty(), requests)).len() == requests.len(),
        forall|i: int|
            0 <= i < requests.len() ==> #[trigger] listing(after_adds(Seq::empty(), requests))[i]
                == (i + 1, requests[i].product()),
    decreases requests.len(),
{
    if requests.len() > 0 {
        let before = requests.drop_last();
        law_additions_keep_order(before);
        let store = after_adds(Seq::empty(), requests);
        assert(requests.last().is_valid());
        assert(store == after_adds(Seq::empty(), before).push(requests.last().product()));
        assert forall|i: int| 0 <= i < requests.len() implies #[trigger] listing(store)[i] == (
            i + 1,
            requests[i].product(),
        ) by {
            if i < before.len() {
                assert(listing(after_adds(Seq::empty(), before))[i] == (i + 1, before[i].product()));
            }
        }
    }
}

/// An addition whose category text names no category leaves the store as
/// it was; any other makes it one entry longer and changes no entry that was
/// there.
pub proof fn law_addition(
    store: Seq<ProductView>,
    name: Seq<char>,
    price: Price,
    category_text: Seq<char>,
    number_of_items: u32,
)
    ensures
        Category::named_by(category_text) is None ==> after_add(
            store,
            name,
            price,
            category_text,
            number_of_items,
        ) == store,
        Category::named_by(category_text) is Some ==> after_add(
            store,
            name,
            price,
            category_text,
            number_of_items,
        ).len() == store.len() + 1,
        forall|i: int|
            0 <= i < store.len() ==> after_add(
                store,
                name,
                price,
                category_text,
                number_of_items,
            )[i] == store[i],
{
}

/// Deleting at a position from 1 to the length removes that one entry:
/// the store is one shorter, the entries before it stay in place and those
/// after it move up by one. Deleting at any other position changes nothing.
pub proof fn law_deletion(store: Seq<ProductView>, position: int)
    ensures
        1 <= position <= store.len() ==> {
            &&& after_delete(store, position).len() == store.len() - 1
            &&& forall|i: int|
                0 <= i < position - 1 ==> after_delete(store, position)[i] == store[i]
            &&& forall|i: int|
                position - 1 <= i < store.len() - 1 ==> after_delete(store, position)[i] == store[i
                    + 1]
        },
        !(1 <= position <= store.len()) ==> after_delete(store, position) == store,
{
}

/// A search goes through the store in order and keeps exactly the entries
/// whose name answers the query: nothing is found in an empty store, and an
/// entry added at the end comes last among the found, if it is found.
pub proof fn law_search_selects_in_order(
    store: Seq<ProductView>,
    last: ProductView,
    query: Seq<char>,
)
    ensures
        matching(Seq::empty(), query) == Seq::<ProductView>::empty(),
        matching(store.push(last), query) == if name_matches(last.name, query) {
            matching(store, query).push(last)
        } else {
            matching(store, query)
        },
        matching(store, query).len() <= store.len(),
        forall|i: int|
            0 <= i < matching(store, query).len() ==> name_matches(
                (#[trigger] matching(store, query)[i]).name,
                query,
            ) && store.contains(matching(store, query)[i]),
        forall|i: int|
            0 <= i < store.len() && name_matches(store[i].name, query) ==> matching(
                store,
                query,
            ).contains(#[trigger] store[i]),
{
    reveal(Seq::filter);
    assert(store.push(last).drop_last() =~= store);
    let pred = |p: ProductView| name_matches(p.name, query);
    store.filter_lemma(pred);
    assert forall|i: int| 0 <= i < matching(store, query).len() implies store.contains(
        #[trigger] matching(store, query)[i],
    ) by {
        lemma_found_is_stored(store, query, i);
    }
}

proof fn lemma_found_is_stored(store: Seq<ProductView>, query: Seq<char>, i: int)
    requires
        0 <= i < matching(store, query).len(),
    ensures
        store.contains(matching(store, query)[i]),
    decreases store.len(),
{
    reveal(Seq::filter);
    if store.len() > 0 {
        let before = store.drop_last();
        if i < matching(before, query).len() {
            lemma_found_is_stored(before, query, i);
            let k = choose|k: int| 0 <= k < before.len() && before[k] == matching(before, query)[i];
            assert(store[k] == matching(store, query)[i]);
        } else {
            assert(store[store.len() - 1] == matching(store, query)[i]);
        }
    }
}

/// The header that this library writes names each field once, in the order
/// name, price, category, number of items.
pub proof fn lemma_header_layout()
    ensures
        layout_of(Some(header_fields())) == (Layout::Named {
            width: 4,
            name: 0,
            price: 1,
            category: 2,
            number_of_items: 3,
        }),
{
    reveal_strlit("name");
    reveal_strlit("price");
    reveal_strlit("category");
    reveal_strlit("number_of_items");
    let h = header_fields();
    assert("name"@.len() == 4 && "price"@.len() == 5 && "category"@.len() == 8
        && "number_of_items"@.len() == 15);
    assert(names_column(h, "name"@, 0));
    assert(names_column(h, "price"@, 1));
    assert(names_column(h, "category"@, 2));
    assert(names_column(h, "number_of_items"@, 3));
    assert(column_of(h, "name"@) == Some(0int));
    assert(column_of(h, "price"@) == Some(1int));
    assert(column_of(h, "category"@) == Some(2int));
    assert(column_of(h, "number_of_items"@) == Some(3int));
}

/// The record written for a product is read back as that product.
pub proof fn law_record_round_trip(p: ProductView)
    ensures
        product_of_record(
            Layout::Named { width: 4, name: 0, price: 1, category: 2, number_of_items: 3 },
            Some(row_of_product(p)),
        ) == Some(p),
{
    let row = row_of_product(p);
    lemma_money_round_trip(p.price.hundredths as nat);
    p.category.lemma_label_round_trip();
    lemma_unsigned_round_trip(p.number_of_items as nat, u32::MAX as nat);
    assert(product_of_fields(row[0], row[1], row[2], row[3]) == Some(p));
}

/// Reading the records written for a store gives the store back: the same
/// products, in the same order, with the same fields.
pub proof fn law_store_round_trip(store: Seq<ProductView>)
    ensures
        store_of_records(rows_of_store(store).map_values(|r: Seq<Seq<char>>| Some(r))) == store,
{
    let records = rows_of_store(store).map_values(|r: Seq<Seq<char>>| Some(r));
    lemma_header_layout();
    let body = store.map_values(|p: ProductView| Some(row_of_product(p)));
    assert(records[0] == Some(header_fields()));
    assert(records.drop_first() =~= body);
    lemma_rows_round_trip(store);
}

proof fn lemma_rows_round_trip(store: Seq<ProductView>)
    ensures
        products_of(
            Layout::Named { width: 4, name: 0, price: 1, category: 2, number_of_items: 3 },
            store.map_values(|p: ProductView| Some(row_of_product(p))),
        ) == store,
    decreases store.len(),
{
    let layout = Layout::Named { width: 4, name: 0, price: 1, category: 2, number_of_items: 3 };
    let records = store.map_values(|p: ProductView| Some(row_of_product(p)));
    if store.len() == 0 {
        assert(products_of(layout, records) =~= store);
    } else {
        let before = store.drop_last();
        lemma_rows_round_trip(before);
        assert(records.drop_last() =~= before.map_values(
            |p: ProductView| Some(row_of_product(p)),
        ));
        law_record_round_trip(store.last());
        assert(before.push(store.last()) =~= store);
    }
}

} // verus!
