//! The persisted form of a store: a table of text with a header line and one
//! line per product. Lines that cannot be read as a product are skipped.

use crate::category::Category;
use crate::csv_format::{
    fields_view, into_bytes, new_writer, read_records, record_line, record_view, records_in,
    records_view, first_width, write_record, written,
};
use crate::decimal::{digits_of, parse_unsigned, push_digits, unsigned_in};
use crate::price::{money_text, price_of_text, Price};
use crate::product::{Product, ProductView};
use crate::store::Store;
use crate::text::{from_chars, spells, to_chars};
use vstd::prelude::*;

verus! {

/// The file, in the working directory, in which the inventory is kept from
/// one run to the next.
pub const FILE_NAME: &'static str = "inventory.csv";

/// The table writer refused a record or did not hand back its bytes.
#[derive(Clone, Copy, Debug, PartialEq, Eq, Structural)]
pub struct EncodeError;

/// Where the fields of a product stand in the records of a table.
#[derive(Clone, Copy, Debug, PartialEq, Eq, Structural)]
pub enum Layout {
    /// The header could not be read: the fields are taken in the order name,
    /// price, category, number of items.
    Positional,
    /// The header names each field once, in the column given. Every record
    /// has `width` fields.
    Named { width: usize, name: usize, price: usize, category: usize, number_of_items: usize },
    /// The header lacks a field or names one twice: no record is a product.
    Unusable,
}

/// The header of a table that this library writes.
pub open spec fn header_fields() -> Seq<Seq<char>> {
    seq!["name"@, "price"@, "category"@, "number_of_items"@]
}

/// The record that stands for a product.
pub open spec fn row_of_product(p: ProductView) -> Seq<Seq<char>> {
    seq![
        p.name,
        money_text(p.price.hundredths as nat),
        p.category.label_text(),
        digits_of(p.number_of_items as nat),
    ]
}

/// The records of a store's table: the header, then one record per product,
/// in order. An empty store is written as the header alone.
pub open spec fn rows_of_store(store: Seq<ProductView>) -> Seq<Seq<Seq<char>>> {
    seq![header_fields()] + store.map_values(|p: ProductView| row_of_product(p))
}

/// The lines of the given records, one after the other.
pub open spec fn lines(rows: Seq<Seq<Seq<char>>>) -> Seq<u8>
    decreases rows.len(),
{
    if rows.len() == 0 {
        Seq::empty()
    } else {
        lines(rows.drop_last()) + record_line(rows.last())
    }
}

/// The persisted form of a store.
pub open spec fn file_text(store: Seq<ProductView>) -> Seq<u8> {
    lines(rows_of_store(store))
}

/// Whether column `i` of the header, and no other, is called `word`.
pub open spec fn names_column(header: Seq<Seq<char>>, word: Seq<char>, i: int) -> bool {
    &&& 0 <= i < header.len()
    &&& header[i] == word
    &&& forall|j: int| 0 <= j < header.len() && header[j] == word ==> j == i
}

/// The one column of the header that is called `word`.
pub open spec fn column_of(header: Seq<Seq<char>>, word: Seq<char>) -> Option<int> {
    if exists|i: int| names_column(header, word, i) {
        Some(choose|i: int| names_column(header, word, i))
    } else {
        None
    }
}

/// The layout that a header gives to the records under it.
pub open spec fn layout_of(header: Option<Seq<Seq<char>>>) -> Layout {
    match header {
        None => Layout::Positional,
        Some(h) => match (
            column_of(h, "name"@),
            column_of(h, "price"@),
            column_of(h, "category"@),
            column_of(h, "number_of_items"@),
        ) {
            (Some(n), Some(p), Some(c), Some(q)) => Layout::Named {
                width: h.len() as usize,
                name: n as usize,
                price: p as usize,
                category: c as usize,
                number_of_items: q as usize,
            },
            _ => Layout::Unusable,
        },
    }
}

/// The product that four fields denote: any name, a price in decimal
/// notation, a category by its label and a number of items that fits `u32`.
pub open spec fn product_of_fields(
    name: Seq<char>,
    price: Seq<char>,
    category: Seq<char>,
    number_of_items: Seq<char>,
) -> Option<ProductView> {
    match (
        price_of_text(price),
        Category::with_label(category),
        unsigned_in(number_of_items, u32::MAX as nat),
    ) {
        (Some(h), Some(c), Some(n)) => Some(
            ProductView {
                name,
                price: Price { hundredths: h as u64 },
                category: c,
                number_of_items: n as u32,
            },
        ),
        _ => None,
    }
}

/// The product that a record denotes under a layout, if it denotes one.
pub open spec fn product_of_record(layout: Layout, record: Option<Seq<Seq<char>>>) -> Option<
    ProductView,
> {
    match (layout, record) {
        (Layout::Positional, Some(row)) => if row.len() >= 4 {
            product_of_fields(row[0], row[1], row[2], row[3])
        } else {
            None
        },
        (Layout::Named { width, name, price, category, number_of_items }, Some(row)) => if row.len()
            == width && name < width && price < width && category < width && number_of_items
            < width {
            product_of_fields(
                row[name as int],
                row[price as int],
                row[category as int],
                row[number_of_items as int],
            )
        } else {
            None
        },
        _ => None,
    }
}

/// The products that the records denote under a layout, in order; a record
/// that denotes none is passed over.
pub open spec fn products_of(layout: Layout, records: Seq<Option<Seq<Seq<char>>>>) -> Seq<
    ProductView,
>
    decreases records.len(),
{
    if records.len() == 0 {
        Seq::empty()
    } else {
        let before = products_of(layout, records.drop_last());
        match product_of_record(layout, records.last()) {
            Some(p) => before.push(p),
            None => before,
        }
    }
}

/// The store that a table holds: the first record is the header, the others
/// are products or passed over.
pub open spec fn store_of_records(records: Seq<Option<Seq<Seq<char>>>>) -> Seq<ProductView> {
    if records.len() == 0 {
        Seq::empty()
    } else {
        products_of(layout_of(records[0]), records.drop_first())
    }
}

/// The header record.
pub fn header_row() -> (row: Vec<String>)
    ensures
        fields_view(row@) == header_fields(),
{
    let mut row: Vec<String> = Vec::new();
    row.push("name".to_owned());
    row.push("price".to_owned());
    row.push("category".to_owned());
    row.push("number_of_items".to_owned());
    assert(fields_view(row@) =~= header_fields());
    row
}

/// The record that stands for `product`.
pub fn row_of(product: &Product) -> (row: Vec<String>)
    ensures
        fields_view(row@) == row_of_product(product@),
{
    let mut digits: Vec<char> = Vec::new();
    push_digits(product.number_of_items as u128, &mut digits);
    assert(digits@ =~= digits_of(product.number_of_items as nat));
    let mut row: Vec<String> = Vec::new();
    row.push(product.name.clone());
    row.push(product.price.to_text());
    row.push(product.category.label());
    row.push(from_chars(&digits));
    assert(fields_view(row@) =~= row_of_product(product@));
    row
}

/// Whether a column of `header` from `from` on is called `word`.
fn named_from(header: &Vec<String>, word: &str, from: usize) -> (r: bool)
    requires
        from <= header.len(),
    ensures
        r == exists|j: int| from <= j < header.len() && fields_view(header@)[j] == word@,
{
    let ghost h = fields_view(header@);
    let mut k: usize = from;
    while k < header.len()
        invariant
            from <= k <= header.len(),
            h == fields_view(header@),
            forall|j: int| from <= j < k ==> h[j] != word@,
        decreases header.len() - k,
    {
        let chars = to_chars(header[k].as_str());
        assert(h[k as int] == header@[k as int]@);
        if spells(&chars, word) {
            return true;
        }
        k += 1;
    }
    false
}

/// The one column of `header` that is called `word`.
pub fn find_column(header: &Vec<String>, word: &str) -> (r: Option<usize>)
    ensures
        match column_of(fields_view(header@), word@) {
            Some(i) => r == Some(i as usize),
            None => r is None,
        },
{
    let ghost h = fields_view(header@);
    let mut first: usize = 0;
    while first < header.len()
        invariant
            first <= header.len(),
            h == fields_view(header@),
            forall|j: int| 0 <= j < first ==> h[j] != word@,
        decreases header.len() - first,
    {
        let chars = to_chars(header[first].as_str());
        assert(h[first as int] == header@[first as int]@);
        if spells(&chars, word) {
            if named_from(header, word, first + 1) {
                let ghost other = choose|j: int| first < j < header.len() && h[j] == word@;
                assert forall|i: int| !names_column(h, word@, i) by {
                    if names_column(h, word@, i) {
                        assert(h[first as int] == word@);
                        assert(h[other] == word@);
                    }
                }
                return None;
            }
            assert(names_column(h, word@, first as int));
            return Some(first);
        }
        first += 1;
    }
    assert(forall|i: int| !names_column(h, word@, i));
    None
}

/// The layout that `header` gives to the records under it.
pub fn layout_from(header: &Option<Vec<String>>) -> (layout: Layout)
    ensures
        layout == layout_of(record_view(*header)),
{
    match header {
        None => Layout::Positional,
        Some(h) => {
            let name = find_column(h, "name");
            let price = find_column(h, "price");
            let category = find_column(h, "category");
            let number_of_items = find_column(h, "number_of_items");
            match (name, price, category, number_of_items) {
                (Some(n), Some(p), Some(c), Some(q)) => Layout::Named {
                    width: h.len(),
                    name: n,
                    price: p,
                    category: c,
                    number_of_items: q,
                },
                _ => Layout::Unusable,
            }
        },
    }
}

/// The product that four fields denote, if they denote one.
pub fn product_from_fields(name: &str, price: &str, category: &str, number_of_items: &str) -> (r:
    Option<Product>)
    ensures
        match product_of_fields(name@, price@, category@, number_of_items@) {
            Some(p) => r is Some && r->0@ == p,
            None => r is None,
        },
{
    let price = match Price::parse(price) {
        Some(p) => p,
        None => {
            return None;
        },
    };
    let category = match Category::from_label(category) {
        Some(c) => c,
        None => {
            return None;
        },
    };
    let digits = to_chars(number_of_items);
    let count = match parse_unsigned(&digits, 0xffff_ffff) {
        Some(n) => n,
        None => {
            return None;
        },
    };
    Some(Product { name: name.to_owned(), price, category, number_of_items: count as u32 })
}

/// The product that `record` denotes under `layout`, if it denotes one.
pub fn product_from_record(layout: Layout, record: &Option<Vec<String>>) -> (r: Option<Product>)
    ensures
        match product_of_record(layout, record_view(*record)) {
            Some(p) => r is Some && r->0@ == p,
            None => r is None,
        },
{
    match record {
        None => None,
        Some(row) => match layout {
            Layout::Positional => {
                if row.len() >= 4 {
                    product_from_fields(
                        row[0].as_str(),
                        row[1].as_str(),
                        row[2].as_str(),
                        row[3].as_str(),
                    )
                } else {
                    None
                }
            },
            Layout::Named { width, name, price, category, number_of_items } => {
                if row.len() == width && name < width && price < width && category < width
                    && number_of_items < width {
                    product_from_fields(
                        row[name].as_str(),
                        row[price].as_str(),
                        row[category].as_str(),
                        row[number_of_items].as_str(),
                    )
                } else {
                    None
                }
            },
            Layout::Unusable => None,
        },
    }
}

/// The store that the records of a table hold.
pub fn store_from_records(records: &Vec<Option<Vec<String>>>) -> (store: Store)
    ensures
        store@ == store_of_records(records_view(records@)),
{
    let mut store = Store::new();
    if records.len() == 0 {
        return store;
    }
    let ghost all = records_view(records@);
    let layout = layout_from(&records[0]);
    let mut i: usize = 1;
    assert(all.subrange(1, 1) =~= Seq::empty());
    while i < records.len()
        invariant
            1 <= i <= records.len(),
            all == records_view(records@),
            layout == layout_of(all[0]),
            store@ == products_of(layout, all.subrange(1, i as int)),
        decreases records.len() - i,
    {
        assert(all.subrange(1, i + 1).drop_last() =~= all.subrange(1, i as int));
        let ghost before = store@;
        match product_from_record(layout, &records[i]) {
            Some(product) => {
                store.products.push(product);
                assert(store@ =~= before.push(product@));
            },
            None => {},
        }
        i += 1;
    }
    assert(all.subrange(1, i as int) =~= all.drop_first());
    store
}

/// Reads a store from its persisted form. Records that denote no product
/// are passed over.
pub fn decode(bytes: &[u8]) -> (store: Store)
    ensures
        store@ == store_of_records(records_in(bytes@)),
{
    let records = read_records(bytes);
    store_from_records(&records)
}

proof fn lemma_lines_take(rows: Seq<Seq<Seq<char>>>, k: int)
    requires
        0 <= k < rows.len(),
    ensures
        lines(rows.take(k + 1)) == lines(rows.take(k)) + record_line(rows[k]),
{
    assert(rows.take(k + 1).drop_last() =~= rows.take(k));
}

/// The persisted form of `store`: the header line, then one line per
/// product. The table writer refuses only a record whose number of fields
/// differs from the first record's; every record written here has four, so
/// the result is always `Ok`.
pub fn encode(store: &Store) -> (r: Result<Vec<u8>, EncodeError>)
    ensures
        r is Ok,
        r->Ok_0@ == file_text(store@),
{
    let ghost rows = rows_of_store(store@);
    let header = header_row();
    assert(header@.len() == fields_view(header@).len());
    let mut writer = match write_record(new_writer(), &header) {
        Ok(w) => w,
        Err(_) => {
            return Err(EncodeError);
        },
    };
    proof {
        lemma_lines_take(rows, 0);
        assert(lines(rows.take(0)) =~= Seq::<u8>::empty());
        assert(written(writer) =~= lines(rows.take(1)));
    }
    let mut i: usize = 0;
    while i < store.products.len()
        invariant
            i <= store.products.len(),
            rows == rows_of_store(store@),
            written(writer) == lines(rows.take(i + 1)),
            first_width(writer) == Some(4nat),
        decreases store.products.len() - i,
    {
        let row = row_of(&store.products[i]);
        assert(row@.len() == fields_view(row@).len());
        writer = match write_record(writer, &row) {
            Ok(w) => w,
            Err(_) => {
                return Err(EncodeError);
            },
        };
        proof {
            lemma_lines_take(rows, i + 1);
            assert(rows[i + 1] == row_of_product(store@[i as int]));
        }
        i += 1;
    }
    assert(rows.take(i + 1) =~= rows);
    match into_bytes(writer) {
        Some(bytes) => Ok(bytes),
        None => Err(EncodeError),
    }
}

/// The store that a run begins with, given what reading the inventory file
/// gave: where the file could not be read there is no earlier inventory, and
/// the store is empty; else it is the store that the file's bytes hold.
pub fn store_at_start(contents: &Option<Vec<u8>>) -> (store: Store)
    ensures
        contents is None ==> store@ == Seq::<ProductView>::empty(),
        contents is Some ==> store@ == store_of_records(records_in(contents->0@)),
{
    match contents {
        Some(bytes) => decode(bytes.as_slice()),
        None => Store::new(),
    }
}

} // verus!
