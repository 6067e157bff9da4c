use warehouse::category::Category;
use warehouse::persist::{
    decode, encode, find_column, header_row, layout_from, product_from_fields,
    product_from_record, row_of, store_at_start, store_from_records, Layout,
};
use warehouse::price::Price;
use warehouse::product::Product;
use warehouse::store::Store;

fn product(name: &str, hundredths: u64, category: Category, number_of_items: u32) -> Product {
    Product { name: name.to_string(), price: Price { hundredths }, category, number_of_items }
}

fn fields(p: &Product) -> (String, u64, Category, u32) {
    (p.name.clone(), p.price.hundredths, p.category, p.number_of_items)
}

fn same(a: &Store, b: &Store) -> bool {
    a.products.len() == b.products.len()
        && a.products.iter().zip(b.products.iter()).all(|(x, y)| fields(x) == fields(y))
}

fn record(row: &[&str]) -> Option<Vec<String>> {
    Some(row.iter().map(|f| f.to_string()).collect())
}

const STANDARD: Layout =
    Layout::Named { width: 4, name: 0, price: 1, category: 2, number_of_items: 3 };

#[test]
fn a_store_is_written_as_header_and_rows() {
    let store = Store {
        products: vec![
            product("Apple", 150, Category::Food, 10),
            product("Laptop", 99_999, Category::Electronic, 2),
        ],
    };
    let text = String::from_utf8(encode(&store).unwrap()).unwrap();
    assert_eq!(
        text,
        "name,price,category,number_of_items\nApple,1.50,Food,10\nLaptop,999.99,Electronic,2\n"
    );
}

#[test]
fn an_empty_store_is_written_as_its_header() {
    let bytes = encode(&Store::new()).unwrap();
    assert_eq!(String::from_utf8(bytes.clone()).unwrap(), "name,price,category,number_of_items\n");
    assert!(decode(&bytes).is_empty());
    assert!(decode(b"").is_empty());
}

#[test]
fn a_run_starts_with_what_the_file_held() {
    assert!(store_at_start(&None).is_empty());
    assert!(store_at_start(&Some(Vec::new())).is_empty());
    let text = "name,price,category,number_of_items\nApple,1.50,Food,10\nPear,abc,Food,3\n";
    let store = store_at_start(&Some(text.as_bytes().to_vec()));
    assert_eq!(store.len(), 1);
    assert_eq!(fields(&store.products[0]), ("Apple".to_string(), 150, Category::Food, 10));
    let written = encode(&store).unwrap();
    assert!(same(&store_at_start(&Some(written)), &store));
}

#[test]
fn prices_in_any_plain_decimal_form_are_loaded() {
    let text = "name,price,category,number_of_items\n\
                A,2.125,Food,1\n\
                B,.5,Food,2\n\
                C,1.,Food,3\n\
                D,+1,Food,4\n\
                E,999.99,Electronic,5\n\
                F,1e3,Food,6\n";
    let store = decode(text.as_bytes());
    let prices: Vec<u64> = store.products.iter().map(|p| p.price.hundredths).collect();
    assert_eq!(prices, [212, 50, 100, 100, 99_999]);
    let names: Vec<&str> = store.products.iter().map(|p| p.name.as_str()).collect();
    assert_eq!(names, ["A", "B", "C", "D", "E"]);
}

#[test]
fn fields_are_quoted_where_the_format_needs_it() {
    let store = Store { products: vec![product("Nuts, \"mixed\"", 425, Category::Food, 3)] };
    let text = String::from_utf8(encode(&store).unwrap()).unwrap();
    assert_eq!(
        text,
        "name,price,category,number_of_items\n\"Nuts, \"\"mixed\"\"\",4.25,Food,3\n"
    );
}

#[test]
fn written_store_is_read_back() {
    let store = Store {
        products: vec![
            product("Apple", 150, Category::Food, 10),
            product("Nuts, \"mixed\"", 425, Category::Food, 0),
            product("two\nlines", 1, Category::Clothing, u32::MAX),
            product("", 0, Category::Electronic, 1),
            product("  padded  ", u64::MAX, Category::Electronic, 7),
            product("A name far longer than any column of a table", 77, Category::Clothing, 3),
            product("Crème brûlée", 650, Category::Food, 12),
            product("Apple", 150, Category::Food, 10),
        ],
    };
    let read = decode(&encode(&store).unwrap());
    assert!(same(&read, &store));
}

#[test]
fn single_product_with_empty_name_is_read_back() {
    let store = Store { products: vec![product("", 100, Category::Food, 1)] };
    assert!(same(&decode(&encode(&store).unwrap()), &store));
}

#[test]
fn malformed_rows_are_skipped() {
    let text = "name,price,category,number_of_items\n\
                Apple,1.50,Food,10\n\
                Pear,abc,Food,3\n";
    let store = decode(text.as_bytes());
    assert_eq!(store.len(), 1);
    assert_eq!(fields(&store.products[0]), ("Apple".to_string(), 150, Category::Food, 10));
}

#[test]
fn each_kind_of_malformed_row_is_skipped_alone() {
    let text = "name,price,category,number_of_items\n\
                Pear,2.00,Food\n\
                Plum,2.00,Food,3,extra\n\
                Fig,2.00,Food,many\n\
                Kiwi,2.00,Food,-1\n\
                Lime,2.00,Food,4294967296\n\
                Robot,2.00,Toys,1\n\
                Melon,2.00,food,1\n\
                Grape,,Food,1\n\
                Apple,1.5,Food,10\n\
                Date,2.00,Food,\n\
                Laptop,999.99,Electronic,+2\n";
    let store = decode(text.as_bytes());
    assert_eq!(store.len(), 2);
    assert_eq!(fields(&store.products[0]), ("Apple".to_string(), 150, Category::Food, 10));
    assert_eq!(
        fields(&store.products[1]),
        ("Laptop".to_string(), 99_999, Category::Electronic, 2)
    );
}

#[test]
fn a_row_that_is_not_text_is_skipped() {
    let mut bytes = b"name,price,category,number_of_items\n".to_vec();
    bytes.extend_from_slice(b"Ap\xffle,1.50,Food,10\n");
    bytes.extend_from_slice(b"Pear,2.00,Food,3\n");
    let store = decode(&bytes);
    assert_eq!(store.len(), 1);
    assert_eq!(store.products[0].name, "Pear");
}

#[test]
fn both_line_endings_are_read() {
    let store = decode(b"name,price,category,number_of_items\r\nApple,1.50,Food,10\r\nPear,2,Food,3");
    assert_eq!(store.len(), 2);
    assert_eq!(fields(&store.products[0]), ("Apple".to_string(), 150, Category::Food, 10));
    assert_eq!(fields(&store.products[1]), ("Pear".to_string(), 200, Category::Food, 3));
}

#[test]
fn the_inventory_file_has_a_fixed_name() {
    assert_eq!(warehouse::persist::FILE_NAME, "inventory.csv");
}

#[test]
fn columns_are_found_by_their_names() {
    let text = "price,name,number_of_items,category\n1.50,Apple,10,Food\n";
    let store = decode(text.as_bytes());
    assert_eq!(store.len(), 1);
    assert_eq!(fields(&store.products[0]), ("Apple".to_string(), 150, Category::Food, 10));

    let text = "name,price,category,number_of_items,note\nApple,1.50,Food,10,fresh\n";
    let store = decode(text.as_bytes());
    assert_eq!(store.len(), 1);
    assert_eq!(store.products[0].name, "Apple");
}

#[test]
fn a_header_without_all_fields_yields_nothing() {
    assert!(decode(b"name,price,category\nApple,1.50,Food\n").is_empty());
    assert!(decode(b"name,name,price,category,number_of_items\nA,B,1.50,Food,10\n").is_empty());
    assert!(decode(b"Name,Price,Category,Number_of_items\nApple,1.50,Food,10\n").is_empty());
    assert!(decode(b"Apple,1.50,Food,10\nPear,2.00,Food,3\n").is_empty());
    assert!(decode(b"name,price,category,number_of_items\n").is_empty());
}

#[test]
fn an_unreadable_header_leaves_the_fields_in_order() {
    let store = decode(b"\xff,b,c,d\nApple,1.50,Food,10\n");
    assert_eq!(store.len(), 1);
    assert_eq!(fields(&store.products[0]), ("Apple".to_string(), 150, Category::Food, 10));
}

#[test]
fn header_row_names_the_four_fields() {
    assert_eq!(header_row(), ["name", "price", "category", "number_of_items"]);
    assert_eq!(layout_from(&Some(header_row())), STANDARD);
    assert_eq!(layout_from(&None), Layout::Positional);
    assert_eq!(layout_from(&record(&["name", "price"])), Layout::Unusable);
    assert_eq!(
        layout_from(&record(&["x", "number_of_items", "category", "price", "name"])),
        Layout::Named { width: 5, name: 4, price: 3, category: 2, number_of_items: 1 }
    );
}

#[test]
fn a_column_must_be_named_once() {
    let header: Vec<String> = ["a", "b", "a", "c"].iter().map(|s| s.to_string()).collect();
    assert_eq!(find_column(&header, "b"), Some(1));
    assert_eq!(find_column(&header, "c"), Some(3));
    assert_eq!(find_column(&header, "a"), None);
    assert_eq!(find_column(&header, "d"), None);
    assert_eq!(find_column(&Vec::new(), "a"), None);
}

#[test]
fn a_product_is_written_as_four_fields() {
    let row = row_of(&product("Apple", 150, Category::Food, 10));
    assert_eq!(row, ["Apple", "1.50", "Food", "10"]);
    let back = product_from_record(STANDARD, &Some(row)).unwrap();
    assert_eq!(fields(&back), ("Apple".to_string(), 150, Category::Food, 10));
}

#[test]
fn fields_are_read_as_a_product() {
    let p = product_from_fields("Apple", "1.5", "Food", "10").unwrap();
    assert_eq!(fields(&p), ("Apple".to_string(), 150, Category::Food, 10));
    assert!(product_from_fields("Apple", "1.5", "Food", "ten").is_none());
    assert!(product_from_fields("Apple", "one", "Food", "10").is_none());
    assert!(product_from_fields("Apple", "1.5", "Fruit", "10").is_none());
}

#[test]
fn records_are_read_under_their_layout() {
    let good = record(&["Apple", "1.50", "Food", "10"]);
    assert!(product_from_record(STANDARD, &good).is_some());
    assert!(product_from_record(Layout::Positional, &good).is_some());
    assert!(product_from_record(Layout::Unusable, &good).is_none());
    assert!(product_from_record(STANDARD, &None).is_none());
    let long = record(&["Apple", "1.50", "Food", "10", "x"]);
    assert!(product_from_record(STANDARD, &long).is_none());
    assert!(product_from_record(Layout::Positional, &long).is_some());
    let short = record(&["Apple", "1.50", "Food"]);
    assert!(product_from_record(Layout::Positional, &short).is_none());
    let off = Layout::Named { width: 4, name: 0, price: 1, category: 2, number_of_items: 4 };
    assert!(product_from_record(off, &good).is_none());
}

#[test]
fn records_become_a_store() {
    let records = vec![
        Some(header_row()),
        record(&["Apple", "1.50", "Food", "10"]),
        None,
        record(&["Pear", "abc", "Food", "3"]),
        record(&["Laptop", "999.99", "Electronic", "2"]),
    ];
    let store = store_from_records(&records);
    assert_eq!(store.len(), 2);
    assert_eq!(store.products[0].name, "Apple");
    assert_eq!(store.products[1].name, "Laptop");
    assert!(store_from_records(&Vec::new()).is_empty());
    assert!(store_from_records(&vec![Some(header_row())]).is_empty());
}
