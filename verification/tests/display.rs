use warehouse::category::Category;
use warehouse::price::Price;
use warehouse::product::Product;
use warehouse::store::Store;
use warehouse::table::{display_name, render_results, render_table};

fn product(name: &str, hundredths: u64, category: Category, number_of_items: u32) -> Product {
    Product { name: name.to_string(), price: Price { hundredths }, category, number_of_items }
}

fn shown(name: &str) -> String {
    display_name(name).into_iter().collect()
}

#[test]
fn short_names_are_shown_in_full() {
    assert_eq!(shown(""), "");
    assert_eq!(shown("Apple"), "Apple");
    assert_eq!(shown("exactly15chars!"), "exactly15chars!");
}

#[test]
fn long_names_are_cut_for_display() {
    assert_eq!(shown("sixteen chars !!"), "sixteen char...");
    assert_eq!(shown("A name far longer than the column"), "A name far l...");
    assert_eq!(shown("ééééééééééééééééé"), "éééééééééééé...");
}

#[test]
fn cutting_a_name_leaves_the_product_alone() {
    let long = "A name far longer than the column";
    let store = Store { products: vec![product(long, 100, Category::Food, 1)] };
    let lines = render_table(&store);
    assert!(lines[3].contains("A name far l..."));
    assert_eq!(store.products[0].name, long);
    assert_eq!(store.list()[0].product.name, long);
}

#[test]
fn full_table_has_rules_titles_and_numbered_lines() {
    let store = Store {
        products: vec![
            product("Apple", 150, Category::Food, 10),
            product("Laptop", 99_999, Category::Electronic, 2),
        ],
    };
    let lines = render_table(&store);
    let rule = "-".repeat(72);
    let expected = vec![
        rule.clone(),
        format!(
            "{:<3} | {:<15} | {:<12} | {:>10} | {:>5} | {:>12}",
            "ID", "Name", "Category", "Price", "Qty", "Total"
        ),
        rule.clone(),
        format!(
            "{:<3} | {:<15} | {:<12} | {:>10} | {:>5} | {:>12}",
            1, "Apple", "Food", "1.50", 10, "15.00"
        ),
        format!(
            "{:<3} | {:<15} | {:<12} | {:>10} | {:>5} | {:>12}",
            2, "Laptop", "Electronic", "999.99", 2, "1999.98"
        ),
        rule,
    ];
    assert_eq!(lines, expected);
    assert_eq!(lines[3], "1   | Apple           | Food         |       1.50 |    10 |        15.00");
    assert!(lines.iter().all(|l| l.chars().count() == 72));
}

#[test]
fn empty_table_has_only_rules_and_titles() {
    let lines = render_table(&Store::new());
    assert_eq!(lines.len(), 4);
    assert_eq!(lines[0], lines[2]);
    assert_eq!(lines[0], lines[3]);
}

#[test]
fn wide_values_push_the_columns() {
    let store = Store {
        products: vec![product("Gold", u64::MAX, Category::Clothing, u32::MAX)],
    };
    let lines = render_table(&store);
    let total = u64::MAX as u128 * u32::MAX as u128;
    let expected = format!(
        "{:<3} | {:<15} | {:<12} | {:>10} | {:>5} | {:>12}",
        1,
        "Gold",
        "Clothing",
        "184467440737095516.15",
        u32::MAX,
        format!("{}.{:02}", total / 100, total % 100)
    );
    assert_eq!(lines[3], expected);
}

#[test]
fn position_column_grows_past_three_digits() {
    let products = (0..1000).map(|_| product("x", 1, Category::Food, 1)).collect();
    let lines = render_table(&Store { products });
    assert!(lines[3 + 98].starts_with("99  | x"));
    assert!(lines[3 + 999].starts_with("1000 | x"));
}

#[test]
fn result_table_has_no_positions() {
    let found = vec![product("Pineapple", 300, Category::Food, 4)];
    let lines = render_results(&found);
    let rule = "-".repeat(65);
    let expected = vec![
        rule.clone(),
        format!(
            "{:<15} | {:<12} | {:>10} | {:>5} | {:>12}",
            "Name", "Category", "Price", "Qty", "Total"
        ),
        rule.clone(),
        format!(
            "{:<15} | {:<12} | {:>10} | {:>5} | {:>12}",
            "Pineapple", "Food", "3.00", 4, "12.00"
        ),
        rule,
    ];
    assert_eq!(lines, expected);
}
