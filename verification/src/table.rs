//! The fixed-width table in which products are shown. Names that are too
//! long are cut for display; the products themselves are never changed.

use crate::decimal::{digits_of, push_digits};
use crate::price::{format_money, money_text};
use crate::product::{Product, ProductView};
use crate::store::Store;
use crate::text::{from_chars, to_chars};
use vstd::prelude::*;

verus! {

/// The longest name that is shown in full.
pub const NAME_WIDTH: usize = 15;

/// How many characters of a longer name are shown before the dots.
pub const NAME_KEPT: usize = 12;

/// `n` times the character `c`.
pub open spec fn repeated(c: char, n: nat) -> Seq<char> {
    Seq::new(n, |i: int| c)
}

/// `s` at the left of a column `width` wide; a longer `s` is left as it is.
pub open spec fn left_aligned(s: Seq<char>, width: nat) -> Seq<char> {
    if s.len() >= width {
        s
    } else {
        s + repeated(' ', (width - s.len()) as nat)
    }
}

/// `s` at the right of a column `width` wide; a longer `s` is left as it is.
pub open spec fn right_aligned(s: Seq<char>, width: nat) -> Seq<char> {
    if s.len() >= width {
        s
    } else {
        repeated(' ', (width - s.len()) as nat) + s
    }
}

/// A name as the table shows it: in full up to 15 characters, else its
/// first 12 characters and three dots.
pub open spec fn shown_name(name: Seq<char>) -> Seq<char> {
    if name.len() > NAME_WIDTH {
        name.take(NAME_KEPT as int) + "..."@
    } else {
        name
    }
}

/// The columns that every table has: name, category, price, quantity and
/// total.
pub open spec fn columns(
    name: Seq<char>,
    category: Seq<char>,
    price: Seq<char>,
    quantity: Seq<char>,
    total: Seq<char>,
) -> Seq<char> {
    left_aligned(name, 15) + " | "@ + left_aligned(category, 12) + " | "@ + right_aligned(
        price,
        10,
    ) + " | "@ + right_aligned(quantity, 5) + " | "@ + right_aligned(total, 12)
}

/// The columns of one product.
pub open spec fn product_columns(p: ProductView) -> Seq<char> {
    columns(
        shown_name(p.name),
        p.category.label_text(),
        money_text(p.price.hundredths as nat),
        digits_of(p.number_of_items as nat),
        money_text(p.total_value()),
    )
}

/// The titles above the columns.
pub open spec fn title_columns() -> Seq<char> {
    columns("Name"@, "Category"@, "Price"@, "Qty"@, "Total"@)
}

/// The line of the full table for the product at a 1-based position.
pub open spec fn numbered_line(position: nat, p: ProductView) -> Seq<char> {
    left_aligned(digits_of(position), 3) + " | "@ + product_columns(p)
}

/// The full table: a rule, the titles, a rule, one numbered line per
/// product in order, and a rule.
pub open spec fn full_table(store: Seq<ProductView>) -> Seq<Seq<char>> {
    seq![repeated('-', 72), left_aligned("ID"@, 3) + " | "@ + title_columns(), repeated('-', 72)]
        + Seq::new(store.len(), |i: int| numbered_line((i + 1) as nat, store[i])) + seq![
        repeated('-', 72),
    ]
}

/// The table of search results: as the full table, without positions.
pub open spec fn result_table(found: Seq<ProductView>) -> Seq<Seq<char>> {
    seq![repeated('-', 65), title_columns(), repeated('-', 65)] + found.map_values(
        |p: ProductView| product_columns(p),
    ) + seq![repeated('-', 65)]
}

/// The lines of a table, each as a sequence of characters.
pub open spec fn lines_view(lines: Seq<String>) -> Seq<Seq<char>> {
    lines.map_values(|l: String| l@)
}

fn push_repeated(out: &mut Vec<char>, c: char, n: usize)
    ensures
        final(out)@ == old(out)@ + repeated(c, n as nat),
{
    let mut i: usize = 0;
    assert(out@ =~= old(out)@ + repeated(c, 0));
    while i < n
        invariant
            i <= n,
            out@ == old(out)@ + repeated(c, i as nat),
        decreases n - i,
    {
        out.push(c);
        i += 1;
        assert(out@ =~= old(out)@ + repeated(c, i as nat));
    }
}

fn push_chars(out: &mut Vec<char>, s: &Vec<char>)
    ensures
        final(out)@ == old(out)@ + s@,
{
    let mut i: usize = 0;
    assert(out@ =~= old(out)@ + s@.take(0));
    while i < s.len()
        invariant
            i <= s.len(),
            out@ == old(out)@ + s@.take(i as int),
        decreases s.len() - i,
    {
        out.push(s[i]);
        i += 1;
        assert(out@ =~= old(out)@ + s@.take(i as int));
    }
    assert(s@.take(s.len() as int) =~= s@);
}

fn push_word(out: &mut Vec<char>, word: &str)
    ensures
        final(out)@ == old(out)@ + word@,
{
    let chars = to_chars(word);
    push_chars(out, &chars);
}

fn push_left_aligned(out: &mut Vec<char>, s: &Vec<char>, width: usize)
    ensures
        final(out)@ == old(out)@ + left_aligned(s@, width as nat),
{
    push_chars(out, s);
    if s.len() < width {
        push_repeated(out, ' ', width - s.len());
    }
    assert(out@ =~= old(out)@ + left_aligned(s@, width as nat));
}

fn push_right_aligned(out: &mut Vec<char>, s: &Vec<char>, width: usize)
    ensures
        final(out)@ == old(out)@ + right_aligned(s@, width as nat),
{
    if s.len() < width {
        push_repeated(out, ' ', width - s.len());
    }
    push_chars(out, s);
    assert(out@ =~= old(out)@ + right_aligned(s@, width as nat));
}

/// A name as the table shows it.
pub fn display_name(name: &str) -> (shown: Vec<char>)
    ensures
        shown@ == shown_name(name@),
{
    let chars = to_chars(name);
    if chars.len() > NAME_WIDTH {
        let mut shown: Vec<char> = Vec::new();
        let mut i: usize = 0;
        while i < NAME_KEPT
            invariant
                i <= NAME_KEPT,
                chars.len() > NAME_WIDTH,
                shown@ == chars@.take(i as int),
            decreases NAME_KEPT - i,
        {
            shown.push(chars[i]);
            i += 1;
            assert(shown@ =~= chars@.take(i as int));
        }
        push_word(&mut shown, "...");
        shown
    } else {
        chars
    }
}

fn push_columns(
    out: &mut Vec<char>,
    name: &Vec<char>,
    category: &Vec<char>,
    price: &Vec<char>,
    quantity: &Vec<char>,
    total: &Vec<char>,
)
    ensures
        final(out)@ == old(out)@ + columns(name@, category@, price@, quantity@, total@),
{
    push_left_aligned(out, name, 15);
    push_word(out, " | ");
    push_left_aligned(out, category, 12);
    push_word(out, " | ");
    push_right_aligned(out, price, 10);
    push_word(out, " | ");
    push_right_aligned(out, quantity, 5);
    push_word(out, " | ");
    push_right_aligned(out, total, 12);
    assert(out@ =~= old(out)@ + columns(name@, category@, price@, quantity@, total@));
}

fn push_product(out: &mut Vec<char>, product: &Product)
    ensures
        final(out)@ == old(out)@ + product_columns(product@),
{
    let name = display_name(product.name.as_str());
    let category = to_chars(product.category.label().as_str());
    let price = format_money(product.price.hundredths as u128);
    let mut quantity: Vec<char> = Vec::new();
    push_digits(product.number_of_items as u128, &mut quantity);
    assert(quantity@ =~= digits_of(product.number_of_items as nat));
    let total = format_money(product.total_value());
    push_columns(out, &name, &category, &price, &quantity, &total);
}

fn push_titles(out: &mut Vec<char>)
    ensures
        final(out)@ == old(out)@ + title_columns(),
{
    let name = to_chars("Name");
    let category = to_chars("Category");
    let price = to_chars("Price");
    let quantity = to_chars("Qty");
    let total = to_chars("Total");
    push_columns(out, &name, &category, &price, &quantity, &total);
}

fn rule(width: usize) -> (line: String)
    ensures
        line@ == repeated('-', width as nat),
{
    let mut chars: Vec<char> = Vec::new();
    push_repeated(&mut chars, '-', width);
    assert(chars@ =~= repeated('-', width as nat));
    from_chars(&chars)
}

/// The lines of the full table of `store`.
pub fn render_table(store: &Store) -> (lines: Vec<String>)
    ensures
        lines_view(lines@) == full_table(store@),
{
    let mut lines: Vec<String> = Vec::new();
    lines.push(rule(72));
    let mut titles: Vec<char> = Vec::new();
    let id = to_chars("ID");
    push_left_aligned(&mut titles, &id, 3);
    push_word(&mut titles, " | ");
    push_titles(&mut titles);
    assert(titles@ =~= left_aligned("ID"@, 3) + " | "@ + title_columns());
    lines.push(from_chars(&titles));
    lines.push(rule(72));
    let ghost head = lines_view(lines@);
    assert(head =~= seq![
        repeated('-', 72),
        left_aligned("ID"@, 3) + " | "@ + title_columns(),
        repeated('-', 72),
    ]);
    let mut i: usize = 0;
    assert(lines_view(lines@) =~= head + Seq::new(
        0,
        |k: int| numbered_line((k + 1) as nat, store@[k]),
    ));
    while i < store.products.len()
        invariant
            i <= store.products.len(),
            lines_view(lines@) == head + Seq::new(
                i as nat,
                |k: int| numbered_line((k + 1) as nat, store@[k]),
            ),
        decreases store.products.len() - i,
    {
        let mut line: Vec<char> = Vec::new();
        let mut position: Vec<char> = Vec::new();
        push_digits((i + 1) as u128, &mut position);
        assert(position@ =~= digits_of((i + 1) as nat));
        push_left_aligned(&mut line, &position, 3);
        push_word(&mut line, " | ");
        push_product(&mut line, &store.products[i]);
        assert(line@ =~= numbered_line((i + 1) as nat, store@[i as int]));
        let ghost before = lines_view(lines@);
        lines.push(from_chars(&line));
        assert(lines_view(lines@) =~= before.push(line@));
        i += 1;
        assert(lines_view(lines@) =~= head + Seq::new(
            i as nat,
            |k: int| numbered_line((k + 1) as nat, store@[k]),
        ));
    }
    lines.push(rule(72));
    assert(lines_view(lines@) =~= full_table(store@));
    lines
}

/// The lines of the table of the search results `found`.
pub fn render_results(found: &Vec<Product>) -> (lines: Vec<String>)
    ensures
        lines_view(lines@) == result_table(crate::product::views(found@)),
{
    let ghost shown = crate::product::views(found@);
    let mut lines: Vec<String> = Vec::new();
    lines.push(rule(65));
    let mut titles: Vec<char> = Vec::new();
    push_titles(&mut titles);
    assert(titles@ =~= title_columns());
    lines.push(from_chars(&titles));
    lines.push(rule(65));
    let ghost head = lines_view(lines@);
    assert(head =~= seq![repeated('-', 65), title_columns(), repeated('-', 65)]);
    let mut i: usize = 0;
    assert(lines_view(lines@) =~= head + shown.take(0).map_values(
        |p: ProductView| product_columns(p),
    ));
    while i < found.len()
        invariant
            i <= found.len(),
            shown == crate::product::views(found@),
            lines_view(lines@) == head + shown.take(i as int).map_values(
                |p: ProductView| product_columns(p),
            ),
        decreases found.len() - i,
    {
        let mut line: Vec<char> = Vec::new();
        push_product(&mut line, &found[i]);
        assert(line@ =~= product_columns(shown[i as int]));
        let ghost before = lines_view(lines@);
        lines.push(from_chars(&line));
        assert(lines_view(lines@) =~= before.push(line@));
        i += 1;
        assert(lines_view(lines@) =~= head + shown.take(i as int).map_values(
            |p: ProductView| product_columns(p),
        ));
    }
    assert(shown.take(i as int) =~= shown);
    lines.push(rule(65));
    assert(lines_view(lines@) =~= result_table(shown));
    lines
}

} // verus!
