use warehouse::category::Category;
use warehouse::price::Price;
use warehouse::session::{Notice, Session, Stage};
use warehouse::store::Store;
use warehouse::table::{render_results, render_table};

fn run(session: &mut Session, lines: &[&str]) -> Vec<Notice> {
    lines.iter().map(|l| session.step(l)).collect()
}

fn stocked() -> Session {
    let mut session = Session::new(Store::new());
    run(&mut session, &["1\n", "Apple\n", "1.50\n", "food\n", "10\n"]);
    run(&mut session, &["1\n", "Laptop\n", "999.99\n", "electronic\n", "2\n"]);
    session
}

#[test]
fn a_session_starts_at_the_menu() {
    let session = Session::new(Store::new());
    assert_eq!(session.stage, Stage::Menu);
    assert!(!session.is_finished());
    assert!(session.store.is_empty());
}

#[test]
fn adding_asks_four_questions() {
    let mut session = Session::new(Store::new());
    assert_eq!(session.step("1\n"), Notice::Nothing);
    assert_eq!(session.stage, Stage::Name);
    assert_eq!(session.step("  Apple \n"), Notice::Nothing);
    assert_eq!(session.stage, Stage::Price);
    assert_eq!(session.step("1.50\n"), Notice::Nothing);
    assert_eq!(session.stage, Stage::Category);
    assert_eq!(session.step("Food\n"), Notice::Nothing);
    assert_eq!(session.stage, Stage::Quantity);
    assert_eq!(session.step("10\n"), Notice::Added);
    assert_eq!(session.stage, Stage::Menu);
    assert_eq!(session.store.len(), 1);
    let p = &session.store.products[0];
    assert_eq!(p.name, "Apple");
    assert_eq!(p.price, Price { hundredths: 150 });
    assert_eq!(p.category, Category::Food);
    assert_eq!(p.number_of_items, 10);
}

#[test]
fn unparsable_numbers_are_asked_again() {
    let mut session = Session::new(Store::new());
    assert_eq!(session.step("one\n"), Notice::InvalidInput);
    assert_eq!(session.stage, Stage::Menu);
    run(&mut session, &["1\n", "Apple\n"]);
    assert_eq!(session.step("cheap\n"), Notice::InvalidInput);
    assert_eq!(session.stage, Stage::Price);
    run(&mut session, &["2\n", "food\n"]);
    assert_eq!(session.step("-4\n"), Notice::InvalidInput);
    assert_eq!(session.stage, Stage::Quantity);
    assert_eq!(session.step("4\n"), Notice::Added);
    assert_eq!(session.step("4\n"), Notice::Table(render_table(&session.store)));
    assert_eq!(session.step("first\n"), Notice::InvalidInput);
    assert_eq!(session.stage, Stage::Position);
    assert_eq!(session.store.len(), 1);
}

#[test]
fn unknown_category_abandons_the_addition() {
    let mut session = Session::new(Store::new());
    let notices = run(&mut session, &["1\n", "Robot\n", "20\n", "toys\n", "1\n"]);
    assert_eq!(notices[4], Notice::InvalidCategory);
    assert_eq!(session.stage, Stage::Menu);
    assert!(session.store.is_empty());
}

#[test]
fn choices_off_the_menu_are_named_invalid() {
    let mut session = Session::new(Store::new());
    for line in ["0\n", "6\n", "-1\n", "2147483647\n"] {
        assert_eq!(session.step(line), Notice::InvalidChoice);
        assert_eq!(session.stage, Stage::Menu);
    }
}

#[test]
fn an_empty_store_has_nothing_to_show() {
    let mut session = Session::new(Store::new());
    assert_eq!(session.step("2\n"), Notice::Empty);
    assert_eq!(session.step("3\n"), Notice::Empty);
    assert_eq!(session.step("4\n"), Notice::NothingToDelete);
    assert_eq!(session.stage, Stage::Menu);
}

#[test]
fn listing_shows_the_table() {
    let mut session = stocked();
    let notice = session.step("2\n");
    assert_eq!(notice, Notice::Table(render_table(&session.store)));
    assert_eq!(session.stage, Stage::Menu);
}

#[test]
fn searching_shows_what_was_found() {
    let mut session = stocked();
    assert_eq!(session.step("3\n"), Notice::Nothing);
    assert_eq!(session.stage, Stage::Query);
    let found = session.store.search("LAP");
    assert_eq!(
        session.step(" LAP\n"),
        Notice::Results("LAP".to_string(), render_results(&found))
    );
    assert_eq!(session.stage, Stage::Menu);
    session.step("3\n");
    assert_eq!(session.step("phone\n"), Notice::NoResults("phone".to_string()));
    assert_eq!(session.stage, Stage::Menu);
    assert_eq!(session.store.len(), 2);
}

#[test]
fn deleting_shows_the_table_and_removes_by_position() {
    let mut session = stocked();
    assert_eq!(session.step("4\n"), Notice::Table(render_table(&session.store)));
    assert_eq!(session.stage, Stage::Position);
    assert_eq!(session.step("1\n"), Notice::Removed("Apple".to_string()));
    assert_eq!(session.stage, Stage::Menu);
    assert_eq!(session.store.len(), 1);
    assert_eq!(session.store.products[0].name, "Laptop");
    session.step("4\n");
    assert_eq!(session.step("2\n"), Notice::InvalidPosition);
    assert_eq!(session.stage, Stage::Menu);
    assert_eq!(session.store.len(), 1);
    session.step("4\n");
    assert_eq!(session.step("0\n"), Notice::InvalidPosition);
    assert_eq!(session.store.len(), 1);
}

#[test]
fn the_menu_is_shown_at_the_start_of_each_round() {
    let mut session = Session::new(Store::new());
    assert!(session.shows_menu(&Notice::Nothing));
    let notice = session.step("one\n");
    assert_eq!(notice, Notice::InvalidInput);
    assert!(!session.shows_menu(&notice));
    let notice = session.step("9\n");
    assert_eq!(notice, Notice::InvalidChoice);
    assert!(session.shows_menu(&notice));
    let notice = session.step("2\n");
    assert_eq!(notice, Notice::Empty);
    assert!(session.shows_menu(&notice));
    let notice = session.step("1\n");
    assert!(!session.shows_menu(&notice));
    run(&mut session, &["Apple\n"]);
    let notice = session.step("cheap\n");
    assert!(!session.shows_menu(&notice));
    let notices = run(&mut session, &["1\n", "food\n", "3\n"]);
    assert_eq!(notices[2], Notice::Added);
    assert!(session.shows_menu(&notices[2]));
    let notice = session.step("5\n");
    assert!(!session.shows_menu(&notice));
}

#[test]
fn leaving_ends_the_session() {
    let mut session = stocked();
    assert_eq!(session.step("5\n"), Notice::Leaving);
    assert!(session.is_finished());
    assert_eq!(session.step("1\n"), Notice::Leaving);
    assert!(session.is_finished());
    assert_eq!(session.store.len(), 2);
}

#[test]
fn apple_and_laptop_at_the_console() {
    let mut session = Session::new(Store::new());
    run(&mut session, &["1\n", "Apple\n", "1.50\n", "food\n", "10\n"]);
    match session.step("2\n") {
        Notice::Table(lines) => {
            assert_eq!(lines.len(), 5);
            assert_eq!(
                lines[3],
                "1   | Apple           | Food         |       1.50 |    10 |        15.00"
            );
        }
        other => panic!("no table: {:?}", other),
    }
    run(&mut session, &["1\n", "Laptop\n", "999.99\n", "electronic\n", "2\n"]);
    session.step("4\n");
    assert_eq!(session.step("1\n"), Notice::Removed("Apple".to_string()));
    match session.step("2\n") {
        Notice::Table(lines) => {
            assert_eq!(lines.len(), 5);
            assert_eq!(
                lines[3],
                "1   | Laptop          | Electronic   |     999.99 |     2 |      1999.98"
            );
        }
        other => panic!("no table: {:?}", other),
    }
}
