//! The dialogue at the console as a state machine: the session is given one
//! line of input at a time and says what to show and what to ask next.
//! Reading and printing the lines is left to the caller.

use crate::category::Category;
use crate::decimal::unsigned_in;
use crate::input::{read_number, read_position, read_price, read_quantity, read_text, signed_in};
use crate::price::{price_of_text, Price};
use crate::product::{views, ProductView};
use crate::store::{after_add, after_delete, matching, Store};
use crate::table::{full_table, lines_view, render_results, render_table, result_table};
use crate::text::trimmed;
use vstd::prelude::*;

verus! {

/// What the session waits for.
#[derive(Clone, Copy, Debug, PartialEq, Eq, Structural)]
pub enum Stage {
    /// A choice from the menu.
    Menu,
    /// The name of the product to add.
    Name,
    /// Its price.
    Price,
    /// Its category.
    Category,
    /// Its number of items.
    Quantity,
    /// The text to search for.
    Query,
    /// The position of the entry to delete.
    Position,
    /// Nothing more: the store is to be saved and the program left.
    Finished,
}

/// What the session has to say after a line of input.
#[derive(Clone, Debug, PartialEq, Eq)]
pub enum Notice {
    /// Nothing: the next question follows.
    Nothing,
    /// The line is no number of the kind asked for; the question is asked
    /// again.
    InvalidInput,
    /// The number chosen is not on the menu.
    InvalidChoice,
    /// The product was added.
    Added,
    /// The category is not known; no product was added.
    InvalidCategory,
    /// There is nothing in the store to show or search.
    Empty,
    /// There is nothing in the store to delete.
    NothingToDelete,
    /// The lines of the full table.
    Table(Vec<String>),
    /// No product answers the query given.
    NoResults(String),
    /// The query and the lines of the table of the products that answer it.
    Results(String, Vec<String>),
    /// The product of this name was removed.
    Removed(String),
    /// No entry stands at the position given.
    InvalidPosition,
    /// The session is over.
    Leaving,
}

/// A notice, with its texts as sequences of characters.
pub enum NoticeView {
    Nothing,
    InvalidInput,
    InvalidChoice,
    Added,
    InvalidCategory,
    Empty,
    NothingToDelete,
    Table(Seq<Seq<char>>),
    NoResults(Seq<char>),
    Results(Seq<char>, Seq<Seq<char>>),
    Removed(Seq<char>),
    InvalidPosition,
    Leaving,
}

impl View for Notice {
    type V = NoticeView;

    open spec fn view(&self) -> NoticeView {
        match *self {
            Notice::Nothing => NoticeView::Nothing,
            Notice::InvalidInput => NoticeView::InvalidInput,
            Notice::InvalidChoice => NoticeView::InvalidChoice,
            Notice::Added => NoticeView::Added,
            Notice::InvalidCategory => NoticeView::InvalidCategory,
            Notice::Empty => NoticeView::Empty,
            Notice::NothingToDelete => NoticeView::NothingToDelete,
            Notice::Table(lines) => NoticeView::Table(lines_view(lines@)),
            Notice::NoResults(query) => NoticeView::NoResults(query@),
            Notice::Results(query, lines) => NoticeView::Results(query@, lines_view(lines@)),
            Notice::Removed(name) => NoticeView::Removed(name@),
            Notice::InvalidPosition => NoticeView::InvalidPosition,
            Notice::Leaving => NoticeView::Leaving,
        }
    }
}

/// A dialogue about one store. While a product is being added, the session
/// keeps the answers given so far.
#[derive(Clone, Debug, PartialEq, Eq)]
pub struct Session {
    pub store: Store,
    pub stage: Stage,
    pub name: String,
    pub price: Price,
    pub category_text: String,
}

/// A session, with its texts as sequences of characters.
pub struct SessionView {
    pub store: Seq<ProductView>,
    pub stage: Stage,
    pub name: Seq<char>,
    pub price: Price,
    pub category_text: Seq<char>,
}

impl View for Session {
    type V = SessionView;

    open spec fn view(&self) -> SessionView {
        SessionView {
            store: self.store@,
            stage: self.stage,
            name: self.name@,
            price: self.price,
            category_text: self.category_text@,
        }
    }
}

impl SessionView {
    /// The same session at another stage.
    pub open spec fn at(self, stage: Stage) -> SessionView {
        SessionView { stage, ..self }
    }

    /// What a choice from the menu leads to.
    pub open spec fn after_choice(self, choice: Option<int>) -> (SessionView, NoticeView) {
        match choice {
            None => (self, NoticeView::InvalidInput),
            Some(n) => if n == 1 {
                (self.at(Stage::Name), NoticeView::Nothing)
            } else if n == 2 {
                if self.store.len() == 0 {
                    (self, NoticeView::Empty)
                } else {
                    (self, NoticeView::Table(full_table(self.store)))
                }
            } else if n == 3 {
                if self.store.len() == 0 {
                    (self, NoticeView::Empty)
                } else {
                    (self.at(Stage::Query), NoticeView::Nothing)
                }
            } else if n == 4 {
                if self.store.len() == 0 {
                    (self, NoticeView::NothingToDelete)
                } else {
                    (self.at(Stage::Position), NoticeView::Table(full_table(self.store)))
                }
            } else if n == 5 {
                (self.at(Stage::Finished), NoticeView::Leaving)
            } else {
                (self, NoticeView::InvalidChoice)
            },
        }
    }

    /// What the number of items, the last answer about a new product, leads
    /// to: the product is added if its category is known.
    pub open spec fn after_quantity(self, quantity: Option<nat>) -> (SessionView, NoticeView) {
        match quantity {
            None => (self, NoticeView::InvalidInput),
            Some(n) => (
                SessionView {
                    store: after_add(
                        self.store,
                        self.name,
                        self.price,
                        self.category_text,
                        n as u32,
                    ),
                    stage: Stage::Menu,
                    ..self
                },
                if Category::named_by(self.category_text) is Some {
                    NoticeView::Added
                } else {
                    NoticeView::InvalidCategory
                },
            ),
        }
    }

    /// What a search for `query` leads to.
    pub open spec fn after_query(self, query: Seq<char>) -> (SessionView, NoticeView) {
        let found = matching(self.store, query);
        (
            self.at(Stage::Menu),
            if found.len() == 0 {
                NoticeView::NoResults(query)
            } else {
                NoticeView::Results(query, result_table(found))
            },
        )
    }

    /// What the position of the entry to delete leads to.
    pub open spec fn after_position(self, position: Option<nat>) -> (SessionView, NoticeView) {
        match position {
            None => (self, NoticeView::InvalidInput),
            Some(p) => (
                SessionView { store: after_delete(self.store, p as int), stage: Stage::Menu, ..self },
                if 1 <= p <= self.store.len() {
                    NoticeView::Removed(self.store[p - 1].name)
                } else {
                    NoticeView::InvalidPosition
                },
            ),
        }
    }

    /// The session after a line of input, and what it has to say.
    pub open spec fn after(self, line: Seq<char>) -> (SessionView, NoticeView) {
        let text = trimmed(line);
        match self.stage {
            Stage::Menu => self.after_choice(signed_in(text)),
            Stage::Name => (SessionView { stage: Stage::Price, name: text, ..self }, NoticeView::Nothing),
            Stage::Price => match price_of_text(text) {
                None => (self, NoticeView::InvalidInput),
                Some(h) => (
                    SessionView {
                        stage: Stage::Category,
                        price: Price { hundredths: h as u64 },
                        ..self
                    },
                    NoticeView::Nothing,
                ),
            },
            Stage::Category => (
                SessionView { stage: Stage::Quantity, category_text: text, ..self },
                NoticeView::Nothing,
            ),
            Stage::Quantity => self.after_quantity(unsigned_in(text, u32::MAX as nat)),
            Stage::Query => self.after_query(text),
            Stage::Position => self.after_position(unsigned_in(text, usize::MAX as nat)),
            Stage::Finished => (self, NoticeView::Leaving),
        }
    }
}

impl Session {
    /// A session about `store`, at the menu.
    pub fn new(store: Store) -> (session: Session)
        ensures
            session.store == store,
            session.stage == Stage::Menu,
            session.name@.len() == 0,
            session.category_text@.len() == 0,
            session.price.hundredths == 0,
    {
        Session {
            store,
            stage: Stage::Menu,
            name: String::new(),
            price: Price { hundredths: 0 },
            category_text: String::new(),
        }
    }

    /// Whether the menu is to be shown before the next question: at the
    /// menu's stage, unless the question is only asked again after a line
    /// that was no number.
    pub fn shows_menu(&self, last: &Notice) -> (r: bool)
        ensures
            r == (self.stage == Stage::Menu && last@ != NoticeView::InvalidInput),
    {
        match self.stage {
            Stage::Menu => match last {
                Notice::InvalidInput => false,
                _ => true,
            },
            _ => false,
        }
    }

    /// Whether the session is over.
    pub fn is_finished(&self) -> (r: bool)
        ensures
            r == (self.stage == Stage::Finished),
    {
        match self.stage {
            Stage::Finished => true,
            _ => false,
        }
    }

    fn take_choice(&mut self, choice: Option<i32>) -> (notice: Notice)
        ensures
            (final(self)@, notice@) == old(self)@.after_choice(
                match choice {
                    Some(n) => Some(n as int),
                    None => None,
                },
            ),
    {
        match choice {
            None => Notice::InvalidInput,
            Some(n) => {
                if n == 1 {
                    self.stage = Stage::Name;
                    Notice::Nothing
                } else if n == 2 {
                    if self.store.is_empty() {
                        Notice::Empty
                    } else {
                        Notice::Table(render_table(&self.store))
                    }
                } else if n == 3 {
                    if self.store.is_empty() {
                        Notice::Empty
                    } else {
                        self.stage = Stage::Query;
                        Notice::Nothing
                    }
                } else if n == 4 {
                    if self.store.is_empty() {
                        Notice::NothingToDelete
                    } else {
                        self.stage = Stage::Position;
                        Notice::Table(render_table(&self.store))
                    }
                } else if n == 5 {
                    self.stage = Stage::Finished;
                    Notice::Leaving
                } else {
                    Notice::InvalidChoice
                }
            },
        }
    }

    fn finish_addition(&mut self, quantity: Option<u32>) -> (notice: Notice)
        ensures
            (final(self)@, notice@) == old(self)@.after_quantity(
                match quantity {
                    Some(n) => Some(n as nat),
                    None => None,
                },
            ),
    {
        match quantity {
            None => Notice::InvalidInput,
            Some(n) => {
                self.stage = Stage::Menu;
                let added = self.store.add(
                    self.name.clone(),
                    self.price,
                    self.category_text.as_str(),
                    n,
                );
                match added {
                    Ok(()) => Notice::Added,
                    Err(_) => Notice::InvalidCategory,
                }
            },
        }
    }

    fn answer_query(&mut self, query: String) -> (notice: Notice)
        ensures
            (final(self)@, notice@) == old(self)@.after_query(query@),
    {
        self.stage = Stage::Menu;
        let found = self.store.search(query.as_str());
        assert(views(found@).len() == found@.len());
        if found.len() == 0 {
            Notice::NoResults(query)
        } else {
            Notice::Results(query, render_results(&found))
        }
    }

    fn delete(&mut self, position: Option<usize>) -> (notice: Notice)
        ensures
            (final(self)@, notice@) == old(self)@.after_position(
                match position {
                    Some(p) => Some(p as nat),
                    None => None,
                },
            ),
    {
        match position {
            None => Notice::InvalidInput,
            Some(p) => {
                self.stage = Stage::Menu;
                match self.store.delete_at(p) {
                    Ok(name) => Notice::Removed(name),
                    Err(_) => Notice::InvalidPosition,
                }
            },
        }
    }

    /// Takes one line of input: the session moves on, and the notice says
    /// what is to be shown before the next question.
    pub fn step(&mut self, line: &str) -> (notice: Notice)
        ensures
            (final(self)@, notice@) == old(self)@.after(line@),
    {
        match self.stage {
            Stage::Menu => {
                let choice = read_number(line);
                self.take_choice(choice)
            },
            Stage::Name => {
                self.name = read_text(line);
                self.stage = Stage::Price;
                Notice::Nothing
            },
            Stage::Price => match read_price(line) {
                None => Notice::InvalidInput,
                Some(price) => {
                    self.price = price;
                    self.stage = Stage::Category;
                    Notice::Nothing
                },
            },
            Stage::Category => {
                self.category_text = read_text(line);
                self.stage = Stage::Quantity;
                Notice::Nothing
            },
            Stage::Quantity => {
                let quantity = read_quantity(line);
                self.finish_addition(quantity)
            },
            Stage::Query => {
                let query = read_text(line);
                self.answer_query(query)
            },
            Stage::Position => {
                let position = read_position(line);
                self.delete(position)
            },
            Stage::Finished => Notice::Leaving,
        }
    }
}

} // verus!
