//! The closed set of product categories, with the label each is stored
//! under and the keyword each is entered by.

use crate::text::{lowercase, spells, to_chars};
use vstd::prelude::*;

verus! {

/// What kind of goods a product is.
#[derive(Clone, Copy, Debug, PartialEq, Eq, Structural)]
pub enum Category {
    Food,
    Electronic,
    Clothing,
}

impl Category {
    /// The label under which the category is stored and displayed.
    pub open spec fn label_text(self) -> Seq<char> {
        match self {
            Category::Food => "Food"@,
            Category::Electronic => "Electronic"@,
            Category::Clothing => "Clothing"@,
        }
    }

    /// The category that `s` is the label of, letter for letter.
    pub open spec fn with_label(s: Seq<char>) -> Option<Category> {
        if s == "Food"@ {
            Some(Category::Food)
        } else if s == "Electronic"@ {
            Some(Category::Electronic)
        } else if s == "Clothing"@ {
            Some(Category::Clothing)
        } else {
            None
        }
    }

    /// The category that the lowercase text `s` names.
    pub open spec fn with_keyword(s: Seq<char>) -> Option<Category> {
        if s == "food"@ {
            Some(Category::Food)
        } else if s == "electronic"@ {
            Some(Category::Electronic)
        } else if s == "clothing"@ {
            Some(Category::Clothing)
        } else {
            None
        }
    }

    /// The category that `s` names when letter case is ignored.
    pub open spec fn named_by(s: Seq<char>) -> Option<Category> {
        Self::with_keyword(lowercase(s))
    }

    /// Every category is found again by its label.
    pub proof fn lemma_label_round_trip(self)
        ensures
            Self::with_label(self.label_text()) == Some(self),
    {
        reveal_strlit("Food");
        reveal_strlit("Electronic");
        reveal_strlit("Clothing");
        assert("Food"@.len() == 4);
        assert("Electronic"@.len() == 10);
        assert("Clothing"@.len() == 8);
    }

    pub fn label(&self) -> (out: String)
        ensures
            out@ == self.label_text(),
    {
        match self {
            Category::Food => "Food".to_owned(),
            Category::Electronic => "Electronic".to_owned(),
            Category::Clothing => "Clothing".to_owned(),
        }
    }

    /// Reads a stored label: an exact match, or nothing.
    pub fn from_label(text: &str) -> (r: Option<Category>)
        ensures
            r == Self::with_label(text@),
    {
        let chars = to_chars(text);
        if spells(&chars, "Food") {
            Some(Category::Food)
        } else if spells(&chars, "Electronic") {
            Some(Category::Electronic)
        } else if spells(&chars, "Clothing") {
            Some(Category::Clothing)
        } else {
            None
        }
    }

    /// Reads text that is already in lowercase.
    pub fn from_keyword(text: &str) -> (r: Option<Category>)
        ensures
            r == Self::with_keyword(text@),
    {
        let chars = to_chars(text);
        if spells(&chars, "food") {
            Some(Category::Food)
        } else if spells(&chars, "electronic") {
            Some(Category::Electronic)
        } else if spells(&chars, "clothing") {
            Some(Category::Clothing)
        } else {
            None
        }
    }

    /// Reads a category name as a user types it, ignoring letter case.
    pub fn parse(text: &str) -> (r: Option<Category>)
        ensures
            r == Self::named_by(text@),
    {
        let lowered = text.to_lowercase();
        Self::from_keyword(lowered.as_str())
    }
}

} // verus!
