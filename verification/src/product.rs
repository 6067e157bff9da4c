//! One inventory entry and the value it is worth.

use crate::category::Category;
use crate::price::Price;
use vstd::prelude::*;

verus! {

/// One inventory entry.
#[derive(Clone, Debug, PartialEq, Eq)]
pub struct Product {
    pub name: String,
    pub price: Price,
    pub category: Category,
    pub number_of_items: u32,
}

/// What a product is, with its name as a sequence of characters.
pub struct ProductView {
    pub name: Seq<char>,
    pub price: Price,
    pub category: Category,
    pub number_of_items: u32,
}

impl View for Product {
    type V = ProductView;

    open spec fn view(&self) -> ProductView {
        ProductView {
            name: self.name@,
            price: self.price,
            category: self.category,
            number_of_items: self.number_of_items,
        }
    }
}

/// The products of `s`, each by its view.
pub open spec fn views(s: Seq<Product>) -> Seq<ProductView> {
    s.map_values(|p: Product| p@)
}

impl ProductView {
    /// What the whole stock of the product is worth, in hundredths: the unit
    /// price times the number of items.
    pub open spec fn total_value(self) -> nat {
        (self.price.hundredths * self.number_of_items) as nat
    }
}

impl Product {
    /// What the whole stock of the product is worth, in hundredths.
    pub fn total_value(&self) -> (total: u128)
        ensures
            total == self@.total_value(),
            total == self.price.hundredths * self.number_of_items,
    {
        let unit: u128 = self.price.hundredths as u128;
        let count: u128 = self.number_of_items as u128;
        assert(unit * count <= 0xffff_ffff_ffff_ffff * 0xffff_ffff) by (nonlinear_arith)
            requires
                unit <= 0xffff_ffff_ffff_ffff,
                count <= 0xffff_ffff,
        ;
        unit * count
    }

    /// A second product with the same fields.
    pub fn duplicate(&self) -> (copy: Product)
        ensures
            copy == *self,
    {
        Product {
            name: self.name.clone(),
            price: self.price,
            category: self.category,
            number_of_items: self.number_of_items,
        }
    }
}

} // verus!
