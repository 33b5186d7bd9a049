//! Products on hand and the inventory that holds them in insertion order.
use vstd::prelude::*;

use crate::text::{inventory_row, inventory_row_text, text_eq};

verus! {

/// What a product is, as the contracts see it. Prices are in cents.
pub ghost struct ProductView {
    pub name: Seq<char>,
    pub description: Seq<char>,
    pub price: int,
    pub quantity: nat,
}

/// A negative price is corrected to zero.
pub open spec fn clamp_price(price: int) -> int {
    if price < 0 {
        0
    } else {
        price
    }
}

/// A stocked item. Its price (in cents) is never negative.
pub struct Product {
    name: String,
    description: String,
    price: i64,
    quantity: u32,
}

impl View for Product {
    type V = ProductView;

    closed spec fn view(&self) -> ProductView {
        ProductView {
            name: self.name@,
            description: self.description@,
            price: self.price as int,
            quantity: self.quantity as nat,
        }
    }
}

impl Product {
    #[verifier::type_invariant]
    spec fn price_not_negative(&self) -> bool {
        self.price >= 0
    }

    /// A product with the given fields; a negative price becomes zero.
    pub fn new(name: &str, description: &str, price: i64, quantity: u32) -> (r: Product)
        ensures
            r@ == (ProductView {
                name: name@,
                description: description@,
                price: clamp_price(price as int),
                quantity: quantity as nat,
            }),
    {
        let price = if price < 0 {
            0
        } else {
            price
        };
        Product {
            name: String::from_str(name),
            description: String::from_str(description),
            price,
            quantity,
        }
    }

    pub fn name(&self) -> (r: &str)
        ensures
            r@ == self@.name,
    {
        self.name.as_str()
    }

    pub fn description(&self) -> (r: &str)
        ensures
            r@ == self@.description,
    {
        self.description.as_str()
    }

    /// The unit price in cents.
    pub fn price(&self) -> (r: i64)
        ensures
            r == self@.price,
            r >= 0,
    {
        proof {
            use_type_invariant(self);
        }
        self.price
    }

    pub fn quantity(&self) -> (r: u32)
        ensures
            r == self@.quantity,
    {
        self.quantity
    }

    pub fn set_description(&mut self, description: &str)
        ensures
            final(self)@ == (ProductView { description: description@, ..old(self)@ }),
    {
        proof {
            use_type_invariant(&*self);
        }
        self.description = String::from_str(description);
    }

    /// Sets the price; a negative one is ignored.
    pub fn set_price(&mut self, price: i64)
        ensures
            final(self)@ == (if price >= 0 {
                ProductView { price: price as int, ..old(self)@ }
            } else {
                old(self)@
            }),
    {
        if price >= 0 {
            self.price = price;
        }
    }

    pub fn set_quantity(&mut self, quantity: u32)
        ensures
            final(self)@ == (ProductView { quantity: quantity as nat, ..old(self)@ }),
    {
        proof {
            use_type_invariant(&*self);
        }
        self.quantity = quantity;
    }

    /// Adds `qty` units; the stock must stay within `u32`.
    pub fn add_stock(&mut self, qty: u32)
        requires
            old(self)@.quantity + qty <= u32::MAX,
        ensures
            final(self)@ == (ProductView { quantity: (old(self)@.quantity + qty) as nat, ..old(self)@ }),
    {
        proof {
            use_type_invariant(&*self);
        }
        self.quantity = self.quantity + qty;
    }

    /// Takes `qty` units away, stopping at zero.
    pub fn remove_stock(&mut self, qty: u32)
        ensures
            final(self)@ == (ProductView {
                quantity: if old(self)@.quantity >= qty {
                    (old(self)@.quantity - qty) as nat
                } else {
                    0
                },
                ..old(self)@
            }),
    {
        proof {
            use_type_invariant(&*self);
        }
        if self.quantity >= qty {
            self.quantity = self.quantity - qty;
        } else {
            self.quantity = 0;
        }
    }
}

/// The index of the first product at or after `i` whose name is `name`.
pub open spec fn position_from(ps: Seq<ProductView>, name: Seq<char>, i: int) -> Option<int>
    decreases ps.len() - i,
{
    if i < 0 || i >= ps.len() {
        None
    } else if ps[i].name == name {
        Some(i)
    } else {
        position_from(ps, name, i + 1)
    }
}

/// The index of the first product named `name`, if there is one.
pub open spec fn position_of(ps: Seq<ProductView>, name: Seq<char>) -> Option<int> {
    position_from(ps, name, 0)
}

/// Where the search from `i` stops: at the first match, or nowhere.
pub proof fn lemma_position_from(ps: Seq<ProductView>, name: Seq<char>, i: int)
    requires
        0 <= i,
    ensures
        match position_from(ps, name, i) {
            Some(k) => i <= k < ps.len() && ps[k].name == name && forall|j: int|
                i <= j < k ==> ps[j].name != name,
            None => forall|j: int| i <= j < ps.len() ==> ps[j].name != name,
        },
    decreases ps.len() - i,
{
    if i < ps.len() && ps[i].name != name {
        lemma_position_from(ps, name, i + 1);
    }
}

/// The first match, or the absence of any, as plain quantified facts.
pub proof fn lemma_position_of(ps: Seq<ProductView>, name: Seq<char>)
    ensures
        match position_of(ps, name) {
            Some(k) => 0 <= k < ps.len() && ps[k].name == name && forall|j: int|
                0 <= j < k ==> ps[j].name != name,
            None => forall|j: int| 0 <= j < ps.len() ==> ps[j].name != name,
        },
{
    lemma_position_from(ps, name, 0);
}

/// A product with the given fields overwritten; a negative price becomes zero.
pub open spec fn edited(
    p: ProductView,
    name: Option<&str>,
    description: Option<&str>,
    price: Option<i64>,
    quantity: Option<u32>,
) -> ProductView {
    ProductView {
        name: match name {
            Some(n) => n@,
            None => p.name,
        },
        description: match description {
            Some(d) => d@,
            None => p.description,
        },
        price: match price {
            Some(x) => clamp_price(x as int),
            None => p.price,
        },
        quantity: match quantity {
            Some(q) => q as nat,
            None => p.quantity,
        },
    }
}

/// The store's products, in the order they were added. Names are looked up
/// by exact match; where two share a name, the first one is meant.
pub struct Inventory {
    products: Vec<Product>,
}

impl View for Inventory {
    type V = Seq<ProductView>;

    closed spec fn view(&self) -> Seq<ProductView> {
        self.products@.map_values(|p: Product| p@)
    }
}

impl Inventory {
    pub fn new() -> (r: Inventory)
        ensures
            r@ == Seq::<ProductView>::empty(),
    {
        let r = Inventory { products: Vec::new() };
        assert(r@ =~= Seq::<ProductView>::empty());
        r
    }

    /// Appends a product; a negative price becomes zero.
    pub fn add_product(&mut self, name: &str, description: &str, price: i64, quantity: u32)
        ensures
            final(self)@ == old(self)@.push(
                ProductView {
                    name: name@,
                    description: description@,
                    price: clamp_price(price as int),
                    quantity: quantity as nat,
                },
            ),
    {
        let p = Product::new(name, description, price, quantity);
        self.products.push(p);
        assert(self@ =~= old(self)@.push(p@));
    }

    /// The index of the first product named `name`.
    pub fn position(&self, name: &str) -> (r: Option<usize>)
        ensures
            match r {
                Some(i) => position_of(self@, name@) == Some(i as int),
                None => position_of(self@, name@) is None,
            },
    {
        let n = self.products.len();
        let mut i: usize = 0;
        while i < n
            invariant
                n == self@.len(),
                0 <= i <= n,
                position_from(self@, name@, i as int) == position_of(self@, name@),
            decreases n - i,
        {
            if text_eq(self.products[i].name(), name) {
                return Some(i);
            }
            i += 1;
        }
        None
    }

    /// Overwrites the given fields of the first product named `name`; does
    /// nothing when there is none.
    pub fn edit_product(
        &mut self,
        name: &str,
        new_name: Option<&str>,
        description: Option<&str>,
        price: Option<i64>,
        quantity: Option<u32>,
    )
        ensures
            final(self)@ == match position_of(old(self)@, name@) {
                Some(i) => old(self)@.update(
                    i,
                    edited(old(self)@[i], new_name, description, price, quantity),
                ),
                None => old(self)@,
            },
    {
        let pos = self.position(name);
        proof {
            lemma_position_of(self@, name@);
        }
        match pos {
            Some(i) => {
                let p = &mut self.products[i];
                proof {
                    use_type_invariant(&*p);
                }
                if let Some(n) = new_name {
                    p.name = String::from_str(n);
                }
                if let Some(d) = description {
                    p.description = String::from_str(d);
                }
                if let Some(x) = price {
                    p.price = if x < 0 {
                        0
                    } else {
                        x
                    };
                }
                if let Some(q) = quantity {
                    p.quantity = q;
                }
                assert(self@ =~= old(self)@.update(
                    i as int,
                    edited(old(self)@[i as int], new_name, description, price, quantity),
                ));
            },
            None => {},
        }
    }

    /// Removes the first product named `name`; does nothing when there is none.
    pub fn del_product(&mut self, name: &str)
        ensures
            final(self)@ == match position_of(old(self)@, name@) {
                Some(i) => old(self)@.remove(i),
                None => old(self)@,
            },
    {
        let pos = self.position(name);
        proof {
            lemma_position_of(self@, name@);
        }
        match pos {
            Some(i) => {
                self.products.remove(i);
                assert(self@ =~= old(self)@.remove(i as int));
            },
            None => {},
        }
    }

    /// The products, in order.
    pub fn all(&self) -> (r: &Vec<Product>)
        ensures
            r@.map_values(|p: Product| p@) == self@,
    {
        &self.products
    }

    /// The first product named `name`, to be changed in place.
    pub fn find_mut(&mut self, name: &str) -> (r: Option<&mut Product>)
        ensures
            match r {
                Some(p) => position_of(old(self)@, name@) matches Some(i) && (*p)@ == old(self)@[i]
                    && final(self)@ == old(self)@.update(i, (*final(p))@),
                None => position_of(old(self)@, name@) is None && final(self)@ == old(self)@,
            },
    {
        let pos = self.position(name);
        proof {
            lemma_position_of(self@, name@);
        }
        match pos {
            Some(i) => Some(&mut self.products[i]),
            None => None,
        }
    }
}

/// The heading of the inventory table.
pub const INVENTORY_HEADER: &'static str = "Name                 | Description              | Price   | Qty\n---------------------------------------------------------------\n";

/// One table row per product, in order.
pub open spec fn inventory_rows(ps: Seq<ProductView>) -> Seq<char>
    decreases ps.len(),
{
    if ps.len() == 0 {
        Seq::empty()
    } else {
        inventory_rows(ps.drop_last()) + inventory_row_text(
            ps.last().name,
            ps.last().description,
            ps.last().price / 100,
            ps.last().price % 100,
            ps.last().quantity as int,
        )
    }
}

/// The inventory table: the heading, then a row per product.
pub open spec fn inventory_report(ps: Seq<ProductView>) -> Seq<char> {
    INVENTORY_HEADER@ + inventory_rows(ps)
}

/// The inventory as a fixed-width table, prices with two decimals.
pub fn report_inventory(inv: &Inventory) -> (r: String)
    ensures
        r@ == inventory_report(inv@),
{
    let mut out = String::from_str(INVENTORY_HEADER);
    let products = inv.all();
    let n = products.len();
    let mut i: usize = 0;
    while i < n
        invariant
            n == inv@.len(),
            products@.map_values(|p: Product| p@) == inv@,
            0 <= i <= n,
            out@ == INVENTORY_HEADER@ + inventory_rows(inv@.take(i as int)),
        decreases n - i,
    {
        let p = &products[i];
        let price = p.price();
        let row = inventory_row(
            p.name(),
            p.description(),
            (price / 100) as u128,
            (price % 100) as u128,
            p.quantity(),
        );
        proof {
            assert(inv@.take(i + 1).drop_last() =~= inv@.take(i as int));
            assert(inv@[i as int] == p@);
        }
        out.append(row.as_str());
        assert(out@ =~= INVENTORY_HEADER@ + inventory_rows(inv@.take(i + 1)));
        i += 1;
    }
    assert(inv@.take(n as int) =~= inv@);
    out
}

/// Reading the inventory table twice, with no change in between, gives the
/// same text both times.
pub proof fn lemma_report_inventory_repeatable(inv: &Inventory, first: Seq<char>, second: Seq<char>)
    requires
        first == inventory_report(inv@),
        second == inventory_report(inv@),
    ensures
        first == second,
{
}

} // verus!
