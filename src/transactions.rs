//! The sales and purchase ledgers, and the rules that record a transaction
//! against the inventory.
use vstd::prelude::*;

use crate::inventory::{lemma_position_of, position_of, Inventory, ProductView};
use crate::text::{ledger_row, ledger_row_text};

verus! {

/// Why a sale or purchase was turned down.
#[derive(Debug)]
pub enum StoreError {
    /// The quantity was zero or the unit price was not positive.
    InvalidInput(String),
    /// A sale asked for more units than are in stock.
    OutOfStock { product: String, requested: u32, available: u32 },
    /// No product has the given name.
    NotFound(String),
}

/// A ledger entry as the contracts see it. Money is in cents.
pub ghost struct EntryView {
    pub product_name: Seq<char>,
    pub quantity: nat,
    pub unit_price: int,
    pub total: nat,
}

/// The entry that records `quantity` units at `unit_price` each.
pub open spec fn entry(product_name: Seq<char>, quantity: u32, unit_price: i64) -> EntryView {
    EntryView {
        product_name,
        quantity: quantity as nat,
        unit_price: unit_price as int,
        total: (quantity * unit_price) as nat,
    }
}

/// A transaction request that is turned down before any lookup.
pub open spec fn is_invalid_request(quantity: u32, unit_price: i64) -> bool {
    quantity == 0 || unit_price <= 0
}

/// The sum of a sequence of amounts.
pub open spec fn sum(xs: Seq<int>) -> int
    decreases xs.len(),
{
    if xs.len() == 0 {
        0
    } else {
        sum(xs.drop_last()) + xs.last()
    }
}

/// The totals of a sequence of ledger entries.
pub open spec fn totals(es: Seq<EntryView>) -> Seq<int> {
    es.map_values(|e: EntryView| e.total as int)
}

/// Entry totals are never negative.
proof fn lemma_totals_not_negative(es: Seq<EntryView>)
    ensures
        forall|k: int| 0 <= k < es.len() ==> totals(es)[k] >= 0,
{
}

/// A prefix of amounts that are not negative sums to no more than the whole.
proof fn lemma_prefix_sum_le(xs: Seq<int>, i: int)
    requires
        0 <= i <= xs.len(),
        forall|k: int| 0 <= k < xs.len() ==> xs[k] >= 0,
    ensures
        sum(xs.take(i)) <= sum(xs),
    decreases xs.len(),
{
    if i < xs.len() {
        lemma_prefix_sum_le(xs.drop_last(), i);
        assert(xs.drop_last().take(i) =~= xs.take(i));
    } else {
        assert(xs.take(i) =~= xs);
    }
}

/// A completed sale. Its total is its quantity times its unit price.
pub struct Sale {
    product_name: String,
    quantity: u32,
    unit_price: i64,
    total_price: u128,
}

impl View for Sale {
    type V = EntryView;

    closed spec fn view(&self) -> EntryView {
        EntryView {
            product_name: self.product_name@,
            quantity: self.quantity as nat,
            unit_price: self.unit_price as int,
            total: self.total_price as nat,
        }
    }
}

impl Sale {
    #[verifier::type_invariant]
    spec fn total_matches(&self) -> bool {
        &&& self.quantity > 0
        &&& self.unit_price > 0
        &&& self.total_price == self.quantity * self.unit_price
    }

    pub fn product_name(&self) -> (r: &str)
        ensures
            r@ == self@.product_name,
    {
        self.product_name.as_str()
    }

    pub fn quantity(&self) -> (r: u32)
        ensures
            r == self@.quantity,
    {
        self.quantity
    }

    /// The unit price in cents.
    pub fn unit_price(&self) -> (r: i64)
        ensures
            r == self@.unit_price,
            r > 0,
    {
        proof {
            use_type_invariant(self);
        }
        self.unit_price
    }

    /// The total in cents.
    pub fn total_price(&self) -> (r: u128)
        ensures
            r == self@.total,
            r == self@.quantity * self@.unit_price,
    {
        proof {
            use_type_invariant(self);
        }
        self.total_price
    }
}

/// A completed supplier purchase. Its cost is its quantity times its unit price.
pub struct Purchase {
    product_name: String,
    quantity: u32,
    unit_price: i64,
    total_cost: u128,
}

impl View for Purchase {
    type V = EntryView;

    closed spec fn view(&self) -> EntryView {
        EntryView {
            product_name: self.product_name@,
            quantity: self.quantity as nat,
            unit_price: self.unit_price as int,
            total: self.total_cost as nat,
        }
    }
}

impl Purchase {
    #[verifier::type_invariant]
    spec fn total_matches(&self) -> bool {
        &&& self.quantity > 0
        &&& self.unit_price > 0
        &&& self.total_cost == self.quantity * self.unit_price
    }

    pub fn product_name(&self) -> (r: &str)
        ensures
            r@ == self@.product_name,
    {
        self.product_name.as_str()
    }

    pub fn quantity(&self) -> (r: u32)
        ensures
            r == self@.quantity,
    {
        self.quantity
    }

    /// The unit price in cents.
    pub fn unit_price(&self) -> (r: i64)
        ensures
            r == self@.unit_price,
            r > 0,
    {
        proof {
            use_type_invariant(self);
        }
        self.unit_price
    }

    /// The cost in cents.
    pub fn total_cost(&self) -> (r: u128)
        ensures
            r == self@.total,
            r == self@.quantity * self@.unit_price,
    {
        proof {
            use_type_invariant(self);
        }
        self.total_cost
    }
}

/// Both ledgers, oldest entry first.
pub ghost struct TransactionsView {
    pub sales: Seq<EntryView>,
    pub purchases: Seq<EntryView>,
}

/// The append-only sales and purchase ledgers.
pub struct Transactions {
    sales: Vec<Sale>,
    purchases: Vec<Purchase>,
}

impl View for Transactions {
    type V = TransactionsView;

    closed spec fn view(&self) -> TransactionsView {
        TransactionsView {
            sales: self.sales@.map_values(|s: Sale| s@),
            purchases: self.purchases@.map_values(|p: Purchase| p@),
        }
    }
}

/// The product as it stands after `delta` units were added to its stock.
pub open spec fn restocked(p: ProductView, delta: int) -> ProductView {
    ProductView { quantity: (p.quantity + delta) as nat, ..p }
}

impl Transactions {
    pub fn new() -> (r: Transactions)
        ensures
            r@.sales == Seq::<EntryView>::empty(),
            r@.purchases == Seq::<EntryView>::empty(),
    {
        let r = Transactions { sales: Vec::new(), purchases: Vec::new() };
        assert(r@.sales =~= Seq::<EntryView>::empty());
        assert(r@.purchases =~= Seq::<EntryView>::empty());
        r
    }

    /// Sells `quantity` units of the first product named `product_name` at
    /// `unit_price` cents each: takes them from stock and appends a sale.
    /// On any error neither the inventory nor the ledgers change.
    pub fn record_sale(
        &mut self,
        product_name: &str,
        quantity: u32,
        unit_price: i64,
        inv: &mut Inventory,
    ) -> (r: Result<&Sale, StoreError>)
        ensures
            if is_invalid_request(quantity, unit_price) {
                r matches Err(StoreError::InvalidInput(_))
            } else {
                match position_of(old(inv)@, product_name@) {
                    None => r matches Err(StoreError::NotFound(n)) && n@ == product_name@,
                    Some(i) => if old(inv)@[i].quantity < quantity {
                        r matches Err(StoreError::OutOfStock { product, requested, available })
                            && product@ == product_name@ && requested == quantity && available
                            == old(inv)@[i].quantity
                    } else {
                        r matches Ok(s) && s@ == entry(product_name@, quantity, unit_price)
                            && final(inv)@ == old(inv)@.update(
                            i,
                            restocked(old(inv)@[i], -quantity),
                        ) && final(self)@ == (TransactionsView {
                            sales: old(self)@.sales.push(entry(product_name@, quantity, unit_price)),
                            ..old(self)@
                        })
                    },
                }
            },
            r is Err ==> final(inv)@ == old(inv)@ && final(self)@ == old(self)@,
    {
        if quantity == 0 {
            return Err(StoreError::InvalidInput(String::from_str("Quantity must be > 0")));
        }
        if unit_price <= 0 {
            return Err(StoreError::InvalidInput(String::from_str("Unit price must be > 0")));
        }
        let found = inv.find_mut(product_name);
        match found {
            Some(p) => {
                let available = p.quantity();
                if available < quantity {
                    proof {
                        lemma_position_of(old(inv)@, product_name@);
                        if let Some(i) = position_of(old(inv)@, product_name@) {
                            assert(old(inv)@.update(i, old(inv)@[i]) =~= old(inv)@);
                        }
                    }
                    return Err(
                        StoreError::OutOfStock {
                            product: String::from_str(product_name),
                            requested: quantity,
                            available,
                        },
                    );
                }
                p.remove_stock(quantity);
                assert(quantity as u128 * unit_price as u128 <= u128::MAX) by (nonlinear_arith)
                    requires
                        quantity <= u32::MAX,
                        0 < unit_price <= i64::MAX,
                ;
                let total_price = quantity as u128 * unit_price as u128;
                let sale = Sale {
                    product_name: String::from_str(product_name),
                    quantity,
                    unit_price,
                    total_price,
                };
                self.sales.push(sale);
                assert(self@.sales =~= old(self)@.sales.push(entry(product_name@, quantity, unit_price)));
                let last = self.sales.len() - 1;
                Ok(&self.sales[last])
            },
            None => Err(StoreError::NotFound(String::from_str(product_name))),
        }
    }

    /// Buys `quantity` units of the first product named `product_name` from a
    /// supplier at `unit_price` cents each: adds them to stock and appends a
    /// purchase. An unknown product is not created. On any error neither the
    /// inventory nor the ledgers change.
    pub fn record_purchase(
        &mut self,
        product_name: &str,
        quantity: u32,
        unit_price: i64,
        inv: &mut Inventory,
    ) -> (r: Result<&Purchase, StoreError>)
        requires
            position_of(old(inv)@, product_name@) matches Some(i) ==> old(inv)@[i].quantity
                + quantity <= u32::MAX,
        ensures
            if is_invalid_request(quantity, unit_price) {
                r matches Err(StoreError::InvalidInput(_))
            } else {
                match position_of(old(inv)@, product_name@) {
                    None => r matches Err(StoreError::NotFound(n)) && n@ == product_name@,
                    Some(i) => r matches Ok(p) && p@ == entry(product_name@, quantity, unit_price)
                        && final(inv)@ == old(inv)@.update(i, restocked(old(inv)@[i], quantity as int))
                        && final(self)@ == (TransactionsView {
                        purchases: old(self)@.purchases.push(
                            entry(product_name@, quantity, unit_price),
                        ),
                        ..old(self)@
                    }),
                }
            },
            r is Err ==> final(inv)@ == old(inv)@ && final(self)@ == old(self)@,
    {
        if quantity == 0 {
            return Err(StoreError::InvalidInput(String::from_str("Quantity must be > 0")));
        }
        if unit_price <= 0 {
            return Err(StoreError::InvalidInput(String::from_str("Unit price must be > 0")));
        }
        let found = inv.find_mut(product_name);
        match found {
            Some(p) => {
                p.add_stock(quantity);
                assert(quantity as u128 * unit_price as u128 <= u128::MAX) by (nonlinear_arith)
                    requires
                        quantity <= u32::MAX,
                        0 < unit_price <= i64::MAX,
                ;
                let total_cost = quantity as u128 * unit_price as u128;
                let purchase = Purchase {
                    product_name: String::from_str(product_name),
                    quantity,
                    unit_price,
                    total_cost,
                };
                self.purchases.push(purchase);
                assert(self@.purchases =~= old(self)@.purchases.push(
                    entry(product_name@, quantity, unit_price),
                ));
                let last = self.purchases.len() - 1;
                Ok(&self.purchases[last])
            },
            None => Err(StoreError::NotFound(String::from_str(product_name))),
        }
    }

    /// The sales, oldest first.
    pub fn get_sales(&self) -> (r: &Vec<Sale>)
        ensures
            r@.map_values(|s: Sale| s@) == self@.sales,
    {
        &self.sales
    }

    /// The purchases, oldest first.
    pub fn get_purchases(&self) -> (r: &[Purchase])
        ensures
            r@.map_values(|p: Purchase| p@) == self@.purchases,
    {
        self.purchases.as_slice()
    }

    /// The sum of all sale totals, in cents. The sum must fit in `u128`.
    pub fn total_revenue(&self) -> (r: u128)
        requires
            sum(totals(self@.sales)) <= u128::MAX,
        ensures
            r == sum(totals(self@.sales)),
    {
        let n = self.sales.len();
        let mut acc: u128 = 0;
        let mut i: usize = 0;
        proof {
            lemma_totals_not_negative(self@.sales);
        }
        while i < n
            invariant
                n == self@.sales.len(),
                0 <= i <= n,
                sum(totals(self@.sales)) <= u128::MAX,
                forall|k: int| 0 <= k < n ==> totals(self@.sales)[k] >= 0,
                acc == sum(totals(self@.sales).take(i as int)),
            decreases n - i,
        {
            let t = self.sales[i].total_price();
            proof {
                let xs = totals(self@.sales);
                assert(xs.take(i + 1).drop_last() =~= xs.take(i as int));
                lemma_prefix_sum_le(xs, i + 1);
            }
            acc = acc + t;
            i += 1;
        }
        assert(totals(self@.sales).take(n as int) =~= totals(self@.sales));
        acc
    }

    /// The sum of all purchase totals, in cents. The sum must fit in `u128`.
    pub fn total_purchase_cost(&self) -> (r: u128)
        requires
            sum(totals(self@.purchases)) <= u128::MAX,
        ensures
            r == sum(totals(self@.purchases)),
    {
        let n = self.purchases.len();
        let mut acc: u128 = 0;
        let mut i: usize = 0;
        proof {
            lemma_totals_not_negative(self@.purchases);
        }
        while i < n
            invariant
                n == self@.purchases.len(),
                0 <= i <= n,
                sum(totals(self@.purchases)) <= u128::MAX,
                forall|k: int| 0 <= k < n ==> totals(self@.purchases)[k] >= 0,
                acc == sum(totals(self@.purchases).take(i as int)),
            decreases n - i,
        {
            let t = self.purchases[i].total_cost();
            proof {
                let xs = totals(self@.purchases);
                assert(xs.take(i + 1).drop_last() =~= xs.take(i as int));
                lemma_prefix_sum_le(xs, i + 1);
            }
            acc = acc + t;
            i += 1;
        }
        assert(totals(self@.purchases).take(n as int) =~= totals(self@.purchases));
        acc
    }
}

/// The heading of the sales and purchase tables.
pub const LEDGER_HEADER: &'static str = "No | Product            | Qty  | Unit   | Total\n-----------------------------------------------\n";

/// One table row per entry, numbered from 1.
pub open spec fn ledger_rows(es: Seq<EntryView>) -> Seq<char>
    decreases es.len(),
{
    if es.len() == 0 {
        Seq::empty()
    } else {
        ledger_rows(es.drop_last()) + ledger_row_text(
            es.len() as int,
            es.last().product_name,
            es.last().quantity as int,
            es.last().unit_price / 100,
            es.last().unit_price % 100,
            es.last().total as int / 100,
            es.last().total as int % 100,
        )
    }
}

/// A ledger table: the heading, then a row per entry.
pub open spec fn ledger_report(es: Seq<EntryView>) -> Seq<char> {
    LEDGER_HEADER@ + ledger_rows(es)
}

/// The sales as a fixed-width table, money with two decimals.
pub fn report_sales(tx: &Transactions) -> (r: String)
    ensures
        r@ == ledger_report(tx@.sales),
{
    let mut out = String::from_str(LEDGER_HEADER);
    let sales = tx.get_sales();
    let n = sales.len();
    let mut i: usize = 0;
    while i < n
        invariant
            n == tx@.sales.len(),
            sales@.map_values(|s: Sale| s@) == tx@.sales,
            0 <= i <= n,
            out@ == LEDGER_HEADER@ + ledger_rows(tx@.sales.take(i as int)),
        decreases n - i,
    {
        let s = &sales[i];
        let unit = s.unit_price() as u128;
        let total = s.total_price();
        let row = ledger_row(i + 1, s.product_name(), s.quantity(), unit / 100, unit % 100, total / 100, total % 100);
        proof {
            assert(tx@.sales.take(i + 1).drop_last() =~= tx@.sales.take(i as int));
            assert(tx@.sales[i as int] == s@);
        }
        out.append(row.as_str());
        assert(out@ =~= LEDGER_HEADER@ + ledger_rows(tx@.sales.take(i + 1)));
        i += 1;
    }
    assert(tx@.sales.take(n as int) =~= tx@.sales);
    out
}

/// The purchases as a fixed-width table, money with two decimals.
pub fn report_purchases(tx: &Transactions) -> (r: String)
    ensures
        r@ == ledger_report(tx@.purchases),
{
    let mut out = String::from_str(LEDGER_HEADER);
    let purchases = tx.get_purchases();
    let n = purchases.len();
    let mut i: usize = 0;
    while i < n
        invariant
            n == tx@.purchases.len(),
            purchases@.map_values(|p: Purchase| p@) == tx@.purchases,
            0 <= i <= n,
            out@ == LEDGER_HEADER@ + ledger_rows(tx@.purchases.take(i as int)),
        decreases n - i,
    {
        let p = &purchases[i];
        let unit = p.unit_price() as u128;
        let total = p.total_cost();
        let row = ledger_row(i + 1, p.product_name(), p.quantity(), unit / 100, unit % 100, total / 100, total % 100);
        proof {
            assert(tx@.purchases.take(i + 1).drop_last() =~= tx@.purchases.take(i as int));
            assert(tx@.purchases[i as int] == p@);
        }
        out.append(row.as_str());
        assert(out@ =~= LEDGER_HEADER@ + ledger_rows(tx@.purchases.take(i + 1)));
        i += 1;
    }
    assert(tx@.purchases.take(n as int) =~= tx@.purchases);
    out
}

/// Reading a ledger table (of sales or of purchases) twice, with no change to
/// the ledger in between, gives the same text both times.
pub proof fn lemma_report_ledger_repeatable(ledger: Seq<EntryView>, first: Seq<char>, second: Seq<char>)
    requires
        first == ledger_report(ledger),
        second == ledger_report(ledger),
    ensures
        first == second,
{
}

/// Appending an entry to a ledger raises the ledger's sum by the entry's total.
pub proof fn lemma_sum_after_entry(ledger: Seq<EntryView>, e: EntryView)
    ensures
        sum(totals(ledger.push(e))) == sum(totals(ledger)) + e.total,
{
    assert(totals(ledger.push(e)).drop_last() =~= totals(ledger));
}

} // verus!
