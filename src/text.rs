//! Text helpers shared by the store's modules.
use vstd::prelude::*;

verus! {

/// Character-by-character comparison of two strings.
pub fn text_eq(a: &str, b: &str) -> (r: bool)
    ensures
        r == (a@ == b@),
{
    let n = a.unicode_len();
    if n != b.unicode_len() {
        return false;
    }
    let mut i: usize = 0;
    while i < n
        invariant
            n == a@.len(),
            n == b@.len(),
            0 <= i <= n,
            forall|j: int| 0 <= j < i ==> a@[j] == b@[j],
        decreases n - i,
    {
        if a.get_char(i) != b.get_char(i) {
            return false;
        }
        i += 1;
    }
    assert(a@ =~= b@);
    true
}

/// The text of one inventory table row: name, description, price as
/// whole units and hundredths, and quantity on hand.
pub uninterp spec fn inventory_row_text(
    name: Seq<char>,
    description: Seq<char>,
    units: int,
    hundredths: int,
    quantity: int,
) -> Seq<char>;

/// The text of one ledger table row: its number, the product's name, the
/// quantity, and the unit price and total as whole units and hundredths.
pub uninterp spec fn ledger_row_text(
    number: int,
    name: Seq<char>,
    quantity: int,
    unit_units: int,
    unit_hundredths: int,
    total_units: int,
    total_hundredths: int,
) -> Seq<char>;

/// Relies on std's `format!`: left-aligned name and description padded to
/// 20 and 24 columns, a right-aligned price with two decimals in 7 columns, a
/// right-aligned quantity in 3. The text depends on the arguments alone.
#[verifier::external_body]
pub(crate) fn inventory_row(
    name: &str,
    description: &str,
    units: u128,
    hundredths: u128,
    quantity: u32,
) -> (r: String)
    ensures
        r@ == inventory_row_text(name@, description@, units as int, hundredths as int, quantity as int),
{
    format!("{:<20} | {:<24} | {:>4}.{:02} | {:>3}\n", name, description, units, hundredths, quantity)
}

/// Relies on std's `format!`: the number left-aligned in 2 columns, the name
/// in 18, a right-aligned quantity in 3, and the unit price and total
/// right-aligned with two decimals in 6 columns each. The text depends on the
/// arguments alone.
#[verifier::external_body]
pub(crate) fn ledger_row(
    number: usize,
    name: &str,
    quantity: u32,
    unit_units: u128,
    unit_hundredths: u128,
    total_units: u128,
    total_hundredths: u128,
) -> (r: String)
    ensures
        r@ == ledger_row_text(
            number as int,
            name@,
            quantity as int,
            unit_units as int,
            unit_hundredths as int,
            total_units as int,
            total_hundredths as int,
        ),
{
    format!(
        "{:<2} | {:<18} | {:>3}  | {:>3}.{:02} | {:>3}.{:02}\n",
        number,
        name,
        quantity,
        unit_units,
        unit_hundredths,
        total_units,
        total_hundredths,
    )
}

} // verus!
