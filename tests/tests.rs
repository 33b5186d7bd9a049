use store_inventory_management_system::{
    report_inventory, report_purchases, report_sales, Inventory, Product, StoreError,
    Transactions,
};

//
// Inventory
//
#[test]
fn add_product_increases_inventory() {
    let mut inv = Inventory::new();
    inv.add_product("Cola", "Sweet drink", 1000, 50);
    assert_eq!(inv.all().len(), 1);
}

#[test]
fn add_multiple_products() {
    let mut inv = Inventory::new();
    inv.add_product("Cola", "Sweet drink", 1000, 50);
    inv.add_product("Sprite", "Lemon drink", 800, 20);
    assert_eq!(inv.all().len(), 2);
}

#[test]
fn edit_product_changes_fields_correctly() {
    let mut inv = Inventory::new();
    inv.add_product("Cola", "Sweet drink", 1000, 50);
    inv.edit_product("Cola", Some("ColaZero"), Some("No sugar"), Some(1250), None);

    let p = inv.all().iter().find(|p| p.name() == "ColaZero").unwrap();
    assert_eq!(p.description(), "No sugar");
    assert_eq!(p.price(), 1250);
}

#[test]
fn edit_nonexistent_product_does_nothing() {
    let mut inv = Inventory::new();
    inv.add_product("Cola", "Sweet drink", 1000, 50);
    inv.edit_product("Fanta", Some("FantaZero"), None, None, None);
    assert!(inv.all().iter().all(|p| p.name() != "FantaZero"));
}

#[test]
fn delete_product_removes_by_name() {
    let mut inv = Inventory::new();
    inv.add_product("Sprite", "Lemon drink", 800, 20);
    inv.del_product("Sprite");
    assert!(inv.all().is_empty());
}

#[test]
fn delete_nonexistent_product_does_nothing() {
    let mut inv = Inventory::new();
    inv.add_product("Sprite", "Lemon drink", 800, 20);
    inv.del_product("Fanta");
    assert_eq!(inv.all().len(), 1);
}

#[test]
fn add_product_with_zero_quantity() {
    let mut inv = Inventory::new();
    inv.add_product("Empty", "Zero stock", 500, 0);
    assert_eq!(inv.all()[0].quantity(), 0);
}

#[test]
fn add_product_with_zero_price() {
    let mut inv = Inventory::new();
    inv.add_product("Freebie", "Promotional", 0, 10);
    assert_eq!(inv.all()[0].price(), 0);
}

//
// Sales
//
#[test]
fn record_sale_reduces_quantity_and_adds_transaction() {
    let mut inv = Inventory::new();
    inv.add_product("Pepsi", "Soda", 950, 10);
    let mut tx = Transactions::new();

    let _ = tx.record_sale("Pepsi", 2, 950, &mut inv);
    assert_eq!(inv.all()[0].quantity(), 8);
    assert_eq!(tx.get_sales().len(), 1);
    assert_eq!(tx.total_revenue(), 1900);
}

#[test]
fn record_sale_out_of_stock_should_not_add_transaction() {
    let mut inv = Inventory::new();
    inv.add_product("Juice", "Orange", 500, 1);
    let mut tx = Transactions::new();

    let _ = tx.record_sale("Juice", 5, 500, &mut inv);
    assert!(tx.get_sales().is_empty());
    assert_eq!(inv.all()[0].quantity(), 1);
}

#[test]
fn record_sale_nonexistent_product_does_nothing() {
    let mut inv = Inventory::new();
    inv.add_product("Water", "Still", 300, 10);
    let mut tx = Transactions::new();

    let _ = tx.record_sale("Beer", 2, 300, &mut inv);
    assert!(tx.get_sales().is_empty());
}

//
// Purchases
//
#[test]
fn record_purchase_increases_quantity_and_adds_transaction() {
    let mut inv = Inventory::new();
    inv.add_product("Fanta", "Orange soda", 700, 5);
    let mut tx = Transactions::new();

    let _ = tx.record_purchase("Fanta", 10, 650, &mut inv);
    assert_eq!(inv.all()[0].quantity(), 15);
    assert_eq!(tx.get_purchases().len(), 1);
    assert_eq!(tx.total_purchase_cost(), 6500);
}

#[test]
fn record_purchase_nonexistent_product_does_nothing() {
    let mut inv = Inventory::new();
    let mut tx = Transactions::new();

    let _ = tx.record_purchase("NonExistent", 10, 500, &mut inv);
    assert!(tx.get_purchases().is_empty());
}

//
// Reports
//
#[test]
fn report_inventory_runs_without_panic() {
    let mut inv = Inventory::new();
    inv.add_product("Milk", "Dairy", 200, 5);
    let _ = report_inventory(&inv);
}

//
// Scenarios and edge cases
//
#[test]
fn sale_of_cola_scenario() {
    let mut inv = Inventory::new();
    inv.add_product("Cola", "330ml can", 1000, 12);
    let mut tx = Transactions::new();
    let sale = tx.record_sale("Cola", 3, 1200, &mut inv).unwrap();
    assert_eq!(sale.product_name(), "Cola");
    assert_eq!(sale.quantity(), 3);
    assert_eq!(sale.unit_price(), 1200);
    assert_eq!(sale.total_price(), 3600);
    assert_eq!(inv.all()[0].quantity(), 9);
    assert_eq!(tx.total_revenue(), 3600);
}

#[test]
fn purchase_of_chips_scenario() {
    let mut inv = Inventory::new();
    inv.add_product("Chips", "Salted", 750, 5);
    let mut tx = Transactions::new();
    let p = tx.record_purchase("Chips", 10, 500, &mut inv).unwrap();
    assert_eq!(p.product_name(), "Chips");
    assert_eq!(p.quantity(), 10);
    assert_eq!(p.unit_price(), 500);
    assert_eq!(p.total_cost(), 5000);
    assert_eq!(inv.all()[0].quantity(), 15);
    assert_eq!(tx.total_purchase_cost(), 5000);
}

#[test]
fn sale_of_eggs_out_of_stock_scenario() {
    let mut inv = Inventory::new();
    inv.add_product("Eggs", "Dozen", 300, 2);
    let mut tx = Transactions::new();
    match tx.record_sale("Eggs", 5, 7000, &mut inv) {
        Err(StoreError::OutOfStock { product, requested, available }) => {
            assert_eq!(product, "Eggs");
            assert_eq!(requested, 5);
            assert_eq!(available, 2);
        }
        other => panic!("unexpected result: {:?}", other.map(|s| s.quantity())),
    }
    assert_eq!(inv.all()[0].quantity(), 2);
    assert!(tx.get_sales().is_empty());
    assert_eq!(tx.total_revenue(), 0);
}

#[test]
fn sale_on_empty_inventory_is_not_found() {
    let mut inv = Inventory::new();
    let mut tx = Transactions::new();
    match tx.record_sale("Unknown", 1, 1000, &mut inv) {
        Err(StoreError::NotFound(name)) => assert_eq!(name, "Unknown"),
        other => panic!("unexpected result: {:?}", other.map(|s| s.quantity())),
    }
    assert!(inv.all().is_empty());
    assert!(tx.get_sales().is_empty());
}

#[test]
fn purchase_of_unknown_product_is_not_created() {
    let mut inv = Inventory::new();
    inv.add_product("Bread", "Whole grain", 1800, 10);
    let mut tx = Transactions::new();
    match tx.record_purchase("NewThing", 5, 300, &mut inv) {
        Err(StoreError::NotFound(name)) => assert_eq!(name, "NewThing"),
        other => panic!("unexpected result: {:?}", other.map(|p| p.quantity())),
    }
    assert_eq!(inv.all().len(), 1);
    assert_eq!(inv.all()[0].quantity(), 10);
    assert!(tx.get_purchases().is_empty());
}

#[test]
fn invalid_requests_change_nothing() {
    let mut inv = Inventory::new();
    inv.add_product("Cola", "330ml can", 1000, 12);
    let mut tx = Transactions::new();
    assert!(matches!(tx.record_sale("Cola", 0, 1000, &mut inv), Err(StoreError::InvalidInput(_))));
    assert!(matches!(tx.record_sale("Cola", 1, 0, &mut inv), Err(StoreError::InvalidInput(_))));
    assert!(matches!(tx.record_sale("Cola", 1, -5, &mut inv), Err(StoreError::InvalidInput(_))));
    assert!(matches!(tx.record_sale("Nope", 0, 1000, &mut inv), Err(StoreError::InvalidInput(_))));
    assert!(matches!(tx.record_purchase("Cola", 0, 1000, &mut inv), Err(StoreError::InvalidInput(_))));
    assert!(matches!(tx.record_purchase("Cola", 3, -1, &mut inv), Err(StoreError::InvalidInput(_))));
    assert!(matches!(tx.record_purchase("Nope", 3, 0, &mut inv), Err(StoreError::InvalidInput(_))));
    assert_eq!(inv.all()[0].quantity(), 12);
    assert!(tx.get_sales().is_empty());
    assert!(tx.get_purchases().is_empty());
}

#[test]
fn selling_whole_stock_leaves_zero() {
    let mut inv = Inventory::new();
    inv.add_product("Eggs", "Dozen", 300, 2);
    let mut tx = Transactions::new();
    assert!(tx.record_sale("Eggs", 2, 300, &mut inv).is_ok());
    assert_eq!(inv.all()[0].quantity(), 0);
}

#[test]
fn revenue_sums_every_sale() {
    let mut inv = Inventory::new();
    inv.add_product("Cola", "330ml can", 1000, 12);
    inv.add_product("Chips", "Salted", 750, 5);
    let mut tx = Transactions::new();
    assert!(tx.record_sale("Cola", 3, 1200, &mut inv).is_ok());
    assert!(tx.record_sale("Chips", 2, 750, &mut inv).is_ok());
    assert!(tx.record_sale("Chips", 9, 750, &mut inv).is_err());
    assert_eq!(tx.get_sales().len(), 2);
    assert_eq!(tx.total_revenue(), 3600 + 1500);
    assert!(tx.record_purchase("Cola", 4, 250, &mut inv).is_ok());
    assert!(tx.record_purchase("Chips", 1, 99, &mut inv).is_ok());
    assert_eq!(tx.total_purchase_cost(), 1000 + 99);
    assert_eq!(inv.all()[0].quantity(), 13);
    assert_eq!(inv.all()[1].quantity(), 4);
}

#[test]
fn largest_sale_total_fits() {
    let mut inv = Inventory::new();
    inv.add_product("Gold", "Bar", i64::MAX, u32::MAX);
    let mut tx = Transactions::new();
    let s = tx.record_sale("Gold", u32::MAX, i64::MAX, &mut inv).unwrap();
    assert_eq!(s.total_price(), u32::MAX as u128 * i64::MAX as u128);
    assert_eq!(inv.all()[0].quantity(), 0);
}

#[test]
fn negative_price_is_clamped_to_zero() {
    let mut inv = Inventory::new();
    inv.add_product("Odd", "Typo", -250, 3);
    assert_eq!(inv.all()[0].price(), 0);
    inv.edit_product("Odd", None, None, Some(-1), None);
    assert_eq!(inv.all()[0].price(), 0);
    let p = Product::new("Odd", "Typo", -1, 1);
    assert_eq!(p.price(), 0);
}

#[test]
fn edit_changes_only_given_fields() {
    let mut inv = Inventory::new();
    inv.add_product("Cola", "Sweet drink", 1000, 50);
    inv.edit_product("Cola", None, None, None, Some(7));
    let p = &inv.all()[0];
    assert_eq!(p.name(), "Cola");
    assert_eq!(p.description(), "Sweet drink");
    assert_eq!(p.price(), 1000);
    assert_eq!(p.quantity(), 7);
}

#[test]
fn duplicate_names_resolve_to_first() {
    let mut inv = Inventory::new();
    inv.add_product("Cola", "first", 100, 1);
    inv.add_product("Cola", "second", 100, 10);
    assert_eq!(inv.position("Cola"), Some(0));
    let mut tx = Transactions::new();
    assert!(tx.record_sale("Cola", 5, 100, &mut inv).is_err());
    assert!(tx.record_sale("Cola", 1, 100, &mut inv).is_ok());
    assert_eq!(inv.all()[0].quantity(), 0);
    assert_eq!(inv.all()[1].quantity(), 10);
    inv.del_product("Cola");
    assert_eq!(inv.all().len(), 1);
    assert_eq!(inv.all()[0].description(), "second");
}

#[test]
fn find_mut_changes_in_place() {
    let mut inv = Inventory::new();
    inv.add_product("Milk", "Dairy", 200, 5);
    assert!(inv.find_mut("Bread").is_none());
    let p = inv.find_mut("Milk").unwrap();
    p.add_stock(3);
    p.set_description("Fresh");
    p.set_price(250);
    p.set_price(-7);
    assert_eq!(inv.all()[0].quantity(), 8);
    assert_eq!(inv.all()[0].description(), "Fresh");
    assert_eq!(inv.all()[0].price(), 250);
}

#[test]
fn stock_removal_clamps_at_zero() {
    let mut p = Product::new("Milk", "Dairy", 200, 5);
    p.remove_stock(2);
    assert_eq!(p.quantity(), 3);
    p.remove_stock(10);
    assert_eq!(p.quantity(), 0);
    p.set_quantity(4);
    assert_eq!(p.quantity(), 4);
}

#[test]
fn inventory_report_golden() {
    let mut inv = Inventory::new();
    inv.add_product("Cola", "330ml can", 1000, 12);
    inv.add_product("Chips", "Salted", 750, 5);
    let expected = "Name                 | Description              | Price   | Qty\n\
---------------------------------------------------------------\n\
Cola                 | 330ml can                |   10.00 |  12\n\
Chips                | Salted                   |    7.50 |   5\n";
    assert_eq!(report_inventory(&inv), expected);
}

#[test]
fn ledger_reports_golden() {
    let mut inv = Inventory::new();
    inv.add_product("Cola", "330ml can", 1000, 12);
    let mut tx = Transactions::new();
    assert!(tx.record_sale("Cola", 3, 1205, &mut inv).is_ok());
    assert!(tx.record_purchase("Cola", 10, 5, &mut inv).is_ok());
    let header = "No | Product            | Qty  | Unit   | Total\n\
-----------------------------------------------\n";
    assert_eq!(
        report_sales(&tx),
        format!("{}1  | Cola               |   3  |  12.05 |  36.15\n", header)
    );
    assert_eq!(
        report_purchases(&tx),
        format!("{}1  | Cola               |  10  |   0.05 |   0.50\n", header)
    );
}

#[test]
fn reports_repeat_without_change() {
    let mut inv = Inventory::new();
    inv.add_product("Milk", "Dairy", 200, 5);
    let mut tx = Transactions::new();
    assert!(tx.record_sale("Milk", 1, 200, &mut inv).is_ok());
    assert_eq!(report_inventory(&inv), report_inventory(&inv));
    assert_eq!(report_sales(&tx), report_sales(&tx));
    assert_eq!(report_purchases(&tx), report_purchases(&tx));
}
