use invoicing::aggregate::{find_line, recompute_rollups, InvoiceAggregate, Rollups};
use invoicing::error::InvoiceError;
use invoicing::ledger::compute_line;
use chrono::{NaiveDate, NaiveDateTime};
use invoicing::models::{Invoice, InvoiceItem, InvoiceStatus, Item, NewInvoice};

fn day(year: i32, month: u32, day: u32) -> NaiveDateTime {
    NaiveDate::from_ymd_opt(year, month, day).unwrap().and_hms_opt(9, 30, 0).unwrap()
}

fn item(id: i32, name: &str, price: i64, tax_rate: i32) -> Item {
    Item { id, name: name.to_string(), price, tax_rate, unit: "pcs".to_string() }
}

fn draft(id: i32) -> InvoiceAggregate {
    InvoiceAggregate::initialize(id, NewInvoice::new(3, "INV-001".to_string(), day(2024, 1, 15)))
        .unwrap()
}

fn sums(lines: &[InvoiceItem]) -> (i64, i64) {
    let mut subtotal = 0;
    let mut tax = 0;
    for l in lines {
        subtotal += l.subtotal;
        tax += l.tax_amount;
    }
    (subtotal, tax)
}

fn assert_amounts_follow_lines(a: &InvoiceAggregate) {
    let (subtotal, tax) = sums(&a.line_items);
    assert_eq!(a.invoice.subtotal, subtotal);
    assert_eq!(a.invoice.tax_amount, tax);
    assert_eq!(a.invoice.total, subtotal + tax);
}

#[test]
fn initialize_makes_an_empty_draft() {
    let a = draft(9);
    assert_eq!(
        a.invoice,
        Invoice {
            id: 9,
            supplier_id: 3,
            subtotal: 0,
            tax_amount: 0,
            total: 0,
            date: day(2024, 1, 15),
            document_number: "INV-001".to_string(),
            status: InvoiceStatus::Draft,
        }
    );
    assert!(a.line_items.is_empty());
    assert!(a.is_draft());
}

#[test]
fn initialize_refuses_an_empty_document_number() {
    let r = InvoiceAggregate::initialize(1, NewInvoice::new(3, String::new(), day(2024, 1, 15)));
    assert_eq!(r, Err(InvoiceError::MissingField));
}

#[test]
fn new_invoice_has_zero_amounts() {
    let n = NewInvoice::new(4, "A-1".to_string(), day(2023, 12, 31));
    assert_eq!(n.supplier_id, 4);
    assert_eq!(n.document_number, "A-1");
    assert_eq!(n.date, day(2023, 12, 31));
    assert_eq!((n.subtotal, n.tax_amount, n.total), (0, 0, 0));
}

#[test]
fn add_line_copies_the_item_and_prices_the_line() {
    let mut a = draft(1);
    let widget = item(5, "Widget", 1_000, 20);
    let line = a.add_line_item(&widget, None, 10_000, 0).unwrap();
    assert_eq!(
        line,
        InvoiceItem {
            invoice_id: 1,
            item_id: 5,
            name: "Widget".to_string(),
            unit: "pcs".to_string(),
            tax_rate: 20,
            discount: 0,
            quantity: 10_000,
            buying_price: 1_000,
            subtotal: 10_000,
            tax_amount: 2_000,
            selling_price: 1_000,
            total: 12_000,
            note: None,
        }
    );
    assert_eq!(a.line_items, vec![line]);
    assert_eq!(a.invoice.subtotal, 10_000);
    assert_eq!(a.invoice.tax_amount, 2_000);
    assert_eq!(a.invoice.total, 12_000);
    assert!(a.is_draft());
}

#[test]
fn add_line_with_discount() {
    let mut a = draft(1);
    let line = a.add_line_item(&item(5, "Widget", 1_000, 20), None, 5_000, 1_000).unwrap();
    assert_eq!(line.buying_price, 1_000);
    assert_eq!(line.selling_price, 900);
    assert_eq!(line.subtotal, 4_500);
    assert_eq!(line.tax_amount, 900);
    assert_eq!(line.total, 5_400);
}

#[test]
fn add_line_takes_the_override_as_buying_price() {
    let mut a = draft(1);
    let line = a.add_line_item(&item(5, "Widget", 1_000, 20), Some(800), 2_000, 0).unwrap();
    assert_eq!(line.buying_price, 800);
    assert_eq!(line.selling_price, 800);
    assert_eq!(line.subtotal, 1_600);
    assert_eq!(line.tax_amount, 320);
    assert_eq!(line.total, 1_920);
}

#[test]
fn add_line_appends_in_order() {
    let mut a = draft(1);
    a.add_line_item(&item(5, "Widget", 1_000, 20), None, 1_000, 0).unwrap();
    a.add_line_item(&item(2, "Gadget", 250, 7), None, 3_000, 0).unwrap();
    a.add_line_item(&item(8, "Gizmo", 99, 0), None, 1_500, 2_500).unwrap();
    let ids: Vec<i32> = a.line_items.iter().map(|l| l.item_id).collect();
    assert_eq!(ids, vec![5, 2, 8]);
    assert_amounts_follow_lines(&a);
}

#[test]
fn invoice_total_is_subtotal_plus_tax_even_where_lines_round() {
    let mut a = draft(1);
    // Each line's own total is one cent more than its rounded parts.
    let l1 = a.add_line_item(&item(1, "a", 5, 50), None, 1_000, 0).unwrap();
    let l2 = a.add_line_item(&item(2, "b", 5, 50), None, 1_000, 0).unwrap();
    assert_eq!((l1.subtotal, l1.tax_amount, l1.total), (5, 2, 8));
    assert_eq!((l2.subtotal, l2.tax_amount, l2.total), (5, 2, 8));
    assert_eq!(a.invoice.subtotal, 10);
    assert_eq!(a.invoice.tax_amount, 4);
    assert_eq!(a.invoice.total, 14);
}

#[test]
fn add_line_refuses_a_second_line_for_the_item() {
    let mut a = draft(1);
    let widget = item(5, "Widget", 1_000, 20);
    a.add_line_item(&widget, None, 1_000, 0).unwrap();
    let before = a.clone();
    assert_eq!(a.add_line_item(&widget, None, 2_000, 500), Err(InvoiceError::DuplicateLine));
    assert_eq!(a, before);
}

#[test]
fn add_line_refuses_bad_input_and_changes_nothing() {
    let mut a = draft(1);
    let widget = item(5, "Widget", 1_000, 20);
    a.add_line_item(&item(6, "Other", 10, 0), None, 1_000, 0).unwrap();
    let before = a.clone();
    assert_eq!(a.add_line_item(&widget, None, 0, 0), Err(InvoiceError::InvalidLineInput));
    assert_eq!(a.add_line_item(&widget, None, 1_000, -1), Err(InvoiceError::InvalidLineInput));
    assert_eq!(a.add_line_item(&widget, None, 1_000, 10_001), Err(InvoiceError::InvalidLineInput));
    assert_eq!(a.add_line_item(&widget, Some(-1), 1_000, 0), Err(InvoiceError::InvalidLineInput));
    assert_eq!(
        a.add_line_item(&item(7, "Broken", 10, -5), None, 1_000, 0),
        Err(InvoiceError::InvalidLineInput)
    );
    assert_eq!(
        a.add_line_item(&widget, Some(i64::MAX), i64::MAX, 0),
        Err(InvoiceError::LimitExceeded)
    );
    assert_eq!(a, before);
}

#[test]
fn bad_input_is_reported_before_a_duplicate_line() {
    let mut a = draft(1);
    let widget = item(5, "Widget", 1_000, 20);
    a.add_line_item(&widget, None, 1_000, 0).unwrap();
    assert_eq!(a.add_line_item(&widget, None, 0, 0), Err(InvoiceError::InvalidLineInput));
}

#[test]
fn add_line_refuses_sums_beyond_64_bits() {
    let mut a = draft(1);
    let half = i64::MAX / 2 + 1;
    a.add_line_item(&item(1, "a", half, 0), None, 1_000, 0).unwrap();
    let before = a.clone();
    assert_eq!(
        a.add_line_item(&item(2, "b", half, 0), None, 1_000, 0),
        Err(InvoiceError::LimitExceeded)
    );
    assert_eq!(a, before);
    // One cent less fits.
    a.add_line_item(&item(2, "b", half - 2, 0), None, 1_000, 0).unwrap();
    assert_eq!(a.invoice.subtotal, i64::MAX - 1);
    assert_eq!(a.invoice.total, i64::MAX - 1);
}

#[test]
fn add_line_refuses_a_total_beyond_64_bits_where_the_parts_fit() {
    let mut a = draft(1);
    a.add_line_item(&item(1, "a", 4_600_000_000_000_000_000, 0), None, 1_000, 0).unwrap();
    let before = a.clone();
    // The subtotals add up to 7.0e18 and the tax to 2.4e18: each fits, but
    // not the two together.
    let r = a.add_line_item(&item(2, "b", 2_400_000_000_000_000_000, 100), None, 1_000, 0);
    assert_eq!(r, Err(InvoiceError::LimitExceeded));
    assert_eq!(a, before);
    assert_eq!(a.line_items.len(), 1);
}

#[test]
fn remove_line_takes_the_line_out_and_derives_the_amounts() {
    let mut a = draft(1);
    a.add_line_item(&item(5, "Widget", 1_000, 20), None, 10_000, 0).unwrap();
    a.add_line_item(&item(2, "Gadget", 250, 7), None, 3_000, 0).unwrap();
    a.add_line_item(&item(8, "Gizmo", 99, 0), None, 1_500, 2_500).unwrap();
    assert_eq!(a.remove_line_item(2), Ok(()));
    let ids: Vec<i32> = a.line_items.iter().map(|l| l.item_id).collect();
    assert_eq!(ids, vec![5, 8]);
    assert_amounts_follow_lines(&a);
    assert_eq!(a.remove_line_item(5), Ok(()));
    assert_eq!(a.remove_line_item(8), Ok(()));
    assert!(a.line_items.is_empty());
    assert_eq!((a.invoice.subtotal, a.invoice.tax_amount, a.invoice.total), (0, 0, 0));
}

#[test]
fn remove_line_refuses_an_item_without_line() {
    let mut a = draft(1);
    assert_eq!(a.remove_line_item(5), Err(InvoiceError::LineNotFound));
    a.add_line_item(&item(5, "Widget", 1_000, 20), None, 10_000, 0).unwrap();
    let before = a.clone();
    assert_eq!(a.remove_line_item(6), Err(InvoiceError::LineNotFound));
    assert_eq!(a, before);
}

#[test]
fn a_removed_item_can_get_a_line_again() {
    let mut a = draft(1);
    let widget = item(5, "Widget", 1_000, 20);
    a.add_line_item(&widget, None, 10_000, 0).unwrap();
    a.remove_line_item(5).unwrap();
    let line = a.add_line_item(&widget, None, 1_000, 5_000).unwrap();
    assert_eq!(line.total, 600);
    assert_eq!(a.invoice.total, 600);
}

#[test]
fn amounts_follow_the_lines_after_any_sequence() {
    let mut a = draft(1);
    let catalog: Vec<Item> =
        (1..=12).map(|i| item(i, "x", 37 * i as i64 + 3, (i * 3) % 25)).collect();
    let mut state: u32 = 12_345;
    for _ in 0..400 {
        state = state.wrapping_mul(1_103_515_245).wrapping_add(12_345);
        let pick = ((state >> 16) % 12) as usize;
        let quantity = ((state >> 8) % 5_000) as i64 + 1;
        let discount = ((state >> 4) % 10_001) as i32;
        if (state >> 3) % 3 == 0 {
            let _ = a.remove_line_item(catalog[pick].id);
        } else {
            let _ = a.add_line_item(&catalog[pick], None, quantity, discount);
        }
        assert_amounts_follow_lines(&a);
        assert_eq!(recompute_rollups(&a.line_items), Some(Rollups {
            subtotal: a.invoice.subtotal,
            tax_amount: a.invoice.tax_amount,
            total: a.invoice.total,
        }));
        for l in a.line_items.iter() {
            let t = compute_line(l.buying_price, l.quantity, l.discount, l.tax_rate).unwrap();
            assert_eq!((t.selling_price, t.subtotal, t.tax_amount, t.total),
                (l.selling_price, l.subtotal, l.tax_amount, l.total));
        }
    }
}

#[test]
fn complete_freezes_the_invoice() {
    let mut a = draft(1);
    let widget = item(5, "Widget", 1_000, 20);
    a.add_line_item(&widget, None, 10_000, 0).unwrap();
    let header = a.complete().unwrap();
    assert_eq!(header.status, InvoiceStatus::Completed);
    assert_eq!((header.subtotal, header.tax_amount, header.total), (10_000, 2_000, 12_000));
    assert_eq!(header, a.invoice);
    assert!(!a.is_draft());
    let frozen = a.clone();
    assert_eq!(
        a.add_line_item(&item(6, "Other", 10, 0), None, 1_000, 0),
        Err(InvoiceError::InvoiceNotDraft)
    );
    assert_eq!(a.remove_line_item(5), Err(InvoiceError::InvoiceNotDraft));
    assert_eq!(a.remove_line_item(6), Err(InvoiceError::InvoiceNotDraft));
    assert_eq!(a.complete(), Err(InvoiceError::InvoiceNotDraft));
    assert_eq!(a.check_deletable(), Err(InvoiceError::InvoiceNotDraft));
    assert_eq!(a, frozen);
    assert_eq!(a.invoice.status, InvoiceStatus::Completed);
}

#[test]
fn a_completed_invoice_reports_its_state_before_bad_input() {
    let mut a = draft(1);
    a.add_line_item(&item(5, "Widget", 1_000, 20), None, 10_000, 0).unwrap();
    a.complete().unwrap();
    assert_eq!(
        a.add_line_item(&item(6, "Other", 10, 0), None, 0, 0),
        Err(InvoiceError::InvoiceNotDraft)
    );
}

#[test]
fn complete_refuses_an_invoice_without_lines() {
    let mut a = draft(1);
    assert_eq!(a.complete(), Err(InvoiceError::EmptyInvoice));
    assert!(a.is_draft());
    a.add_line_item(&item(5, "Widget", 1_000, 20), None, 10_000, 0).unwrap();
    a.remove_line_item(5).unwrap();
    assert_eq!(a.complete(), Err(InvoiceError::EmptyInvoice));
    assert!(a.is_draft());
}

#[test]
fn a_draft_may_be_deleted() {
    let mut a = draft(1);
    assert_eq!(a.check_deletable(), Ok(()));
    a.add_line_item(&item(5, "Widget", 1_000, 20), None, 10_000, 0).unwrap();
    assert_eq!(a.check_deletable(), Ok(()));
}

#[test]
fn recompute_sums_over_all_lines() {
    let mut a = draft(1);
    assert_eq!(
        recompute_rollups(&a.line_items),
        Some(Rollups { subtotal: 0, tax_amount: 0, total: 0 })
    );
    a.add_line_item(&item(5, "Widget", 1_000, 20), None, 10_000, 0).unwrap();
    a.add_line_item(&item(2, "Gadget", 250, 7), None, 3_000, 0).unwrap();
    // 100.00 + 7.50, 20.00 + 0.52 (0.525 goes to even).
    assert_eq!(
        recompute_rollups(&a.line_items),
        Some(Rollups { subtotal: 10_750, tax_amount: 2_052, total: 12_802 })
    );
}

#[test]
fn find_line_gives_the_place_of_the_item() {
    let mut a = draft(1);
    a.add_line_item(&item(5, "Widget", 1_000, 20), None, 10_000, 0).unwrap();
    a.add_line_item(&item(2, "Gadget", 250, 7), None, 3_000, 0).unwrap();
    assert_eq!(find_line(&a.line_items, 5), Some(0));
    assert_eq!(find_line(&a.line_items, 2), Some(1));
    assert_eq!(find_line(&a.line_items, 1), None);
}

#[test]
fn invoices_made_by_the_operations_are_well_formed() {
    let mut a = draft(1);
    assert!(a.is_well_formed());
    a.add_line_item(&item(5, "Widget", 1_000, 20), None, 10_000, 0).unwrap();
    a.add_line_item(&item(2, "Gadget", 250, 7), Some(199), 3_333, 1_250).unwrap();
    assert!(a.is_well_formed());
    a.remove_line_item(5).unwrap();
    assert!(a.is_well_formed());
    a.complete().unwrap();
    assert!(a.is_well_formed());
}

#[test]
fn tampered_invoices_are_not_well_formed() {
    let mut good = draft(1);
    good.add_line_item(&item(5, "Widget", 1_000, 20), None, 10_000, 0).unwrap();
    good.add_line_item(&item(2, "Gadget", 250, 7), None, 3_000, 0).unwrap();
    assert!(good.is_well_formed());

    let mut a = good.clone();
    a.invoice.document_number = String::new();
    assert!(!a.is_well_formed());

    let mut a = good.clone();
    a.invoice.subtotal += 1;
    assert!(!a.is_well_formed());

    let mut a = good.clone();
    a.invoice.tax_amount -= 1;
    assert!(!a.is_well_formed());

    let mut a = good.clone();
    a.invoice.total += 1;
    assert!(!a.is_well_formed());

    // A line with an amount that its inputs do not give.
    let mut a = good.clone();
    a.line_items[0].total += 1;
    assert!(!a.is_well_formed());
    let mut a = good.clone();
    a.line_items[1].selling_price -= 1;
    assert!(!a.is_well_formed());

    // A line with inputs that cannot be priced.
    let mut a = good.clone();
    a.line_items[0].quantity = 0;
    assert!(!a.is_well_formed());

    // A line of another invoice.
    let mut a = good.clone();
    a.line_items[1].invoice_id = 2;
    assert!(!a.is_well_formed());

    // Two lines for one item.
    let mut a = good.clone();
    a.line_items[1].item_id = 5;
    assert!(!a.is_well_formed());

    // A line whose amounts are right but missing from the sums.
    let mut a = good.clone();
    a.line_items.pop();
    assert!(!a.is_well_formed());

    // Completed without a line.
    let mut a = draft(1);
    a.invoice.status = InvoiceStatus::Completed;
    assert!(!a.is_well_formed());
}
