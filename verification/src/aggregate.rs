//! The invoice aggregate: a header with its lines, changed only as a unit.
//!
//! An invoice starts as an empty draft. While it is a draft, lines are added
//! and removed, at most one line for each item, and after every change the
//! amounts of the header are derived afresh from the lines. Completing the
//! invoice freezes it for good.

use vstd::prelude::*;
use crate::error::InvoiceError;
use crate::ledger::{
    compute_line, compute_line_outcome, lemma_line_amounts_nonnegative,
    lemma_selling_price_bounds, LineTotals,
};
use crate::models::{
    clone_lines, views, Invoice, InvoiceItem, InvoiceItemView, InvoiceStatus, InvoiceView, Item,
    ItemView, NewInvoice, NewInvoiceView,
};

verus! {

/// The amounts of an invoice header, in cents.
#[derive(Clone, Copy, Debug, PartialEq, Eq, Structural)]
pub struct Rollups {
    pub subtotal: i64,
    pub tax_amount: i64,
    pub total: i64,
}

/// The sum of the subtotals of the lines.
pub open spec fn sum_subtotals(lines: Seq<InvoiceItemView>) -> int
    decreases lines.len(),
{
    if lines.len() == 0 {
        0
    } else {
        sum_subtotals(lines.drop_last()) + lines.last().subtotal
    }
}

/// The sum of the tax amounts of the lines.
pub open spec fn sum_tax_amounts(lines: Seq<InvoiceItemView>) -> int
    decreases lines.len(),
{
    if lines.len() == 0 {
        0
    } else {
        sum_tax_amounts(lines.drop_last()) + lines.last().tax_amount
    }
}

/// A line whose four amounts are those that its inputs are priced at.
pub open spec fn line_wf(line: InvoiceItemView) -> bool {
    compute_line_outcome(
        line.buying_price as int,
        line.quantity as int,
        line.discount as int,
        line.tax_rate as int,
    ) == Ok::<LineTotals, InvoiceError>(
        LineTotals {
            selling_price: line.selling_price,
            subtotal: line.subtotal,
            tax_amount: line.tax_amount,
            total: line.total,
        },
    )
}

/// Every line is well formed.
pub open spec fn lines_wf(lines: Seq<InvoiceItemView>) -> bool {
    forall|i: int| 0 <= i < lines.len() ==> line_wf(#[trigger] lines[i])
}

/// Whether some line is for the item `item_id`.
pub open spec fn has_line(lines: Seq<InvoiceItemView>, item_id: i32) -> bool {
    exists|i: int| 0 <= i < lines.len() && (#[trigger] lines[i]).item_id == item_id
}

/// The place of a line for the item `item_id`, if there is one.
pub open spec fn line_index(lines: Seq<InvoiceItemView>, item_id: i32) -> int {
    choose|i: int| 0 <= i < lines.len() && (#[trigger] lines[i]).item_id == item_id
}

/// Whether the sums of the lines fit in 64 bits.
pub open spec fn rollups_fit(lines: Seq<InvoiceItemView>) -> bool {
    sum_subtotals(lines) + sum_tax_amounts(lines) <= i64::MAX
}

/// The header amounts derived from the lines: the subtotal is the sum of
/// the lines' subtotals, the tax amount the sum of their tax amounts, and
/// the total is subtotal plus tax amount.
pub open spec fn rollups_of(lines: Seq<InvoiceItemView>) -> Rollups {
    Rollups {
        subtotal: sum_subtotals(lines) as i64,
        tax_amount: sum_tax_amounts(lines) as i64,
        total: (sum_subtotals(lines) + sum_tax_amounts(lines)) as i64,
    }
}

/// What `recompute_rollups` returns.
pub open spec fn recompute_outcome(lines: Seq<InvoiceItemView>) -> Option<Rollups> {
    if rollups_fit(lines) {
        Some(rollups_of(lines))
    } else {
        None
    }
}

/// The line that records `quantity` of `item` at `buying_price`.
pub open spec fn snapshot_line(
    invoice_id: i32,
    item: ItemView,
    buying_price: i64,
    quantity: i64,
    discount: i32,
    totals: LineTotals,
) -> InvoiceItemView {
    InvoiceItemView {
        invoice_id,
        item_id: item.id,
        name: item.name,
        unit: item.unit,
        tax_rate: item.tax_rate,
        discount,
        quantity,
        buying_price,
        subtotal: totals.subtotal,
        tax_amount: totals.tax_amount,
        selling_price: totals.selling_price,
        total: totals.total,
        note: None,
    }
}

/// The price at which a line is bought: the override where one is given,
/// else the item's current price.
pub open spec fn buying_price_of(item: ItemView, price_override: Option<i64>) -> i64 {
    match price_override {
        Some(p) => p,
        None => item.price,
    }
}

/// An invoice with its lines as a mathematical value.
pub struct AggregateView {
    pub invoice: InvoiceView,
    pub line_items: Seq<InvoiceItemView>,
}

impl AggregateView {
    /// The invariant of an invoice: it has a document number, its lines are
    /// its own, well formed and for different items, its amounts are the
    /// sums over its lines, and it has a line if it is completed.
    pub open spec fn wf(self) -> bool {
        &&& self.invoice.document_number.len() > 0
        &&& lines_wf(self.line_items)
        &&& forall|i: int|
            0 <= i < self.line_items.len() ==> (#[trigger] self.line_items[i]).invoice_id
                == self.invoice.id
        &&& forall|i: int, j: int|
            0 <= i < j < self.line_items.len() ==> (#[trigger] self.line_items[i]).item_id != (
            #[trigger] self.line_items[j]).item_id
        &&& self.invoice.subtotal == sum_subtotals(self.line_items)
        &&& self.invoice.tax_amount == sum_tax_amounts(self.line_items)
        &&& self.invoice.total == self.invoice.subtotal + self.invoice.tax_amount
        &&& self.invoice.status == InvoiceStatus::Completed ==> self.line_items.len() > 0
    }

    /// This invoice with `lines` in place of its lines and the amounts
    /// derived from them.
    pub open spec fn with_lines(self, lines: Seq<InvoiceItemView>) -> AggregateView {
        let r = rollups_of(lines);
        AggregateView {
            invoice: InvoiceView {
                subtotal: r.subtotal,
                tax_amount: r.tax_amount,
                total: r.total,
                ..self.invoice
            },
            line_items: lines,
        }
    }

    /// This invoice, completed.
    pub open spec fn completed(self) -> AggregateView {
        AggregateView {
            invoice: InvoiceView { status: InvoiceStatus::Completed, ..self.invoice },
            line_items: self.line_items,
        }
    }
}

/// The empty draft that `initialize` makes, or why it makes none.
pub open spec fn initialize_outcome(id: i32, new: NewInvoiceView) -> Result<
    AggregateView,
    InvoiceError,
> {
    if new.document_number.len() == 0 {
        Err(InvoiceError::MissingField)
    } else {
        Ok(
            AggregateView {
                invoice: InvoiceView {
                    id,
                    supplier_id: new.supplier_id,
                    subtotal: 0,
                    tax_amount: 0,
                    total: 0,
                    date: new.date,
                    document_number: new.document_number,
                    status: InvoiceStatus::Draft,
                },
                line_items: Seq::empty(),
            },
        )
    }
}

/// The invoice after a line for `item` is added, or why none is added.
pub open spec fn add_line_outcome(
    a: AggregateView,
    item: ItemView,
    price_override: Option<i64>,
    quantity: i64,
    discount: i32,
) -> Result<AggregateView, InvoiceError> {
    let buying_price = buying_price_of(item, price_override);
    if a.invoice.status != InvoiceStatus::Draft {
        Err(InvoiceError::InvoiceNotDraft)
    } else {
        match compute_line_outcome(
            buying_price as int,
            quantity as int,
            discount as int,
            item.tax_rate as int,
        ) {
            Err(e) => Err(e),
            Ok(totals) => {
                let lines = a.line_items.push(
                    snapshot_line(a.invoice.id, item, buying_price, quantity, discount, totals),
                );
                if has_line(a.line_items, item.id) {
                    Err(InvoiceError::DuplicateLine)
                } else if !rollups_fit(lines) {
                    Err(InvoiceError::LimitExceeded)
                } else {
                    Ok(a.with_lines(lines))
                }
            },
        }
    }
}

/// The invoice after the line for `item_id` is removed, or why none is.
pub open spec fn remove_line_outcome(a: AggregateView, item_id: i32) -> Result<
    AggregateView,
    InvoiceError,
> {
    if a.invoice.status != InvoiceStatus::Draft {
        Err(InvoiceError::InvoiceNotDraft)
    } else if !has_line(a.line_items, item_id) {
        Err(InvoiceError::LineNotFound)
    } else {
        Ok(a.with_lines(a.line_items.remove(line_index(a.line_items, item_id))))
    }
}

/// The completed invoice, or why it is not completed.
pub open spec fn complete_outcome(a: AggregateView) -> Result<AggregateView, InvoiceError> {
    if a.invoice.status != InvoiceStatus::Draft {
        Err(InvoiceError::InvoiceNotDraft)
    } else if a.line_items.len() == 0 {
        Err(InvoiceError::EmptyInvoice)
    } else {
        Ok(a.with_lines(a.line_items).completed())
    }
}

/// Whether the invoice may be deleted: only a draft may.
pub open spec fn delete_outcome(a: AggregateView) -> Result<(), InvoiceError> {
    if a.invoice.status != InvoiceStatus::Draft {
        Err(InvoiceError::InvoiceNotDraft)
    } else {
        Ok(())
    }
}

/// The amounts of a well-formed line are at least zero.
pub proof fn lemma_line_wf_nonnegative(line: InvoiceItemView)
    requires
        line_wf(line),
    ensures
        line.selling_price >= 0,
        line.subtotal >= 0,
        line.tax_amount >= 0,
        line.total >= 0,
{
    lemma_selling_price_bounds(line.buying_price as int, line.discount as int);
    lemma_line_amounts_nonnegative(
        line.buying_price as int,
        line.quantity as int,
        line.discount as int,
        line.tax_rate as int,
    );
}

/// The sums over well-formed lines are at least zero.
pub proof fn lemma_sums_nonnegative(lines: Seq<InvoiceItemView>)
    requires
        lines_wf(lines),
    ensures
        sum_subtotals(lines) >= 0,
        sum_tax_amounts(lines) >= 0,
    decreases lines.len(),
{
    if lines.len() > 0 {
        lemma_sums_nonnegative(lines.drop_last());
        lemma_line_wf_nonnegative(lines.last());
    }
}

/// The sums over the first `k` well-formed lines do not exceed the sums
/// over all of them.
pub proof fn lemma_sums_of_prefix(lines: Seq<InvoiceItemView>, k: int)
    requires
        lines_wf(lines),
        0 <= k <= lines.len(),
    ensures
        sum_subtotals(lines.take(k)) <= sum_subtotals(lines),
        sum_tax_amounts(lines.take(k)) <= sum_tax_amounts(lines),
    decreases lines.len(),
{
    if k == lines.len() {
        assert(lines.take(k) =~= lines);
    } else {
        assert(lines.drop_last().take(k) =~= lines.take(k));
        lemma_sums_of_prefix(lines.drop_last(), k);
        lemma_line_wf_nonnegative(lines.last());
    }
}

/// A line that is removed takes its amounts from the sums.
pub proof fn lemma_sums_after_remove(lines: Seq<InvoiceItemView>, i: int)
    requires
        0 <= i < lines.len(),
    ensures
        sum_subtotals(lines.remove(i)) == sum_subtotals(lines) - lines[i].subtotal,
        sum_tax_amounts(lines.remove(i)) == sum_tax_amounts(lines) - lines[i].tax_amount,
    decreases lines.len(),
{
    if i == lines.len() - 1 {
        assert(lines.remove(i) =~= lines.drop_last());
    } else {
        assert(lines.remove(i).drop_last() =~= lines.drop_last().remove(i));
        assert(lines.remove(i).last() == lines.last());
        lemma_sums_after_remove(lines.drop_last(), i);
    }
}

/// Derives the header amounts from the lines, summing over all of them.
/// Returns `None` where the sums do not fit in 64 bits.
pub fn recompute_rollups(lines: &Vec<InvoiceItem>) -> (r: Option<Rollups>)
    requires
        lines_wf(views(lines@)),
    ensures
        r == recompute_outcome(views(lines@)),
{
    let ghost all = views(lines@);
    let mut subtotal: i64 = 0;
    let mut tax_amount: i64 = 0;
    let mut i: usize = 0;
    proof {
        lemma_sums_nonnegative(all);
    }
    while i < lines.len()
        invariant
            i <= lines.len(),
            all == views(lines@),
            lines_wf(all),
            subtotal == sum_subtotals(all.take(i as int)),
            tax_amount == sum_tax_amounts(all.take(i as int)),
            sum_subtotals(all) >= 0,
            sum_tax_amounts(all) >= 0,
        decreases lines.len() - i,
    {
        proof {
            assert(all.take(i + 1).drop_last() =~= all.take(i as int));
            assert(all.take(i + 1).last() == all[i as int]);
            assert(all[i as int] == lines@[i as int]@);
            lemma_sums_of_prefix(all, i + 1);
        }
        subtotal = match subtotal.checked_add(lines[i].subtotal) {
            Some(s) => s,
            None => {
                proof {
                    lemma_line_wf_nonnegative(all[i as int]);
                }
                return None;
            },
        };
        tax_amount = match tax_amount.checked_add(lines[i].tax_amount) {
            Some(t) => t,
            None => {
                proof {
                    lemma_line_wf_nonnegative(all[i as int]);
                }
                return None;
            },
        };
        i += 1;
    }
    assert(all.take(lines.len() as int) =~= all);
    match subtotal.checked_add(tax_amount) {
        Some(total) => Some(Rollups { subtotal, tax_amount, total }),
        None => None,
    }
}

/// The place of the first line for the item `item_id`, if there is one.
pub fn find_line(lines: &Vec<InvoiceItem>, item_id: i32) -> (r: Option<usize>)
    ensures
        r is Some <==> has_line(views(lines@), item_id),
        r matches Some(i) ==> i < lines.len() && lines[i as int].item_id == item_id
            && forall|j: int| 0 <= j < i ==> (#[trigger] lines[j]).item_id != item_id,
{
    let mut i: usize = 0;
    while i < lines.len()
        invariant
            i <= lines.len(),
            forall|j: int| 0 <= j < i ==> (#[trigger] views(lines@)[j]).item_id != item_id,
            forall|j: int| 0 <= j < i ==> (#[trigger] lines[j]).item_id != item_id,
        decreases lines.len() - i,
    {
        if lines[i].item_id == item_id {
            assert(views(lines@)[i as int].item_id == item_id);
            return Some(i);
        }
        i += 1;
    }
    None
}

/// An invoice with its lines.
#[derive(Debug, PartialEq, Eq)]
pub struct InvoiceAggregate {
    pub invoice: Invoice,
    pub line_items: Vec<InvoiceItem>,
}

impl View for InvoiceAggregate {
    type V = AggregateView;

    open spec fn view(&self) -> AggregateView {
        AggregateView { invoice: self.invoice@, line_items: views(self.line_items@) }
    }
}

impl Clone for InvoiceAggregate {
    fn clone(&self) -> (r: Self)
        ensures
            r@ == self@,
    {
        InvoiceAggregate {
            invoice: self.invoice.clone(),
            line_items: clone_lines(&self.line_items),
        }
    }
}

impl InvoiceAggregate {
    /// The invariant of an invoice, see `AggregateView::wf`.
    pub open spec fn wf(&self) -> bool {
        self@.wf()
    }

    /// Makes the empty draft with the identifier `id`: no lines, every
    /// amount zero. Refuses an empty document number with `MissingField`.
    pub fn initialize(id: i32, new: NewInvoice) -> (r: Result<InvoiceAggregate, InvoiceError>)
        ensures
            match initialize_outcome(id, new@) {
                Ok(a) => r is Ok && r->Ok_0@ == a && a.wf(),
                Err(e) => r == Err::<InvoiceAggregate, InvoiceError>(e),
            },
    {
        if new.document_number.as_str().is_empty() {
            return Err(InvoiceError::MissingField);
        }
        let aggregate = InvoiceAggregate {
            invoice: Invoice {
                id,
                supplier_id: new.supplier_id,
                subtotal: 0,
                tax_amount: 0,
                total: 0,
                date: new.date,
                document_number: new.document_number,
                status: InvoiceStatus::Draft,
            },
            line_items: Vec::new(),
        };
        assert(aggregate@.line_items =~= Seq::empty());
        Ok(aggregate)
    }

    /// Checks the invariant of the invoice: that it has a document number,
    /// that every line is its own and carries the amounts that its inputs
    /// are priced at, that no item has two lines, that the amounts of the
    /// header are the sums over the lines, and that it has a line if it is
    /// completed. For an invoice that was put together outside this crate.
    pub fn is_well_formed(&self) -> (r: bool)
        ensures
            r == self.wf(),
    {
        if self.invoice.document_number.as_str().is_empty() {
            return false;
        }
        let ghost lines = self@.line_items;
        let n = self.line_items.len();
        let mut i: usize = 0;
        while i < n
            invariant
                i <= n,
                n == self.line_items.len(),
                lines == self@.line_items,
                forall|k: int|
                    0 <= k < i ==> line_wf(#[trigger] lines[k]) && lines[k].invoice_id
                        == self.invoice.id,
                forall|k: int, l: int|
                    0 <= k < l < i ==> (#[trigger] lines[k]).item_id != (
                    #[trigger] lines[l]).item_id,
            decreases n - i,
        {
            let line = &self.line_items[i];
            assert(lines[i as int] == line@);
            if line.invoice_id != self.invoice.id {
                return false;
            }
            let priced = match compute_line(
                line.buying_price,
                line.quantity,
                line.discount,
                line.tax_rate,
            ) {
                Ok(totals) => totals.selling_price == line.selling_price && totals.subtotal
                    == line.subtotal && totals.tax_amount == line.tax_amount && totals.total
                    == line.total,
                Err(_) => false,
            };
            if !priced {
                assert(!line_wf(lines[i as int]));
                return false;
            }
            let mut j: usize = 0;
            while j < i
                invariant
                    j <= i < n,
                    n == self.line_items.len(),
                    lines == self@.line_items,
                    forall|k: int|
                        0 <= k < j ==> (#[trigger] lines[k]).item_id != lines[i as int].item_id,
                decreases i - j,
            {
                if self.line_items[j].item_id == self.line_items[i].item_id {
                    assert(lines[j as int].item_id == lines[i as int].item_id);
                    return false;
                }
                j += 1;
            }
            i += 1;
        }
        let sums_agree = match recompute_rollups(&self.line_items) {
            Some(rollups) => rollups.subtotal == self.invoice.subtotal && rollups.tax_amount
                == self.invoice.tax_amount && rollups.total == self.invoice.total,
            None => false,
        };
        proof {
            lemma_sums_nonnegative(lines);
        }
        if !sums_agree {
            return false;
        }
        match self.invoice.status {
            InvoiceStatus::Draft => true,
            InvoiceStatus::Completed => n > 0,
        }
    }

    /// Whether lines may still be added and removed.
    pub fn is_draft(&self) -> (r: bool)
        ensures
            r == (self@.invoice.status == InvoiceStatus::Draft),
    {
        match self.invoice.status {
            InvoiceStatus::Draft => true,
            InvoiceStatus::Completed => false,
        }
    }

    /// Adds a line for `item` and derives the header amounts afresh.
    ///
    /// The line copies the item's name, unit and tax rate; its buying price
    /// is `price_override` where one is given, else the item's price. The
    /// new line is returned. On an error the invoice is left as it was:
    /// `InvoiceNotDraft` for a completed invoice, else what `compute_line`
    /// says of the inputs, else `DuplicateLine` where the item already has a
    /// line, else `LimitExceeded` where the new sums do not fit.
    pub fn add_line_item(
        &mut self,
        item: &Item,
        price_override: Option<i64>,
        quantity: i64,
        discount: i32,
    ) -> (r: Result<InvoiceItem, InvoiceError>)
        requires
            old(self).wf(),
        ensures
            final(self).wf(),
            match add_line_outcome(old(self)@, item@, price_override, quantity, discount) {
                Ok(a) => r is Ok && final(self)@ == a && r->Ok_0@ == a.line_items.last(),
                Err(e) => r == Err::<InvoiceItem, InvoiceError>(e) && final(self)@ == old(self)@,
            },
    {
        if !self.is_draft() {
            return Err(InvoiceError::InvoiceNotDraft);
        }
        let buying_price = match price_override {
            Some(p) => p,
            None => item.price,
        };
        let totals = match compute_line(buying_price, quantity, discount, item.tax_rate) {
            Ok(t) => t,
            Err(e) => {
                return Err(e);
            },
        };
        if find_line(&self.line_items, item.id).is_some() {
            return Err(InvoiceError::DuplicateLine);
        }
        let line = InvoiceItem {
            invoice_id: self.invoice.id,
            item_id: item.id,
            name: item.name.clone(),
            unit: item.unit.clone(),
            tax_rate: item.tax_rate,
            discount,
            quantity,
            buying_price,
            subtotal: totals.subtotal,
            tax_amount: totals.tax_amount,
            selling_price: totals.selling_price,
            total: totals.total,
            note: None,
        };
        let added = line.clone();
        let ghost before = self@;
        let ghost lines = before.line_items.push(line@);
        self.line_items.push(line);
        assert(views(self.line_items@) =~= lines);
        match recompute_rollups(&self.line_items) {
            Some(rollups) => {
                self.invoice.subtotal = rollups.subtotal;
                self.invoice.tax_amount = rollups.tax_amount;
                self.invoice.total = rollups.total;
                proof {
                    lemma_add_line_keeps_wf(before, item@, price_override, quantity, discount);
                }
                Ok(added)
            },
            None => {
                self.line_items.pop();
                assert(views(self.line_items@) =~= before.line_items);
                Err(InvoiceError::LimitExceeded)
            },
        }
    }

    /// Removes the line for the item `item_id` and derives the header
    /// amounts afresh. On an error the invoice is left as it was:
    /// `InvoiceNotDraft` for a completed invoice, `LineNotFound` where the
    /// item has no line.
    pub fn remove_line_item(&mut self, item_id: i32) -> (r: Result<(), InvoiceError>)
        requires
            old(self).wf(),
        ensures
            final(self).wf(),
            match remove_line_outcome(old(self)@, item_id) {
                Ok(a) => r is Ok && final(self)@ == a,
                Err(e) => r == Err::<(), InvoiceError>(e) && final(self)@ == old(self)@,
            },
    {
        if !self.is_draft() {
            return Err(InvoiceError::InvoiceNotDraft);
        }
        let i = match find_line(&self.line_items, item_id) {
            Some(i) => i,
            None => {
                return Err(InvoiceError::LineNotFound);
            },
        };
        let ghost before = self@;
        proof {
            // The lines are for different items, so the line found is the
            // one that the outcome speaks of.
            let k = line_index(before.line_items, item_id);
            assert(before.line_items[i as int].item_id == item_id);
            assert(k == i);
            lemma_remove_line_keeps_wf(before, item_id);
        }
        self.line_items.remove(i);
        assert(views(self.line_items@) =~= before.line_items.remove(i as int));
        match recompute_rollups(&self.line_items) {
            Some(rollups) => {
                self.invoice.subtotal = rollups.subtotal;
                self.invoice.tax_amount = rollups.tax_amount;
                self.invoice.total = rollups.total;
            },
            None => {
                assert(false);
            },
        }
        Ok(())
    }

    /// Completes the invoice: derives the header amounts a last time and
    /// freezes them with the lines. Returns the completed header. On an
    /// error the invoice is left as it was: `InvoiceNotDraft` where it is
    /// completed already, `EmptyInvoice` where it has no line.
    pub fn complete(&mut self) -> (r: Result<Invoice, InvoiceError>)
        requires
            old(self).wf(),
        ensures
            final(self).wf(),
            match complete_outcome(old(self)@) {
                Ok(a) => r is Ok && final(self)@ == a && r->Ok_0@ == a.invoice,
                Err(e) => r == Err::<Invoice, InvoiceError>(e) && final(self)@ == old(self)@,
            },
    {
        if !self.is_draft() {
            return Err(InvoiceError::InvoiceNotDraft);
        }
        if self.line_items.len() == 0 {
            return Err(InvoiceError::EmptyInvoice);
        }
        proof {
            lemma_recompute_changes_nothing(self@);
            lemma_complete_keeps_wf(self@);
        }
        match recompute_rollups(&self.line_items) {
            Some(rollups) => {
                self.invoice.subtotal = rollups.subtotal;
                self.invoice.tax_amount = rollups.tax_amount;
                self.invoice.total = rollups.total;
            },
            None => {
                assert(false);
            },
        }
        self.invoice.status = InvoiceStatus::Completed;
        Ok(self.invoice.clone())
    }

    /// Whether the invoice may be deleted: `InvoiceNotDraft` where it is
    /// completed.
    pub fn check_deletable(&self) -> (r: Result<(), InvoiceError>)
        ensures
            r == delete_outcome(self@),
    {
        if self.is_draft() {
            Ok(())
        } else {
            Err(InvoiceError::InvoiceNotDraft)
        }
    }
}

/// Adding a line keeps the invariant of the invoice: the amounts of the
/// header are again the sums over the lines.
pub proof fn lemma_add_line_keeps_wf(
    a: AggregateView,
    item: ItemView,
    price_override: Option<i64>,
    quantity: i64,
    discount: i32,
)
    requires
        a.wf(),
    ensures
        add_line_outcome(a, item, price_override, quantity, discount) matches Ok(b) ==> b.wf(),
{
    if let Ok(b) = add_line_outcome(a, item, price_override, quantity, discount) {
        let line = b.line_items.last();
        assert(b.line_items == a.line_items.push(line));
        assert(line_wf(line));
        assert(lines_wf(b.line_items));
        lemma_sums_nonnegative(b.line_items);
    }
}

/// Removing a line keeps the invariant of the invoice, and the sums over
/// the remaining lines always fit.
pub proof fn lemma_remove_line_keeps_wf(a: AggregateView, item_id: i32)
    requires
        a.wf(),
    ensures
        remove_line_outcome(a, item_id) matches Ok(b) ==> b.wf() && rollups_fit(b.line_items),
{
    if let Ok(b) = remove_line_outcome(a, item_id) {
        let i = line_index(a.line_items, item_id);
        assert(b.line_items == a.line_items.remove(i));
        assert(lines_wf(b.line_items));
        lemma_sums_after_remove(a.line_items, i);
        lemma_line_wf_nonnegative(a.line_items[i]);
        lemma_sums_nonnegative(b.line_items);
    }
}

/// Deriving the amounts of a well-formed invoice once more changes
/// nothing: they are the sums over its lines already.
pub proof fn lemma_recompute_changes_nothing(a: AggregateView)
    requires
        a.wf(),
    ensures
        recompute_outcome(a.line_items) == Some(
            Rollups {
                subtotal: a.invoice.subtotal,
                tax_amount: a.invoice.tax_amount,
                total: a.invoice.total,
            },
        ),
        a.with_lines(a.line_items) == a,
{
    lemma_sums_nonnegative(a.line_items);
}

/// Completing an invoice keeps its invariant and changes no amount.
pub proof fn lemma_complete_keeps_wf(a: AggregateView)
    requires
        a.wf(),
    ensures
        complete_outcome(a) matches Ok(b) ==> b.wf() && b == a.completed(),
{
    lemma_recompute_changes_nothing(a);
}

} // verus!
