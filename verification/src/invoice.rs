//! Refinement: from an invoice's line items to their totals.
//!
//! The tax on a line is computed on the price of one unit and truncated to a
//! whole number of minor currency units before it is multiplied by the
//! quantity. Nothing is rounded afterwards, so the totals of an invoice are
//! exactly the sums of what its lines show.

use vstd::prelude::*;
use crate::types::{
    Item, ItemRaw, ItemRawView, ItemView, ParsedInvoice, ParsedInvoiceView, Payment, PaymentView,
    RawInvoice, RawInvoiceView, Total, TotalView,
};

verus! {

impl ItemRawView {
    /// Tax on one unit: the rate applied to the unit price, the fraction of
    /// a minor currency unit dropped.
    pub open spec fn unit_tax(self) -> nat {
        self.amount * self.tax_percent / 100
    }

    /// Price of the line before tax.
    pub open spec fn untaxed(self) -> nat {
        self.amount * self.quantity
    }

    /// Tax on the whole line.
    pub open spec fn tax(self) -> nat {
        self.unit_tax() * self.quantity
    }

    /// Price of the line, tax included.
    pub open spec fn total(self) -> nat {
        (self.amount + self.unit_tax()) * self.quantity
    }

    /// The line as it stands on a refined invoice.
    pub open spec fn refined(self) -> ItemView {
        ItemView {
            description: self.description,
            quantity: self.quantity,
            unit_price: self.amount,
            tax_percent: self.tax_percent,
            total: self.total(),
        }
    }
}

/// Sum of `part` over `items`.
pub open spec fn sum_of(items: Seq<ItemRawView>, part: spec_fn(ItemRawView) -> nat) -> nat
    decreases items.len(),
{
    if items.len() == 0 {
        0
    } else {
        sum_of(items.drop_last(), part) + part(items.last())
    }
}

/// What the lines of an invoice cost before tax.
pub open spec fn untaxed_subtotal(items: Seq<ItemRawView>) -> nat {
    sum_of(items, |item: ItemRawView| item.untaxed())
}

/// The tax on all lines of an invoice.
pub open spec fn tax_subtotal(items: Seq<ItemRawView>) -> nat {
    sum_of(items, |item: ItemRawView| item.tax())
}

/// What the lines of an invoice cost, tax included.
pub open spec fn grand_total(items: Seq<ItemRawView>) -> nat {
    sum_of(items, |item: ItemRawView| item.total())
}

/// The totals block of an invoice with the lines `items`. Nothing has been
/// paid on a fresh invoice, so the whole amount is due.
pub open spec fn totals_of(items: Seq<ItemRawView>) -> TotalView {
    TotalView {
        no_tax: untaxed_subtotal(items),
        tax_amount: tax_subtotal(items),
        amount: grand_total(items),
        amount_due: grand_total(items),
    }
}

/// `text` between two double quotes.
pub open spec fn quoted(text: Seq<char>) -> Seq<char> {
    seq!['"'] + text + seq!['"']
}

impl RawInvoiceView {
    /// The refined invoice: parties and metadata as they are, every line
    /// with its total, in the same order, the totals of all lines, and the
    /// transaction reference in quotes.
    pub open spec fn refined(self) -> ParsedInvoiceView {
        ParsedInvoiceView {
            from: self.from,
            to: self.to,
            items: self.items.map_values(|item: ItemRawView| item.refined()),
            total: totals_of(self.items),
            payment: PaymentView {
                wallet_address: self.payment.wallet_address,
                currency: self.payment.currency,
                tx: quoted(self.payment.tx),
            },
            data: self.data,
        }
    }
}

impl ItemView {
    /// The unrefined line that this line was computed from.
    pub open spec fn raw(self) -> ItemRawView {
        ItemRawView {
            description: self.description,
            quantity: self.quantity,
            amount: self.unit_price,
            tax_percent: self.tax_percent,
        }
    }
}

impl ParsedInvoiceView {
    /// The unrefined lines behind the lines of this invoice.
    pub open spec fn raw_items(self) -> Seq<ItemRawView> {
        self.items.map_values(|item: ItemView| item.raw())
    }

    /// The figures of the invoice agree with each other: the total of every
    /// line follows from its unit price, tax rate and quantity, and the
    /// totals are those of the lines.
    pub open spec fn reconciled(self) -> bool {
        &&& forall|i: int|
            0 <= i < self.items.len() ==> (#[trigger] self.items[i]).total
                == self.items[i].raw().total()
        &&& self.total == totals_of(self.raw_items())
    }
}

/// No line total exceeds this: the largest unit price with the largest tax
/// rate, times the largest quantity.
pub const LINE_MAX: u64 = 3_888_019_143_735;

/// Every figure of a line fits in 64 bits with room to spare.
pub proof fn lemma_line_bounds(item: ItemRaw)
    ensures
        item@.amount * item@.tax_percent <= 1_095_216_660_225,
        item@.unit_tax() <= 10_952_166_602,
        item@.untaxed() <= item@.total(),
        item@.tax() <= item@.total(),
        item@.total() == item@.untaxed() + item@.tax(),
        item@.total() <= LINE_MAX,
{
    let a: nat = item@.amount;
    let p: nat = item@.tax_percent;
    let q: nat = item@.quantity;
    let t: nat = item@.unit_tax();
    assert(a * p <= 4_294_967_295 * 255) by (nonlinear_arith)
        requires
            a <= 4_294_967_295,
            p <= 255,
    ;
    assert(t <= 10_952_166_602);
    assert((a + t) * q == a * q + t * q) by (nonlinear_arith);
    assert((a + t) * q <= 15_247_133_897 * 255) by (nonlinear_arith)
        requires
            a + t <= 15_247_133_897,
            q <= 255,
    ;
}

impl ItemRaw {
    /// Tax on one unit of this line.
    pub fn unit_tax(&self) -> (tax: u64)
        ensures
            tax == self@.unit_tax(),
            tax == (self.amount * self.tax_percent) / 100,
    {
        proof {
            lemma_line_bounds(*self);
        }
        (self.amount as u64) * (self.tax_percent as u64) / 100
    }

    /// The line with its total computed.
    pub fn refine(&self) -> (item: Item)
        ensures
            item@ == self@.refined(),
            item.total == (self.amount + self@.unit_tax()) * self.quantity,
    {
        proof {
            lemma_line_bounds(*self);
        }
        let tax: u64 = self.unit_tax();
        Item {
            description: self.description.clone(),
            quantity: self.quantity,
            unit_price: self.amount,
            tax_percent: self.tax_percent,
            total: (self.amount as u64 + tax) * (self.quantity as u64),
        }
    }
}

/// Adding a line to a list adds its part to the sum.
proof fn lemma_sum_of_push(
    items: Seq<ItemRawView>,
    item: ItemRawView,
    part: spec_fn(ItemRawView) -> nat,
)
    ensures
        sum_of(items.push(item), part) == sum_of(items, part) + part(item),
{
    assert(items.push(item).drop_last() =~= items);
}

/// The totals after one more line.
proof fn lemma_totals_push(items: Seq<ItemRawView>, item: ItemRawView)
    ensures
        totals_of(items.push(item)) == (TotalView {
            no_tax: totals_of(items).no_tax + item.untaxed(),
            tax_amount: totals_of(items).tax_amount + item.tax(),
            amount: totals_of(items).amount + item.total(),
            amount_due: totals_of(items).amount_due + item.total(),
        }),
{
    lemma_sum_of_push(items, item, |item: ItemRawView| item.untaxed());
    lemma_sum_of_push(items, item, |item: ItemRawView| item.tax());
    lemma_sum_of_push(items, item, |item: ItemRawView| item.total());
}

/// `text` wrapped in a double quote on each side.
pub fn quote(text: &str) -> (wrapped: String)
    ensures
        wrapped@ == quoted(text@),
{
    proof {
        reveal_strlit("\"");
    }
    let mut wrapped = String::from_str("\"");
    wrapped.append(text);
    wrapped.append("\"");
    assert(wrapped@ =~= quoted(text@));
    wrapped
}

/// Refines an invoice: computes the total of every line and the totals of
/// the invoice, and wraps the transaction reference in quotes.
///
/// The lines come out in the order in which they went in. The quotes are
/// added on every call: an invoice is to be refined once.
pub fn refine(data: RawInvoice) -> (refined: ParsedInvoice)
    ensures
        refined@ == data@.refined(),
        refined@.reconciled(),
        refined.items.len() == data.items.len(),
        forall|i: int|
            0 <= i < data.items.len() ==> (#[trigger] refined.items[i])@ == data.items[i]@.refined(),
        refined@.total == totals_of(data@.items),
        refined.total.amount == refined.total.no_tax + refined.total.tax_amount,
        refined.total.amount_due == refined.total.amount,
        refined.payment@.tx == quoted(data.payment@.tx),
{
    let ghost lines = data@.items;
    let mut items: Vec<Item> = Vec::new();
    let mut total = Total { no_tax: 0, tax_amount: 0, amount: 0, amount_due: 0 };
    let mut i: usize = 0;
    while i < data.items.len()
        invariant
            i <= data.items.len(),
            lines == data@.items,
            items.len() == i,
            forall|k: int| 0 <= k < i ==> (#[trigger] items[k])@ == data.items[k]@.refined(),
            total@ == totals_of(lines.take(i as int)),
            total.amount == total.no_tax + total.tax_amount,
            total.amount_due == total.amount,
            total.amount <= i * LINE_MAX,
        decreases data.items.len() - i,
    {
        let raw = &data.items[i];
        let item = raw.refine();
        proof {
            lemma_line_bounds(*raw);
            assert(lines.take(i as int).push(raw@) =~= lines.take(i + 1));
            lemma_totals_push(lines.take(i as int), raw@);
        }
        total.no_tax = total.no_tax + (item.unit_price as u128) * (item.quantity as u128);
        total.tax_amount = total.tax_amount + (raw.unit_tax() as u128) * (item.quantity as u128);
        total.amount = total.amount + item.total as u128;
        total.amount_due = total.amount_due + item.total as u128;
        items.push(item);
        i = i + 1;
    }
    proof {
        assert(lines.take(i as int) =~= lines);
    }
    let payment = Payment {
        wallet_address: data.payment.wallet_address,
        currency: data.payment.currency,
        tx: quote(data.payment.tx.as_str()),
    };
    let refined = ParsedInvoice {
        from: data.from,
        to: data.to,
        items,
        total,
        payment,
        data: data.data,
    };
    proof {
        assert(refined@.items =~= data@.refined().items);
        law_refined_is_reconciled(data@);
    }
    refined
}

/// An invoice design. Every design refines its data in the same way, by
/// [`refine`]; what a design adds is how the refined invoice is shown.
pub trait Invoice {
    /// Takes raw invoice data and turns it into a `ParsedInvoice`.
    fn parse_raw_invoice(data: RawInvoice) -> (parsed: ParsedInvoice)
        ensures
            parsed@ == data@.refined(),
            parsed@.reconciled(),
    {
        refine(data)
    }
}

/// The grand total is the untaxed subtotal plus the tax subtotal, whatever
/// the lines are.
pub proof fn lemma_grand_total_splits(items: Seq<ItemRawView>)
    ensures
        grand_total(items) == untaxed_subtotal(items) + tax_subtotal(items),
    decreases items.len(),
{
    if items.len() > 0 {
        let last = items.last();
        lemma_grand_total_splits(items.drop_last());
        assert((last.amount + last.unit_tax()) * last.quantity == last.amount * last.quantity
            + last.unit_tax() * last.quantity) by (nonlinear_arith);
    }
}

/// What refinement returns is reconciled, whatever the invoice: its grand
/// total is its untaxed subtotal plus its tax subtotal, and its amount due
/// is its grand total.
pub proof fn law_refined_is_reconciled(invoice: RawInvoiceView)
    ensures
        invoice.refined().reconciled(),
        invoice.refined().total.amount == invoice.refined().total.no_tax
            + invoice.refined().total.tax_amount,
        invoice.refined().total.amount_due == invoice.refined().total.amount,
{
    assert(invoice.refined().raw_items() =~= invoice.items);
    lemma_grand_total_splits(invoice.items);
}

/// On every reconciled invoice the grand total is the untaxed subtotal plus
/// the tax subtotal, and the amount due is the grand total.
pub proof fn law_totals_add_up(invoice: ParsedInvoiceView)
    requires
        invoice.reconciled(),
    ensures
        invoice.total.amount == invoice.total.no_tax + invoice.total.tax_amount,
        invoice.total.amount_due == invoice.total.amount,
{
    lemma_grand_total_splits(invoice.raw_items());
}

/// Two lists of lines that agree, line by line, on unit price, tax rate and
/// quantity have the same sum of any part that depends on these alone.
proof fn lemma_sum_of_same_numbers(
    a: Seq<ItemRawView>,
    b: Seq<ItemRawView>,
    part: spec_fn(ItemRawView) -> nat,
)
    requires
        a.len() == b.len(),
        forall|i: int| 0 <= i < a.len() ==> part(#[trigger] a[i]) == part(b[i]),
    ensures
        sum_of(a, part) == sum_of(b, part),
    decreases a.len(),
{
    if a.len() > 0 {
        lemma_sum_of_same_numbers(a.drop_last(), b.drop_last(), part);
    }
}

/// The figures of a refined invoice depend on the numbers of its lines
/// alone: two invoices whose lines agree, one by one, on unit price, tax
/// rate and quantity get the same totals and the same total on every line.
/// In particular, refining the same invoice again gives the same figures.
pub proof fn law_figures_follow_numbers(a: RawInvoiceView, b: RawInvoiceView)
    requires
        a.items.len() == b.items.len(),
        forall|i: int|
            0 <= i < a.items.len() ==> {
                &&& (#[trigger] a.items[i]).amount == b.items[i].amount
                &&& a.items[i].tax_percent == b.items[i].tax_percent
                &&& a.items[i].quantity == b.items[i].quantity
            },
    ensures
        a.refined().total == b.refined().total,
        a.refined().items.len() == b.refined().items.len(),
        forall|i: int|
            0 <= i < a.items.len() ==> (#[trigger] a.refined().items[i]).total
                == b.refined().items[i].total,
{
    lemma_sum_of_same_numbers(a.items, b.items, |item: ItemRawView| item.untaxed());
    lemma_sum_of_same_numbers(a.items, b.items, |item: ItemRawView| item.tax());
    lemma_sum_of_same_numbers(a.items, b.items, |item: ItemRawView| item.total());
    assert forall|i: int| 0 <= i < a.items.len() implies (#[trigger] a.refined().items[i]).total
        == b.refined().items[i].total by {
        assert(a.items[i].amount == b.items[i].amount);
    }
}

/// Refining an invoice twice gives the same totals and the same total on
/// every line both times.
pub proof fn law_refine_repeatable(first: RawInvoice, second: RawInvoice)
    requires
        first@ == second@,
    ensures
        first@.refined().total == second@.refined().total,
        first@.refined().items.len() == second@.refined().items.len(),
        forall|i: int|
            0 <= i < first@.items.len() ==> (#[trigger] first@.refined().items[i]).total
                == second@.refined().items[i].total,
{
}

/// Quoting is not idempotent: text that is quoted again carries two quotes
/// on each side, and so differs from the text quoted once.
pub proof fn law_quoting_accumulates(text: Seq<char>)
    ensures
        quoted(quoted(text)) == seq!['"', '"'] + text + seq!['"', '"'],
        quoted(quoted(text)).len() == quoted(text).len() + 2,
        quoted(quoted(text)) != quoted(text),
{
    assert(quoted(quoted(text)) =~= seq!['"', '"'] + text + seq!['"', '"']);
}

/// Refinement keeps the lines in place: the refined invoice has as many
/// lines as the unrefined one, and the line at each position carries the
/// description, quantity, unit price and tax rate of the line that stood
/// there, also where descriptions repeat.
pub proof fn law_order_preserved(invoice: RawInvoiceView)
    ensures
        invoice.refined().items.len() == invoice.items.len(),
        forall|i: int|
            0 <= i < invoice.items.len() ==> {
                &&& (#[trigger] invoice.refined().items[i]).description
                    == invoice.items[i].description
                &&& invoice.refined().items[i].quantity == invoice.items[i].quantity
                &&& invoice.refined().items[i].unit_price == invoice.items[i].amount
                &&& invoice.refined().items[i].tax_percent == invoice.items[i].tax_percent
                &&& invoice.refined().items[i].total == invoice.items[i].total()
            },
{
}

} // verus!
