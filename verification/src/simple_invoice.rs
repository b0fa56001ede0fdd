//! A plain invoice design: two blocks of addresses, the transaction
//! reference, and a table of the lines with the totals below.

use vstd::prelude::*;
use crate::invoice::{law_totals_add_up, Invoice};
use crate::layout::{
    frame_padding, text_padding, Block, BlockView, Cell, CellView, Padding, PrintLayout,
    PrintLayoutView, Table, TableView, row_view,
};
use crate::text::{decimal, decimal_text};
use crate::types::{
    Item, ItemView, ParsedInvoice, ParsedInvoiceView, PersonalInfoView, RawInvoice,
};

verus! {

/// An amount of money as it is printed: the number, a space, the currency.
pub open spec fn money_text(amount: nat, currency: Seq<char>) -> Seq<char> {
    decimal_text(amount) + " "@ + currency
}

/// A tax rate as it is printed: the number and a percent sign.
pub open spec fn percent_text(rate: nat) -> Seq<char> {
    decimal_text(rate) + "%"@
}

/// The lines of an address block, from the name down to the country.
pub open spec fn party_lines(party: PersonalInfoView) -> Seq<CellView> {
    seq![
        CellView::plain(party.name),
        CellView::plain(party.email),
        CellView::plain(party.addr_one),
        CellView::plain(party.addr_two),
        CellView::plain(party.postal),
        CellView::plain(party.state),
        CellView::plain(party.country),
    ]
}

/// A bold title above a column of a borderless table.
pub open spec fn column_title(text: Seq<char>) -> CellView {
    CellView::heading(text).with_padding(text_padding())
}

/// The rows of a table of two columns: the cells of `left` beside those of
/// `right`.
pub open spec fn side_by_side(left: Seq<CellView>, right: Seq<CellView>) -> Seq<Seq<CellView>>
    recommends
        left.len() == right.len(),
{
    Seq::new(left.len(), |i: int| seq![left[i], right[i]])
}

/// The table at the top of the page. On the left the sender; on the right
/// the invoice's number and dates and, beside the sender's last lines, the
/// wallet to pay to.
pub open spec fn header_table_of(invoice: ParsedInvoiceView) -> TableView {
    let left = seq![column_title("From"@)] + party_lines(invoice.from) + seq![CellView::blank()];
    let right = seq![
        column_title("Invoice"@).to_right(),
        CellView::plain("Invoice #"@ + decimal_text(invoice.data.invoice_number)).to_right(),
        CellView::plain("Issued on: "@ + invoice.data.issue_date).to_right(),
        CellView::plain("Payment due by: "@ + invoice.data.due_date).to_right(),
        CellView::blank(),
        CellView::blank(),
        column_title("Wallet Address"@).to_right(),
        CellView::plain(invoice.payment.wallet_address).to_right(),
        CellView::blank(),
    ];
    TableView { weights: seq![3usize, 7usize], framed: false, rows: side_by_side(left, right) }
}

/// The table below the header. On the left the recipient; on the right the
/// currency that payment is expected in.
pub open spec fn billing_table_of(invoice: ParsedInvoiceView) -> TableView {
    let left = seq![column_title("Billed to"@)] + party_lines(invoice.to);
    let right = seq![
        column_title("Expected payment method"@).to_right(),
        CellView::plain(invoice.payment.currency).to_right(),
        CellView::blank(),
        CellView::blank(),
        CellView::blank(),
        CellView::blank(),
        CellView::blank(),
        CellView::blank(),
    ];
    TableView { weights: seq![1usize, 1usize], framed: false, rows: side_by_side(left, right) }
}

/// A cell of the table of lines that holds a figure.
pub open spec fn figure(text: Seq<char>) -> CellView {
    CellView::plain(text).to_right().with_padding(frame_padding())
}

/// A bold title above a column of figures.
pub open spec fn figure_title(text: Seq<char>) -> CellView {
    CellView::heading(text).to_right().with_padding(frame_padding())
}

/// The first row of the table of lines.
pub open spec fn titles_row() -> Seq<CellView> {
    seq![
        CellView::heading("Description"@).with_padding(frame_padding()),
        figure_title("Qty"@),
        figure_title("Unit Price"@),
        figure_title("Tax"@),
        figure_title("Amount"@),
    ]
}

/// The row of one line: description, quantity, unit price, tax rate and
/// total, the two amounts with the currency.
pub open spec fn item_row(item: ItemView, currency: Seq<char>) -> Seq<CellView> {
    seq![
        CellView::plain(item.description).with_padding(frame_padding()),
        figure(decimal_text(item.quantity)),
        figure(money_text(item.unit_price, currency)),
        figure(percent_text(item.tax_percent)),
        figure(money_text(item.total, currency)),
    ]
}

/// A row of the totals: a bold label in the first column and the amount,
/// bold too, in the last.
pub open spec fn total_row(label: Seq<char>, amount: nat, currency: Seq<char>) -> Seq<CellView> {
    seq![
        CellView::heading(label).with_padding(frame_padding()),
        CellView::blank().with_padding(frame_padding()),
        CellView::blank().with_padding(frame_padding()),
        CellView::blank().with_padding(frame_padding()),
        figure_title(money_text(amount, currency)),
    ]
}

/// The four rows of the totals: untaxed subtotal, tax subtotal, grand total
/// and amount due, in this order.
pub open spec fn total_rows(invoice: ParsedInvoiceView) -> Seq<Seq<CellView>> {
    let currency = invoice.payment.currency;
    seq![
        total_row("Total without tax"@, invoice.total.no_tax, currency),
        total_row("Total Tax Amount"@, invoice.total.tax_amount, currency),
        total_row("Total Amount"@, invoice.total.amount, currency),
        total_row("Amount Due"@, invoice.total.amount_due, currency),
    ]
}

/// The rows of the lines, one for each and in their order.
pub open spec fn item_rows(items: Seq<ItemView>, currency: Seq<char>) -> Seq<Seq<CellView>> {
    items.map_values(|item: ItemView| item_row(item, currency))
}

/// The table of lines: the titles, a row for each line in the invoice's
/// order, and the totals.
pub open spec fn items_table_of(invoice: ParsedInvoiceView) -> TableView {
    TableView {
        weights: seq![4usize, 1usize, 2usize, 1usize, 2usize],
        framed: true,
        rows: seq![titles_row()] + item_rows(invoice.items, invoice.payment.currency) + total_rows(
            invoice,
        ),
    }
}

/// The printed invoice, from top to bottom.
pub open spec fn print_layout_of(invoice: ParsedInvoiceView) -> PrintLayoutView {
    PrintLayoutView {
        title: "invoice"@,
        margin: 10,
        blocks: seq![
            BlockView::Break { half_lines: 3 },
            BlockView::Table(header_table_of(invoice)),
            BlockView::Table(billing_table_of(invoice)),
            BlockView::Break { half_lines: 4 },
            BlockView::Paragraph(column_title("Transaction"@)),
            BlockView::Paragraph(CellView::plain(invoice.payment.tx)),
            BlockView::Break { half_lines: 4 },
            BlockView::Table(items_table_of(invoice)),
        ],
    }
}

/// The text of a literal.
fn label(text: &str) -> (owned: String)
    ensures
        owned@ == text@,
{
    String::from_str(text)
}

/// `head` followed by `tail`.
fn joined(head: &str, tail: &str) -> (text: String)
    ensures
        text@ == head@ + tail@,
{
    let mut text = String::from_str(head);
    text.append(tail);
    text
}

/// An amount of money as it is printed: the number, a space, the currency.
pub fn money(amount: u128, currency: &str) -> (text: String)
    ensures
        text@ == money_text(amount as nat, currency@),
{
    let mut text = decimal(amount);
    text.append(" ");
    text.append(currency);
    text
}

/// A tax rate as it is printed: the number and a percent sign.
pub fn percent(rate: u8) -> (text: String)
    ensures
        text@ == percent_text(rate as nat),
{
    let mut text = decimal(rate as u128);
    text.append("%");
    text
}

/// A bold title above a column of a borderless table.
fn title_cell(text: &str) -> (cell: Cell)
    ensures
        cell@ == column_title(text@),
{
    Cell::heading(label(text)).with_padding(Padding::text())
}

/// A cell of the table of lines that holds a figure.
fn figure_cell(text: String) -> (cell: Cell)
    ensures
        cell@ == figure(text@),
{
    Cell::plain(text).to_right().with_padding(Padding::frame())
}

/// A bold title above a column of figures.
fn figure_title_cell(text: String) -> (cell: Cell)
    ensures
        cell@ == figure_title(text@),
{
    Cell::heading(text).to_right().with_padding(Padding::frame())
}

/// A row of two cells.
fn pair(left: Cell, right: Cell) -> (row: Vec<Cell>)
    ensures
        row.len() == 2,
        row_view(row@) == seq![left@, right@],
{
    let row = vec![left, right];
    assert(row_view(row@) =~= seq![left@, right@]);
    row
}

/// The table at the top of the page: the sender beside the invoice's number
/// and dates and the wallet to pay to.
pub fn header_table(invoice: &ParsedInvoice) -> (table: Table)
    ensures
        table@ == header_table_of(invoice@),
        table@.well_formed(),
{
    let from = &invoice.from;
    let number = decimal(invoice.data.invoice_number as u128);
    let mut table = Table::new(vec![3, 7], false);
    table.push_row(pair(title_cell("From"), title_cell("Invoice").to_right()));
    table.push_row(
        pair(Cell::plain(from.name.clone()), Cell::plain(joined("Invoice #", number.as_str())).to_right()),
    );
    table.push_row(
        pair(
            Cell::plain(from.email.clone()),
            Cell::plain(joined("Issued on: ", invoice.data.issue_date.as_str())).to_right(),
        ),
    );
    table.push_row(
        pair(
            Cell::plain(from.addr_one.clone()),
            Cell::plain(joined("Payment due by: ", invoice.data.due_date.as_str())).to_right(),
        ),
    );
    table.push_row(pair(Cell::plain(from.addr_two.clone()), Cell::blank()));
    table.push_row(pair(Cell::plain(from.postal.clone()), Cell::blank()));
    table.push_row(pair(Cell::plain(from.state.clone()), title_cell("Wallet Address").to_right()));
    table.push_row(
        pair(
            Cell::plain(from.country.clone()),
            Cell::plain(invoice.payment.wallet_address.clone()).to_right(),
        ),
    );
    table.push_row(pair(Cell::blank(), Cell::blank()));
    assert(table@.rows =~= header_table_of(invoice@).rows);
    table
}

/// The table below the header: the recipient beside the currency that
/// payment is expected in.
pub fn billing_table(invoice: &ParsedInvoice) -> (table: Table)
    ensures
        table@ == billing_table_of(invoice@),
        table@.well_formed(),
{
    let to = &invoice.to;
    let mut table = Table::new(vec![1, 1], false);
    table.push_row(pair(title_cell("Billed to"), title_cell("Expected payment method").to_right()));
    table.push_row(
        pair(Cell::plain(to.name.clone()), Cell::plain(invoice.payment.currency.clone()).to_right()),
    );
    table.push_row(pair(Cell::plain(to.email.clone()), Cell::blank()));
    table.push_row(pair(Cell::plain(to.addr_one.clone()), Cell::blank()));
    table.push_row(pair(Cell::plain(to.addr_two.clone()), Cell::blank()));
    table.push_row(pair(Cell::plain(to.postal.clone()), Cell::blank()));
    table.push_row(pair(Cell::plain(to.state.clone()), Cell::blank()));
    table.push_row(pair(Cell::plain(to.country.clone()), Cell::blank()));
    assert(table@.rows =~= billing_table_of(invoice@).rows);
    table
}


/// The first row of the table of lines.
fn titles() -> (row: Vec<Cell>)
    ensures
        row.len() == 5,
        row_view(row@) == titles_row(),
{
    let row = vec![
        Cell::heading(label("Description")).with_padding(Padding::frame()),
        figure_title_cell(label("Qty")),
        figure_title_cell(label("Unit Price")),
        figure_title_cell(label("Tax")),
        figure_title_cell(label("Amount")),
    ];
    assert(row_view(row@) =~= titles_row());
    row
}

/// The row of one line.
fn item_cells(item: &Item, currency: &str) -> (row: Vec<Cell>)
    ensures
        row.len() == 5,
        row_view(row@) == item_row(item@, currency@),
{
    let row = vec![
        Cell::plain(item.description.clone()).with_padding(Padding::frame()),
        figure_cell(decimal(item.quantity as u128)),
        figure_cell(money(item.unit_price as u128, currency)),
        figure_cell(percent(item.tax_percent)),
        figure_cell(money(item.total as u128, currency)),
    ];
    assert(row_view(row@) =~= item_row(item@, currency@));
    row
}

/// A row of the totals.
fn total_cells(text: &str, amount: u128, currency: &str) -> (row: Vec<Cell>)
    ensures
        row.len() == 5,
        row_view(row@) == total_row(text@, amount as nat, currency@),
{
    let row = vec![
        Cell::heading(label(text)).with_padding(Padding::frame()),
        Cell::blank().with_padding(Padding::frame()),
        Cell::blank().with_padding(Padding::frame()),
        Cell::blank().with_padding(Padding::frame()),
        figure_title_cell(money(amount, currency)),
    ];
    assert(row_view(row@) =~= total_row(text@, amount as nat, currency@));
    row
}

/// The table of lines: the titles, a row for each line in the invoice's
/// order, and the totals.
pub fn items_table(invoice: &ParsedInvoice) -> (table: Table)
    ensures
        table@ == items_table_of(invoice@),
        table@.well_formed(),
        table.rows.len() == invoice.items.len() + 5,
{
    let currency = invoice.payment.currency.as_str();
    let ghost lines = invoice@.items;
    let mut table = Table::new(vec![4, 1, 2, 1, 2], true);
    table.push_row(titles());
    let mut i: usize = 0;
    while i < invoice.items.len()
        invariant
            i <= invoice.items.len(),
            lines == invoice@.items,
            currency@ == invoice@.payment.currency,
            table@.weights == seq![4usize, 1usize, 2usize, 1usize, 2usize],
            table@.framed,
            table@.rows == seq![titles_row()] + item_rows(lines.take(i as int), currency@),
            table@.well_formed(),
        decreases invoice.items.len() - i,
    {
        table.push_row(item_cells(&invoice.items[i], currency));
        proof {
            assert(item_rows(lines.take(i as int), currency@).push(item_row(lines[i as int], currency@))
                =~= item_rows(lines.take(i + 1), currency@));
            assert(table@.rows =~= seq![titles_row()] + item_rows(lines.take(i + 1), currency@));
        }
        i = i + 1;
    }
    proof {
        assert(lines.take(i as int) =~= lines);
    }
    table.push_row(total_cells("Total without tax", invoice.total.no_tax, currency));
    table.push_row(total_cells("Total Tax Amount", invoice.total.tax_amount, currency));
    table.push_row(total_cells("Total Amount", invoice.total.amount, currency));
    table.push_row(total_cells("Amount Due", invoice.total.amount_due, currency));
    assert(table@.rows =~= items_table_of(invoice@).rows);
    assert(table.rows.len() == table@.rows.len());
    table
}

/// Simple invoice design. The style is nothing to write home about, but it
/// does its job.
pub struct SimpleInvoice {
    invoice: ParsedInvoice,
}

impl Invoice for SimpleInvoice {}

impl View for SimpleInvoice {
    type V = ParsedInvoiceView;

    /// The refined invoice that the design shows.
    closed spec fn view(&self) -> ParsedInvoiceView {
        self.invoice@
    }
}

impl SimpleInvoice {
    /// The invoice was refined by this library, so its figures agree.
    #[verifier::type_invariant]
    spec fn holds_refined(self) -> bool {
        self.invoice@.reconciled()
    }

    /// Refines `raw` and keeps the result for printing.
    pub fn new(raw: RawInvoice) -> (simple: SimpleInvoice)
        ensures
            simple@ == raw@.refined(),
    {
        SimpleInvoice { invoice: Self::parse_raw_invoice(raw) }
    }

    /// The refined invoice. Its figures agree with each other, whichever
    /// invoice it was made from.
    pub fn invoice(&self) -> (invoice: &ParsedInvoice)
        ensures
            invoice@ == self@,
            invoice@.reconciled(),
            invoice.total.amount == invoice.total.no_tax + invoice.total.tax_amount,
            invoice.total.amount_due == invoice.total.amount,
    {
        proof {
            use_type_invariant(self);
            law_totals_add_up(self.invoice@);
        }
        &self.invoice
    }

    /// The printed invoice, from top to bottom: the sender with the
    /// invoice's number and dates, the recipient, the transaction reference,
    /// and the lines with the totals. Every row of every table has one cell
    /// for each column.
    pub fn print_layout(&self) -> (layout: PrintLayout)
        ensures
            layout@ == print_layout_of(self@),
            layout@.well_formed(),
    {
        let invoice = &self.invoice;
        let blocks = vec![
            Block::Break { half_lines: 3 },
            Block::Table(header_table(invoice)),
            Block::Table(billing_table(invoice)),
            Block::Break { half_lines: 4 },
            Block::Paragraph(title_cell("Transaction")),
            Block::Paragraph(Cell::plain(invoice.payment.tx.clone())),
            Block::Break { half_lines: 4 },
            Block::Table(items_table(invoice)),
        ];
        let layout = PrintLayout { title: label("invoice"), margin: 10, blocks };
        assert(layout@.blocks =~= print_layout_of(self@).blocks);
        layout
    }

    /// The name of the file that the printed invoice is written to:
    /// `file_name` with the extension `.pdf`.
    pub fn pdf_file_name(file_name: &str) -> (path: String)
        ensures
            path@ == file_name@ + ".pdf"@,
    {
        joined(file_name, ".pdf")
    }

    /// The name of the file that the invoice is written to as a web page:
    /// `file_name` with the extension `.html`.
    pub fn html_file_name(file_name: &str) -> (path: String)
        ensures
            path@ == file_name@ + ".html"@,
    {
        joined(file_name, ".html")
    }
}


} // verus!
