use factura::layout::{Block, Cell, Padding};
use factura::SimpleInvoice;
use factura::types::{InvoiceData, ItemRaw, Payment, PersonalInfo, RawInvoice};

fn services_invoice() -> RawInvoice {
    RawInvoice {
        from: PersonalInfo {
            email: String::from("joe@services.com"),
            name: String::from("Joe's Services"),
            addr_one: String::from("Leuteritzweg"),
            addr_two: String::from("13"),
            postal: String::from("22399"),
            state: String::from("Hamburg"),
            country: String::from("Germany"),
        },
        to: PersonalInfo {
            email: String::from("billing@corp.com"),
            name: String::from("Super Corp"),
            addr_one: String::from("Tegelsbarg"),
            addr_two: String::from("73"),
            postal: String::from("22399"),
            state: String::from("Hamburg"),
            country: String::from("Germany"),
        },
        items: vec![
            ItemRaw {
                description: String::from("Big truck transport fee"),
                quantity: 2,
                amount: 400,
                tax_percent: 20,
            },
            ItemRaw {
                description: String::from("Big truck transport fee"),
                quantity: 2,
                amount: 400,
                tax_percent: 20,
            },
        ],
        payment: Payment {
            wallet_address: String::from("0x123123123123123123123123123"),
            currency: String::from("EURC"),
            tx: String::from("none"),
        },
        data: InvoiceData {
            invoice_number: 376,
            due_date: String::from("16/jan/2025"),
            issue_date: String::from("5/jan/2025"),
        },
    }
}

fn plain(text: &str) -> Cell {
    Cell::plain(String::from(text))
}

fn title(text: &str) -> Cell {
    Cell::heading(String::from(text)).with_padding(Padding { vertical: 1, horizontal: 0 })
}

fn figure(text: &str) -> Cell {
    plain(text).to_right().with_padding(Padding { vertical: 2, horizontal: 2 })
}

fn figure_title(text: &str) -> Cell {
    Cell::heading(String::from(text))
        .to_right()
        .with_padding(Padding { vertical: 2, horizontal: 2 })
}

fn framed(cell: Cell) -> Cell {
    cell.with_padding(Padding { vertical: 2, horizontal: 2 })
}

#[test]
fn test_simple_invoice() {
    let raw = RawInvoice {
        from: PersonalInfo {
            email: String::from("joe@services.com"),
            name: String::from("Joe's Services"),
            addr_one: String::from("Leuteritzweg"),
            addr_two: String::from("13"),
            postal: String::from("22399"),
            state: String::from("Hamburg"),
            country: String::from("Germany"),
        },
        to: PersonalInfo {
            email: String::from("billing@corp.com"),
            name: String::from("Super Corp"),
            addr_one: String::from("Tegelsbarg"),
            addr_two: String::from("73"),
            postal: String::from("22399"),
            state: String::from("Hamburg"),
            country: String::from("Germany"),
        },
        items: vec![
            ItemRaw {
                description: String::from("Big truck transport fee"),
                quantity: 2,
                amount: 400,
                tax_percent: 20,
            },
            ItemRaw {
                description: String::from("Big truck transport fee"),
                quantity: 2,
                amount: 400,
                tax_percent: 20,
            },
        ],
        payment: Payment {
            wallet_address: String::from("0x123123123123123123123123123"),
            currency: String::from("EURC"),
            tx: String::from("none"),
        },
        data: InvoiceData {
            invoice_number: 376,
            due_date: String::from("16/jan/2025"),
            issue_date: String::from("5/jan/2025"),
        },
    };
    let invoice = SimpleInvoice::new(raw);
    let layout = invoice.print_layout();
    assert_eq!(SimpleInvoice::pdf_file_name("services_5_jan_2025"), "services_5_jan_2025.pdf");
    assert_eq!(layout.title, "invoice");
    assert_eq!(layout.blocks.len(), 8);
    assert_eq!(invoice.invoice().total.amount_due, 1920);
}

#[test]
fn simple_invoice_keeps_the_refined_invoice() {
    let invoice = SimpleInvoice::new(services_invoice());
    let parsed = invoice.invoice();
    assert_eq!(parsed.items.len(), 2);
    assert_eq!(parsed.items[0].total, 960);
    assert_eq!(parsed.items[1].total, 960);
    assert_eq!(parsed.total.no_tax, 1600);
    assert_eq!(parsed.total.tax_amount, 320);
    assert_eq!(parsed.total.amount, 1920);
    assert_eq!(parsed.total.amount_due, 1920);
    assert_eq!(parsed.payment.tx, "\"none\"");
    assert_eq!(parsed.from.name, "Joe's Services");
    assert_eq!(parsed.to.name, "Super Corp");
    assert_eq!(parsed.data.invoice_number, 376);
}

#[test]
fn print_layout_lists_the_blocks_from_top_to_bottom() {
    let layout = SimpleInvoice::new(services_invoice()).print_layout();
    assert_eq!(layout.title, "invoice");
    assert_eq!(layout.margin, 10);
    assert_eq!(layout.blocks.len(), 8);
    assert_eq!(layout.blocks[0], Block::Break { half_lines: 3 });
    assert!(matches!(layout.blocks[1], Block::Table(_)));
    assert!(matches!(layout.blocks[2], Block::Table(_)));
    assert_eq!(layout.blocks[3], Block::Break { half_lines: 4 });
    assert_eq!(layout.blocks[4], Block::Paragraph(title("Transaction")));
    assert_eq!(layout.blocks[5], Block::Paragraph(plain("\"none\"")));
    assert_eq!(layout.blocks[6], Block::Break { half_lines: 4 });
    assert!(matches!(layout.blocks[7], Block::Table(_)));
}

#[test]
fn header_table_shows_sender_and_metadata() {
    let invoice = SimpleInvoice::new(services_invoice());
    let table = factura::simple_invoice::header_table(invoice.invoice());
    assert_eq!(table.weights, vec![3, 7]);
    assert!(!table.framed);
    let expected = vec![
        vec![title("From"), title("Invoice").to_right()],
        vec![plain("Joe's Services"), plain("Invoice #376").to_right()],
        vec![plain("joe@services.com"), plain("Issued on: 5/jan/2025").to_right()],
        vec![plain("Leuteritzweg"), plain("Payment due by: 16/jan/2025").to_right()],
        vec![plain("13"), Cell::blank()],
        vec![plain("22399"), Cell::blank()],
        vec![plain("Hamburg"), title("Wallet Address").to_right()],
        vec![plain("Germany"), plain("0x123123123123123123123123123").to_right()],
        vec![Cell::blank(), Cell::blank()],
    ];
    assert_eq!(table.rows, expected);
}

#[test]
fn billing_table_shows_recipient_and_currency() {
    let invoice = SimpleInvoice::new(services_invoice());
    let table = factura::simple_invoice::billing_table(invoice.invoice());
    assert_eq!(table.weights, vec![1, 1]);
    assert!(!table.framed);
    let expected = vec![
        vec![title("Billed to"), title("Expected payment method").to_right()],
        vec![plain("Super Corp"), plain("EURC").to_right()],
        vec![plain("billing@corp.com"), Cell::blank()],
        vec![plain("Tegelsbarg"), Cell::blank()],
        vec![plain("73"), Cell::blank()],
        vec![plain("22399"), Cell::blank()],
        vec![plain("Hamburg"), Cell::blank()],
        vec![plain("Germany"), Cell::blank()],
    ];
    assert_eq!(table.rows, expected);
}

#[test]
fn items_table_shows_lines_then_totals_in_order() {
    let invoice = SimpleInvoice::new(services_invoice());
    let table = factura::simple_invoice::items_table(invoice.invoice());
    assert_eq!(table.weights, vec![4, 1, 2, 1, 2]);
    assert!(table.framed);
    let line = vec![
        framed(plain("Big truck transport fee")),
        figure("2"),
        figure("400 EURC"),
        figure("20%"),
        figure("960 EURC"),
    ];
    let total = |label: &str, amount: &str| {
        vec![
            framed(Cell::heading(String::from(label))),
            framed(Cell::blank()),
            framed(Cell::blank()),
            framed(Cell::blank()),
            figure_title(amount),
        ]
    };
    let expected = vec![
        vec![
            framed(Cell::heading(String::from("Description"))),
            figure_title("Qty"),
            figure_title("Unit Price"),
            figure_title("Tax"),
            figure_title("Amount"),
        ],
        line.clone(),
        line,
        total("Total without tax", "1600 EURC"),
        total("Total Tax Amount", "320 EURC"),
        total("Total Amount", "1920 EURC"),
        total("Amount Due", "1920 EURC"),
    ];
    assert_eq!(table.rows, expected);
}

#[test]
fn every_row_has_one_cell_for_each_column() {
    let layout = SimpleInvoice::new(services_invoice()).print_layout();
    let mut tables = 0;
    for block in &layout.blocks {
        if let Block::Table(table) = block {
            tables += 1;
            for row in &table.rows {
                assert_eq!(row.len(), table.weights.len());
            }
        }
    }
    assert_eq!(tables, 3);
}

#[test]
fn items_table_of_an_invoice_without_lines_holds_titles_and_totals() {
    let mut raw = services_invoice();
    raw.items.clear();
    let invoice = SimpleInvoice::new(raw);
    let table = factura::simple_invoice::items_table(invoice.invoice());
    assert_eq!(table.rows.len(), 5);
    assert_eq!(table.rows[1][4], figure_title("0 EURC"));
    assert_eq!(table.rows[4][0], framed(Cell::heading(String::from("Amount Due"))));
}

#[test]
fn output_files_carry_their_extension() {
    assert_eq!(SimpleInvoice::pdf_file_name("services_5_jan_2025"), "services_5_jan_2025.pdf");
    assert_eq!(SimpleInvoice::html_file_name("services_5_jan_2025"), "services_5_jan_2025.html");
    assert_eq!(SimpleInvoice::pdf_file_name(""), ".pdf");
}

#[test]
fn money_and_percent_are_written_as_printed() {
    assert_eq!(factura::simple_invoice::money(1920, "EURC"), "1920 EURC");
    assert_eq!(factura::simple_invoice::money(0, ""), "0 ");
    assert_eq!(factura::simple_invoice::percent(20), "20%");
    assert_eq!(factura::simple_invoice::percent(255), "255%");
}
