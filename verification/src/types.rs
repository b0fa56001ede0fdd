//! The records an invoice is made of, each with its mathematical model.

use vstd::prelude::*;

verus! {

/// Could be either sender or receiver of the invoice.
#[derive(Clone, Debug, PartialEq, Eq)]
pub struct PersonalInfo {
    pub email: String,
    pub name: String,
    pub addr_one: String,
    pub addr_two: String,
    pub postal: String,
    pub state: String,
    pub country: String,
}

/// Model of a [`PersonalInfo`]: every field as the text it holds.
pub struct PersonalInfoView {
    pub email: Seq<char>,
    pub name: Seq<char>,
    pub addr_one: Seq<char>,
    pub addr_two: Seq<char>,
    pub postal: Seq<char>,
    pub state: Seq<char>,
    pub country: Seq<char>,
}

impl View for PersonalInfo {
    type V = PersonalInfoView;

    open spec fn view(&self) -> PersonalInfoView {
        PersonalInfoView {
            email: self.email@,
            name: self.name@,
            addr_one: self.addr_one@,
            addr_two: self.addr_two@,
            postal: self.postal@,
            state: self.state@,
            country: self.country@,
        }
    }
}

/// Information relevant to the invoice itself.
#[derive(Clone, Debug, PartialEq, Eq)]
pub struct InvoiceData {
    pub invoice_number: u16,
    pub due_date: String,
    pub issue_date: String,
}

/// Model of an [`InvoiceData`].
pub struct InvoiceDataView {
    pub invoice_number: nat,
    pub due_date: Seq<char>,
    pub issue_date: Seq<char>,
}

impl View for InvoiceData {
    type V = InvoiceDataView;

    open spec fn view(&self) -> InvoiceDataView {
        InvoiceDataView {
            invoice_number: self.invoice_number as nat,
            due_date: self.due_date@,
            issue_date: self.issue_date@,
        }
    }
}

/// Payment data for the goods and services outlined in the invoice.
#[derive(Clone, Debug, PartialEq, Eq)]
pub struct Payment {
    pub wallet_address: String,
    pub currency: String,
    pub tx: String,
}

/// Model of a [`Payment`].
pub struct PaymentView {
    pub wallet_address: Seq<char>,
    pub currency: Seq<char>,
    pub tx: Seq<char>,
}

impl View for Payment {
    type V = PaymentView;

    open spec fn view(&self) -> PaymentView {
        PaymentView { wallet_address: self.wallet_address@, currency: self.currency@, tx: self.tx@ }
    }
}

/// Good or service, before price calculation.
///
/// `amount` is the price of one unit, in the smallest denomination of the
/// invoice's currency; `tax_percent` is not checked against any range.
#[derive(Debug, PartialEq, Eq)]
pub struct ItemRaw {
    pub description: String,
    pub quantity: u8,
    pub amount: u32,
    pub tax_percent: u8,
}

/// Model of an [`ItemRaw`].
pub struct ItemRawView {
    pub description: Seq<char>,
    pub quantity: nat,
    pub amount: nat,
    pub tax_percent: nat,
}

impl View for ItemRaw {
    type V = ItemRawView;

    open spec fn view(&self) -> ItemRawView {
        ItemRawView {
            description: self.description@,
            quantity: self.quantity as nat,
            amount: self.amount as nat,
            tax_percent: self.tax_percent as nat,
        }
    }
}

/// Good or service, with total price calculated.
///
/// `total` is 64 bits wide: the largest unit price, at the largest tax rate
/// and quantity that an [`ItemRaw`] can hold, stays below `2^43`.
#[derive(Clone, Debug, PartialEq, Eq)]
pub struct Item {
    pub description: String,
    pub quantity: u8,
    pub unit_price: u32,
    pub tax_percent: u8,
    pub total: u64,
}

/// Model of an [`Item`].
pub struct ItemView {
    pub description: Seq<char>,
    pub quantity: nat,
    pub unit_price: nat,
    pub tax_percent: nat,
    pub total: nat,
}

impl View for Item {
    type V = ItemView;

    open spec fn view(&self) -> ItemView {
        ItemView {
            description: self.description@,
            quantity: self.quantity as nat,
            unit_price: self.unit_price as nat,
            tax_percent: self.tax_percent as nat,
            total: self.total as nat,
        }
    }
}

/// Calculated values of all items in the raw invoice.
///
/// The fields are 128 bits wide: a vector holds fewer than `2^64` items, each
/// with a total below `2^43`, so no sum of line totals can overflow them.
#[derive(Clone, Copy, Debug, PartialEq, Eq)]
pub struct Total {
    pub no_tax: u128,
    pub tax_amount: u128,
    pub amount: u128,
    pub amount_due: u128,
}

/// Model of a [`Total`].
pub struct TotalView {
    pub no_tax: nat,
    pub tax_amount: nat,
    pub amount: nat,
    pub amount_due: nat,
}

impl View for Total {
    type V = TotalView;

    open spec fn view(&self) -> TotalView {
        TotalView {
            no_tax: self.no_tax as nat,
            tax_amount: self.tax_amount as nat,
            amount: self.amount as nat,
            amount_due: self.amount_due as nat,
        }
    }
}

/// Invoice data with no price calculations.
#[derive(Debug, PartialEq, Eq)]
pub struct RawInvoice {
    pub from: PersonalInfo,
    pub to: PersonalInfo,
    pub items: Vec<ItemRaw>,
    pub payment: Payment,
    pub data: InvoiceData,
}

/// Model of a [`RawInvoice`].
pub struct RawInvoiceView {
    pub from: PersonalInfoView,
    pub to: PersonalInfoView,
    pub items: Seq<ItemRawView>,
    pub payment: PaymentView,
    pub data: InvoiceDataView,
}

impl View for RawInvoice {
    type V = RawInvoiceView;

    open spec fn view(&self) -> RawInvoiceView {
        RawInvoiceView {
            from: self.from@,
            to: self.to@,
            items: self.items@.map_values(|item: ItemRaw| item@),
            payment: self.payment@,
            data: self.data@,
        }
    }
}

/// Invoice values that have gone through refinement.
#[derive(Clone, Debug, PartialEq, Eq)]
pub struct ParsedInvoice {
    pub from: PersonalInfo,
    pub to: PersonalInfo,
    pub items: Vec<Item>,
    pub total: Total,
    pub payment: Payment,
    pub data: InvoiceData,
}

/// Model of a [`ParsedInvoice`].
pub struct ParsedInvoiceView {
    pub from: PersonalInfoView,
    pub to: PersonalInfoView,
    pub items: Seq<ItemView>,
    pub total: TotalView,
    pub payment: PaymentView,
    pub data: InvoiceDataView,
}

impl View for ParsedInvoice {
    type V = ParsedInvoiceView;

    open spec fn view(&self) -> ParsedInvoiceView {
        ParsedInvoiceView {
            from: self.from@,
            to: self.to@,
            items: self.items@.map_values(|item: Item| item@),
            total: self.total@,
            payment: self.payment@,
            data: self.data@,
        }
    }
}

} // verus!
