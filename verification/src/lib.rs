//! Invoice arithmetic with machine-checked contracts.
//!
//! An unrefined invoice ([`types::RawInvoice`]) lists goods and services with
//! their unit prices and tax rates. Refining it ([`refine`]) computes the
//! total of every line and the totals of the whole invoice. A refined invoice
//! can then be laid out for print ([`SimpleInvoice`]).

pub mod fonts;
pub mod invoice;
pub mod layout;
pub mod simple_invoice;
pub mod text;
pub mod types;

pub use invoice::{refine, Invoice};
pub use simple_invoice::SimpleInvoice;
