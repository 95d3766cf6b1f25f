//! Typed bindings for the invoice and invoice line item endpoints of a payment
//! platform's REST API.
//!
//! Each operation is a decision without effects: it turns typed parameters
//! into the HTTP request (method, path, body fields) that a transport has to
//! perform. The transport, authentication and JSON decoding belong to the
//! caller, whose errors reach its own callers unchanged.

mod entities;
mod operations;
mod params;
mod query;
mod request;

pub use entities::{Discount, Invoice, InvoiceItem, ItemType, List, Metadata, Period, Plan, Timestamp};
pub use params::{InvoiceItemParams, InvoiceListParams, InvoiceParams};
pub use query::{join_query, query_entry};
pub use request::{CallError, Field, FieldValue, Method, Request};
