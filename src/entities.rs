use vstd::prelude::*;
use vstd::string::StringExecFns;

verus! {

/// A point in time, in seconds since the Unix epoch.
pub type Timestamp = i64;

/// Caller-defined key/value pairs attached to an entity, one pair per key,
/// as the platform sent them.
pub type Metadata = Vec<(String, String)>;

/// A span of time from `start` to `end`; the platform sends `start <= end`.
#[derive(Debug, Clone, PartialEq, Eq, Structural)]
pub struct Period {
    pub start: Timestamp,
    pub end: Timestamp,
}

/// A reference to the plan a line item bills for.
#[derive(Debug, Clone, PartialEq, Eq)]
pub struct Plan {
    pub id: String,
}

/// A discount applied to an invoice.
#[derive(Debug, Clone, PartialEq, Eq)]
pub struct Discount {
    /// The coupon the discount comes from.
    pub coupon: String,
    pub customer: String,
    pub start: Timestamp,
    pub end: Option<Timestamp>,
    pub subscription: Option<String>,
}

/// One page of a collection, in the platform's order.
#[derive(Debug, Clone, PartialEq, Eq)]
pub struct List<T> {
    pub data: Vec<T>,
    /// Whether more items follow this page.
    pub has_more: bool,
    pub total_count: Option<u64>,
    pub url: String,
}

/// What a line item stands for.
#[derive(Debug, Clone, PartialEq, Eq)]
pub enum ItemType {
    /// A one-off invoice item.
    InvoiceItem,
    /// A charge of a subscription.
    Subscription,
    /// The response carried no type tag (it does not, in answer to creating
    /// an invoice item).
    Unspecified,
    /// A tag this library does not know, kept as it came.
    Other(String),
}

impl ItemType {
    /// Whether this value stands for the tag `tag` (`None`: no tag).
    pub open spec fn decodes(&self, tag: Option<Seq<char>>) -> bool {
        match tag {
            None => *self is Unspecified,
            Some(t) => if t == "invoiceitem"@ {
                *self is InvoiceItem
            } else if t == "subscription"@ {
                *self is Subscription
            } else {
                *self matches ItemType::Other(s) && s@ == t
            },
        }
    }

    /// Decodes the `type` tag of a line item. An absent tag decodes to
    /// `Unspecified`; an unknown one is kept in `Other`.
    pub fn from_tag(tag: Option<&str>) -> (r: ItemType)
        ensures
            r.decodes(match tag {
                Some(t) => Some(t@),
                None => None,
            }),
    {
        match tag {
            None => ItemType::Unspecified,
            Some(t) => {
                let text = String::from_str(t);
                if text == String::from_str("invoiceitem") {
                    ItemType::InvoiceItem
                } else if text == String::from_str("subscription") {
                    ItemType::Subscription
                } else {
                    ItemType::Other(text)
                }
            },
        }
    }
}

/// A line item of an invoice, as the platform returns it.
#[derive(Debug, Clone, PartialEq, Eq)]
pub struct InvoiceItem {
    pub id: String,
    /// The amount, in minor currency units.
    pub amount: i64,
    /// The three-letter currency code, lower case.
    pub currency: String,
    pub description: Option<String>,
    pub discountable: bool,
    pub livemode: bool,
    pub metadata: Metadata,
    pub period: Period,
    pub plan: Option<Plan>,
    pub proration: bool,
    pub quantity: Option<u64>,
    pub subscription: Option<String>,
    pub subscription_item: Option<String>,
    pub item_type: ItemType,
}

/// An invoice, as the platform returns it. Amounts are in minor currency
/// units.
#[derive(Debug, Clone, PartialEq, Eq)]
pub struct Invoice {
    pub id: String,
    pub amount_due: u64,
    pub application_fee: Option<u64>,
    pub attempt_count: u64,
    pub attempted: bool,
    pub charge: Option<String>,
    pub closed: bool,
    /// The three-letter currency code, lower case.
    pub currency: String,
    pub customer: String,
    pub date: Timestamp,
    pub description: Option<String>,
    pub discount: Option<Discount>,
    pub ending_balance: Option<i64>,
    pub forgiven: bool,
    pub lines: List<InvoiceItem>,
    pub livemode: bool,
    pub metadata: Metadata,
    pub next_payment_attempt: Option<Timestamp>,
    pub paid: bool,
    pub period_end: Timestamp,
    pub period_start: Timestamp,
    pub receipt_number: Option<String>,
    pub starting_balance: i64,
    pub statment_descriptor: Option<String>,
    pub subscription: Option<String>,
    pub subscription_proration_date: Option<Timestamp>,
    pub subtotal: i64,
    pub tax: Option<i64>,
    /// The tax percentage, as decimal text (e.g. `8.25`).
    pub tax_percent: Option<String>,
    pub total: i64,
    pub webhooks_delivered_at: Option<Timestamp>,
}

} // verus!
