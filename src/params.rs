use vstd::prelude::*;
use vstd::string::StringExecFns;
use crate::query::{decimal, decimal_text, join_query, joined, qs_pair, query_entry, strings_view};
use crate::request::{fields_view, CallError, Field, FieldValue, WireField, WireValue};

verus! {

/// The body entries that one optional parameter contributes: one named entry
/// when the parameter is set, none when it is not.
pub open spec fn entry(name: Seq<char>, value: Option<WireValue>) -> Seq<WireField> {
    match value {
        Some(v) => seq![WireField { name, value: v }],
        None => Seq::empty(),
    }
}

/// Whether some entry of `fields` carries the name `name`.
pub open spec fn has_field(fields: Seq<WireField>, name: Seq<char>) -> bool {
    exists|i: int| 0 <= i < fields.len() && #[trigger] fields[i].name == name
}

pub open spec fn text_value(o: Option<&str>) -> Option<WireValue> {
    match o {
        Some(s) => Some(WireValue::Text(s@)),
        None => None,
    }
}

pub open spec fn string_value(o: Option<String>) -> Option<WireValue> {
    match o {
        Some(s) => Some(WireValue::Text(s@)),
        None => None,
    }
}

pub open spec fn decimal_value(o: Option<String>) -> Option<WireValue> {
    match o {
        Some(s) => Some(WireValue::Decimal(s@)),
        None => None,
    }
}

pub open spec fn count_value(o: Option<u64>) -> Option<WireValue> {
    match o {
        Some(n) => Some(WireValue::Count(n)),
        None => None,
    }
}

pub open spec fn int_value(o: Option<i64>) -> Option<WireValue> {
    match o {
        Some(n) => Some(WireValue::Int(n)),
        None => None,
    }
}

pub open spec fn flag_value(o: Option<bool>) -> Option<WireValue> {
    match o {
        Some(b) => Some(WireValue::Flag(b)),
        None => None,
    }
}

pub open spec fn value_view(o: Option<FieldValue>) -> Option<WireValue> {
    match o {
        Some(v) => Some(v@),
        None => None,
    }
}

/// Appends the entry for one optional parameter.
fn push_entry(fields: &mut Vec<Field>, name: &str, value: Option<FieldValue>)
    ensures
        fields_view(final(fields)@) == fields_view(old(fields)@) + entry(name@, value_view(value)),
{
    match value {
        Some(v) => {
            let ghost v_view = v@;
            fields.push(Field { name: String::from_str(name), value: v });
            assert(fields_view(fields@) =~= fields_view(old(fields)@) + entry(name@, Some(v_view)));
        },
        None => {
            assert(fields_view(fields@) =~= fields_view(old(fields)@) + entry(name@, None));
        },
    }
}

fn text_field(o: Option<&str>) -> (r: Option<FieldValue>)
    ensures
        value_view(r) == text_value(o),
{
    match o {
        Some(s) => Some(FieldValue::Text(String::from_str(s))),
        None => None,
    }
}

fn string_field(o: &Option<String>) -> (r: Option<FieldValue>)
    ensures
        value_view(r) == string_value(*o),
{
    match o {
        Some(s) => Some(FieldValue::Text(s.clone())),
        None => None,
    }
}

fn decimal_field(o: &Option<String>) -> (r: Option<FieldValue>)
    ensures
        value_view(r) == decimal_value(*o),
{
    match o {
        Some(s) => Some(FieldValue::Decimal(s.clone())),
        None => None,
    }
}

fn count_field(o: Option<u64>) -> (r: Option<FieldValue>)
    ensures
        value_view(r) == count_value(o),
{
    match o {
        Some(n) => Some(FieldValue::Count(n)),
        None => None,
    }
}

fn int_field(o: Option<i64>) -> (r: Option<FieldValue>)
    ensures
        value_view(r) == int_value(o),
{
    match o {
        Some(n) => Some(FieldValue::Int(n)),
        None => None,
    }
}

fn flag_field(o: Option<bool>) -> (r: Option<FieldValue>)
    ensures
        value_view(r) == flag_value(o),
{
    match o {
        Some(b) => Some(FieldValue::Flag(b)),
        None => None,
    }
}

proof fn lemma_has_field_concat(a: Seq<WireField>, b: Seq<WireField>, name: Seq<char>)
    ensures
        has_field(a + b, name) <==> (has_field(a, name) || has_field(b, name)),
{
    if has_field(a + b, name) {
        let i = choose|i: int| 0 <= i < (a + b).len() && #[trigger] (a + b)[i].name == name;
        if i >= a.len() {
            assert(b[i - a.len()].name == name);
        }
    }
    if has_field(a, name) {
        let i = choose|i: int| 0 <= i < a.len() && #[trigger] a[i].name == name;
        assert((a + b)[i].name == name);
    }
    if has_field(b, name) {
        let i = choose|i: int| 0 <= i < b.len() && #[trigger] b[i].name == name;
        assert((a + b)[a.len() + i].name == name);
    }
}

proof fn lemma_has_field_entry(key: Seq<char>, value: Option<WireValue>, name: Seq<char>)
    ensures
        has_field(entry(key, value), name) <==> (value is Some && name == key),
{
    if value is Some {
        assert(entry(key, value)[0].name == key);
    }
}

/// The parameters for creating or updating an invoice. Every field is
/// optional; unset fields are left out of the request body.
#[derive(Debug, Clone, Default)]
pub struct InvoiceParams<'a> {
    pub application_fee: Option<u64>,
    pub customer: Option<&'a str>,
    pub description: Option<&'a str>,
    pub statement_descriptor: Option<&'a str>,
    pub subscription: Option<&'a str>,
    /// The tax percentage, as decimal text (e.g. `8.25`).
    pub tax_percent: Option<String>,
    pub closed: Option<bool>,
    pub forgiven: Option<bool>,
}

impl<'a> InvoiceParams<'a> {
    /// The body entries of these parameters, in declaration order.
    pub open spec fn wire_fields(&self) -> Seq<WireField> {
        entry("application_fee"@, count_value(self.application_fee))
            + entry("customer"@, text_value(self.customer))
            + entry("description"@, text_value(self.description))
            + entry("statement_descriptor"@, text_value(self.statement_descriptor))
            + entry("subscription"@, text_value(self.subscription))
            + entry("tax_percent"@, decimal_value(self.tax_percent))
            + entry("closed"@, flag_value(self.closed))
            + entry("forgiven"@, flag_value(self.forgiven))
    }

    /// Whether the parameter whose wire name is `name` is set.
    pub open spec fn is_set(&self, name: Seq<char>) -> bool {
        ||| name == "application_fee"@ && self.application_fee is Some
        ||| name == "customer"@ && self.customer is Some
        ||| name == "description"@ && self.description is Some
        ||| name == "statement_descriptor"@ && self.statement_descriptor is Some
        ||| name == "subscription"@ && self.subscription is Some
        ||| name == "tax_percent"@ && self.tax_percent is Some
        ||| name == "closed"@ && self.closed is Some
        ||| name == "forgiven"@ && self.forgiven is Some
    }

    /// The request body: one entry per set parameter.
    pub fn to_fields(&self) -> (r: Vec<Field>)
        ensures
            fields_view(r@) == self.wire_fields(),
    {
        let mut fields: Vec<Field> = Vec::new();
        assert(fields_view(fields@) =~= Seq::empty());
        push_entry(&mut fields, "application_fee", count_field(self.application_fee));
        push_entry(&mut fields, "customer", text_field(self.customer));
        push_entry(&mut fields, "description", text_field(self.description));
        push_entry(&mut fields, "statement_descriptor", text_field(self.statement_descriptor));
        push_entry(&mut fields, "subscription", text_field(self.subscription));
        push_entry(&mut fields, "tax_percent", decimal_field(&self.tax_percent));
        push_entry(&mut fields, "closed", flag_field(self.closed));
        push_entry(&mut fields, "forgiven", flag_field(self.forgiven));
        assert(fields_view(fields@) =~= self.wire_fields());
        fields
    }
}

/// The parameters for creating an invoice line item. Every field is optional;
/// unset fields are left out of the request body.
///
/// `metadata` and `subscription` are flags here, as the platform's older API
/// declared them.
#[derive(Debug, Clone, Default)]
pub struct InvoiceItemParams<'a> {
    /// The amount, in minor currency units.
    pub amount: Option<i64>,
    /// The three-letter currency code, lower case.
    pub currency: Option<String>,
    pub customer: Option<&'a str>,
    pub description: Option<&'a str>,
    pub discountable: Option<bool>,
    pub invoice: Option<&'a str>,
    pub metadata: Option<bool>,
    pub subscription: Option<bool>,
}

impl<'a> InvoiceItemParams<'a> {
    /// The body entries of these parameters, in declaration order.
    pub open spec fn wire_fields(&self) -> Seq<WireField> {
        entry("amount"@, int_value(self.amount))
            + entry("currency"@, string_value(self.currency))
            + entry("customer"@, text_value(self.customer))
            + entry("description"@, text_value(self.description))
            + entry("discountable"@, flag_value(self.discountable))
            + entry("invoice"@, text_value(self.invoice))
            + entry("metadata"@, flag_value(self.metadata))
            + entry("subscription"@, flag_value(self.subscription))
    }

    /// Whether the parameter whose wire name is `name` is set.
    pub open spec fn is_set(&self, name: Seq<char>) -> bool {
        ||| name == "amount"@ && self.amount is Some
        ||| name == "currency"@ && self.currency is Some
        ||| name == "customer"@ && self.customer is Some
        ||| name == "description"@ && self.description is Some
        ||| name == "discountable"@ && self.discountable is Some
        ||| name == "invoice"@ && self.invoice is Some
        ||| name == "metadata"@ && self.metadata is Some
        ||| name == "subscription"@ && self.subscription is Some
    }

    /// The request body: one entry per set parameter.
    pub fn to_fields(&self) -> (r: Vec<Field>)
        ensures
            fields_view(r@) == self.wire_fields(),
    {
        let mut fields: Vec<Field> = Vec::new();
        assert(fields_view(fields@) =~= Seq::empty());
        push_entry(&mut fields, "amount", int_field(self.amount));
        push_entry(&mut fields, "currency", string_field(&self.currency));
        push_entry(&mut fields, "customer", text_field(self.customer));
        push_entry(&mut fields, "description", text_field(self.description));
        push_entry(&mut fields, "discountable", flag_field(self.discountable));
        push_entry(&mut fields, "invoice", text_field(self.invoice));
        push_entry(&mut fields, "metadata", flag_field(self.metadata));
        push_entry(&mut fields, "subscription", flag_field(self.subscription));
        assert(fields_view(fields@) =~= self.wire_fields());
        fields
    }
}

/// The parameters for listing invoices, sent as a query string.
#[derive(Debug, Clone, Default)]
pub struct InvoiceListParams<'a> {
    /// The largest number of invoices to return.
    pub limit: Option<u64>,
    /// Only invoices of this customer.
    pub customer: Option<&'a str>,
}

impl<'a> InvoiceListParams<'a> {
    /// The encoded query-string entries of these parameters: `limit` then
    /// `customer`, each only when set.
    pub open spec fn query_entries(&self) -> Seq<Seq<char>> {
        (match self.limit {
            Some(n) => seq![qs_pair("limit"@, decimal(n as nat))],
            None => Seq::empty(),
        }) + (match self.customer {
            Some(c) => seq![qs_pair("customer"@, c@)],
            None => Seq::empty(),
        })
    }

    /// The query string of these parameters.
    pub open spec fn query(&self) -> Seq<char> {
        joined(self.query_entries())
    }

    /// Encodes these parameters as a query string; this always succeeds. With
    /// no parameter set the query string is empty.
    pub fn to_query(&self) -> (r: Result<String, CallError>)
        ensures
            r matches Ok(q) && q@ == self.query(),
            self.limit is None && self.customer is None ==> (r matches Ok(q) && q@ == Seq::<char>::empty()),
    {
        let mut entries: Vec<String> = Vec::new();
        match self.limit {
            Some(n) => {
                let text = decimal_text(n);
                match query_entry("limit", text.as_str()) {
                    Ok(e) => entries.push(e),
                    Err(err) => return Err(err),
                }
            },
            None => {},
        }
        let ghost after_limit = strings_view(entries@);
        assert(after_limit =~= match self.limit {
            Some(n) => seq![qs_pair("limit"@, decimal(n as nat))],
            None => Seq::empty(),
        });
        match self.customer {
            Some(c) => {
                match query_entry("customer", c) {
                    Ok(e) => entries.push(e),
                    Err(err) => return Err(err),
                }
            },
            None => {},
        }
        assert(strings_view(entries@) =~= self.query_entries());
        Ok(join_query(&entries))
    }
}

/// Unset parameters never reach the request body: the body has an entry
/// named `name` exactly when the parameter of that name is set.
pub proof fn lemma_invoice_params_omit_unset(p: InvoiceParams, name: Seq<char>)
    ensures
        has_field(p.wire_fields(), name) <==> p.is_set(name),
{
    let e0 = entry("application_fee"@, count_value(p.application_fee));
    let e1 = entry("customer"@, text_value(p.customer));
    let e2 = entry("description"@, text_value(p.description));
    let e3 = entry("statement_descriptor"@, text_value(p.statement_descriptor));
    let e4 = entry("subscription"@, text_value(p.subscription));
    let e5 = entry("tax_percent"@, decimal_value(p.tax_percent));
    let e6 = entry("closed"@, flag_value(p.closed));
    let e7 = entry("forgiven"@, flag_value(p.forgiven));
    lemma_has_field_concat(e0, e1, name);
    lemma_has_field_concat(e0 + e1, e2, name);
    lemma_has_field_concat(e0 + e1 + e2, e3, name);
    lemma_has_field_concat(e0 + e1 + e2 + e3, e4, name);
    lemma_has_field_concat(e0 + e1 + e2 + e3 + e4, e5, name);
    lemma_has_field_concat(e0 + e1 + e2 + e3 + e4 + e5, e6, name);
    lemma_has_field_concat(e0 + e1 + e2 + e3 + e4 + e5 + e6, e7, name);
    lemma_has_field_entry("application_fee"@, count_value(p.application_fee), name);
    lemma_has_field_entry("customer"@, text_value(p.customer), name);
    lemma_has_field_entry("description"@, text_value(p.description), name);
    lemma_has_field_entry("statement_descriptor"@, text_value(p.statement_descriptor), name);
    lemma_has_field_entry("subscription"@, text_value(p.subscription), name);
    lemma_has_field_entry("tax_percent"@, decimal_value(p.tax_percent), name);
    lemma_has_field_entry("closed"@, flag_value(p.closed), name);
    lemma_has_field_entry("forgiven"@, flag_value(p.forgiven), name);
}

/// Unset parameters never reach the request body of an invoice line item:
/// the body has an entry named `name` exactly when that parameter is set.
pub proof fn lemma_invoice_item_params_omit_unset(p: InvoiceItemParams, name: Seq<char>)
    ensures
        has_field(p.wire_fields(), name) <==> p.is_set(name),
{
    let e0 = entry("amount"@, int_value(p.amount));
    let e1 = entry("currency"@, string_value(p.currency));
    let e2 = entry("customer"@, text_value(p.customer));
    let e3 = entry("description"@, text_value(p.description));
    let e4 = entry("discountable"@, flag_value(p.discountable));
    let e5 = entry("invoice"@, text_value(p.invoice));
    let e6 = entry("metadata"@, flag_value(p.metadata));
    let e7 = entry("subscription"@, flag_value(p.subscription));
    lemma_has_field_concat(e0, e1, name);
    lemma_has_field_concat(e0 + e1, e2, name);
    lemma_has_field_concat(e0 + e1 + e2, e3, name);
    lemma_has_field_concat(e0 + e1 + e2 + e3, e4, name);
    lemma_has_field_concat(e0 + e1 + e2 + e3 + e4, e5, name);
    lemma_has_field_concat(e0 + e1 + e2 + e3 + e4 + e5, e6, name);
    lemma_has_field_concat(e0 + e1 + e2 + e3 + e4 + e5 + e6, e7, name);
    lemma_has_field_entry("amount"@, int_value(p.amount), name);
    lemma_has_field_entry("currency"@, string_value(p.currency), name);
    lemma_has_field_entry("customer"@, text_value(p.customer), name);
    lemma_has_field_entry("description"@, text_value(p.description), name);
    lemma_has_field_entry("discountable"@, flag_value(p.discountable), name);
    lemma_has_field_entry("invoice"@, text_value(p.invoice), name);
    lemma_has_field_entry("metadata"@, flag_value(p.metadata), name);
    lemma_has_field_entry("subscription"@, flag_value(p.subscription), name);
}

} // verus!
