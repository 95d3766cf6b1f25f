use stripe_invoices::{
    join_query, query_entry, Field, FieldValue, Invoice, InvoiceItem, InvoiceItemParams,
    InvoiceListParams, InvoiceParams, ItemType, Method,
};

fn names(fields: &[Field]) -> Vec<&str> {
    fields.iter().map(|f| f.name.as_str()).collect()
}

#[test]
fn invoice_params_omit_unset_fields() {
    let params = InvoiceParams {
        customer: Some("cus_123"),
        closed: Some(false),
        ..Default::default()
    };
    let fields = params.to_fields();
    assert_eq!(names(&fields), vec!["customer", "closed"]);
    assert_eq!(fields[0].value, FieldValue::Text("cus_123".to_string()));
    assert_eq!(fields[1].value, FieldValue::Flag(false));
}

#[test]
fn invoice_params_all_fields_in_order() {
    let params = InvoiceParams {
        application_fee: Some(100),
        customer: Some("cus_1"),
        description: Some("desc"),
        statement_descriptor: Some("STMT"),
        subscription: Some("sub_1"),
        tax_percent: Some("8.25".to_string()),
        closed: Some(true),
        forgiven: Some(false),
    };
    let fields = params.to_fields();
    assert_eq!(
        names(&fields),
        vec![
            "application_fee",
            "customer",
            "description",
            "statement_descriptor",
            "subscription",
            "tax_percent",
            "closed",
            "forgiven"
        ]
    );
    assert_eq!(fields[0].value, FieldValue::Count(100));
    assert_eq!(fields[5].value, FieldValue::Decimal("8.25".to_string()));
}

#[test]
fn invoice_params_empty_body() {
    let params = InvoiceParams::default();
    assert!(params.to_fields().is_empty());
}

#[test]
fn invoice_item_params_omit_unset_fields() {
    let params = InvoiceItemParams {
        amount: Some(-250),
        currency: Some("usd".to_string()),
        metadata: Some(true),
        ..Default::default()
    };
    let fields = params.to_fields();
    assert_eq!(names(&fields), vec!["amount", "currency", "metadata"]);
    assert_eq!(fields[0].value, FieldValue::Int(-250));
    assert_eq!(fields[1].value, FieldValue::Text("usd".to_string()));
    assert_eq!(fields[2].value, FieldValue::Flag(true));
}

#[test]
fn create_invoice_request() {
    let params = InvoiceParams { customer: Some("cus_9"), ..Default::default() };
    let req = Invoice::create(params);
    assert_eq!(req.method, Method::Post);
    assert_eq!(req.path, "/invoices");
    let body = req.body.unwrap();
    assert_eq!(names(&body), vec!["customer"]);
}

#[test]
fn retrieve_targets_invoice_path() {
    let req = Invoice::retrieve("in_123");
    assert_eq!(req.method, Method::Get);
    assert_eq!(req.path, "/invoices/in_123");
    assert!(req.body.is_none());
}

#[test]
fn retrieve_sends_empty_id_as_given() {
    let req = Invoice::retrieve("");
    assert_eq!(req.path, "/invoices/");
}

#[test]
fn pay_posts_empty_body() {
    let req = Invoice::pay("in_123");
    assert_eq!(req.method, Method::Post);
    assert_eq!(req.path, "/invoices/in_123/pay");
    assert_eq!(req.body, Some(vec![]));
}

#[test]
fn update_posts_to_invoice_path() {
    let params = InvoiceParams { forgiven: Some(true), ..Default::default() };
    let req = Invoice::update("in_7", params);
    assert_eq!(req.method, Method::Post);
    assert_eq!(req.path, "/invoices/in_7");
    let body = req.body.unwrap();
    assert_eq!(body.len(), 1);
    assert_eq!(body[0].name, "forgiven");
    assert_eq!(body[0].value, FieldValue::Flag(true));
}

#[test]
fn list_encodes_limit_and_customer() {
    let params = InvoiceListParams { limit: Some(10), customer: Some("cus_123") };
    assert_eq!(params.to_query().unwrap(), "limit=10&customer=cus_123");
    let req = Invoice::list(params).unwrap();
    assert_eq!(req.method, Method::Get);
    assert_eq!(req.path, "/invoices?limit=10&customer=cus_123");
    assert!(req.body.is_none());
}

#[test]
fn list_without_params_has_empty_query() {
    let params = InvoiceListParams::default();
    assert_eq!(params.to_query().unwrap(), "");
    let req = Invoice::list(params).unwrap();
    assert_eq!(req.path, "/invoices?");
}

#[test]
fn list_limit_only() {
    let params = InvoiceListParams { limit: Some(0), customer: None };
    assert_eq!(params.to_query().unwrap(), "limit=0");
    let params = InvoiceListParams { limit: Some(u64::MAX), customer: None };
    assert_eq!(params.to_query().unwrap(), "limit=18446744073709551615");
}

#[test]
fn list_escapes_customer() {
    let params = InvoiceListParams { limit: None, customer: Some("a b&c") };
    assert_eq!(params.to_query().unwrap(), "customer=a+b%26c");
}

#[test]
fn query_entry_percent_encodes_value() {
    assert_eq!(query_entry("customer", "x=y").unwrap(), "customer=x%3Dy");
    assert_eq!(query_entry("limit", "10").unwrap(), "limit=10");
}

#[test]
fn join_query_uses_ampersands() {
    let entries = vec!["a=1".to_string(), "b=2".to_string(), "c=3".to_string()];
    assert_eq!(join_query(&entries), "a=1&b=2&c=3");
    assert_eq!(join_query(&vec![]), "");
    assert_eq!(join_query(&vec!["only=1".to_string()]), "only=1");
}

#[test]
fn list_with_query_builds_path() {
    let req = Invoice::list_with_query("limit=3");
    assert_eq!(req.method, Method::Get);
    assert_eq!(req.path, "/invoices?limit=3");
}

#[test]
fn create_invoice_item_request() {
    let params = InvoiceItemParams { invoice: Some("in_1"), ..Default::default() };
    let req = InvoiceItem::create(params);
    assert_eq!(req.method, Method::Post);
    assert_eq!(req.path, "/invoiceitems");
    assert_eq!(names(&req.body.unwrap()), vec!["invoice"]);
}

#[test]
fn item_type_missing_tag_has_default() {
    assert_eq!(ItemType::from_tag(None), ItemType::Unspecified);
}

#[test]
fn item_type_known_and_unknown_tags() {
    assert_eq!(ItemType::from_tag(Some("invoiceitem")), ItemType::InvoiceItem);
    assert_eq!(ItemType::from_tag(Some("subscription")), ItemType::Subscription);
    assert_eq!(ItemType::from_tag(Some("credit")), ItemType::Other("credit".to_string()));
}
