use vstd::prelude::*;
use vstd::string::StringExecFns;
use crate::entities::{Invoice, InvoiceItem};
use crate::params::{InvoiceItemParams, InvoiceListParams, InvoiceParams};
use crate::request::{fields_view, CallError, Field, Method, Request, WireField, WireRequest};

verus! {

/// The path of the invoice `id`.
pub open spec fn invoice_path(id: Seq<char>) -> Seq<char> {
    "/invoices/"@ + id
}

/// The path that pays the invoice `id`.
pub open spec fn pay_path(id: Seq<char>) -> Seq<char> {
    "/invoices/"@ + id + "/pay"@
}

/// The path that lists invoices with the query string `query`.
pub open spec fn list_path(query: Seq<char>) -> Seq<char> {
    "/invoices?"@ + query
}

/// A `GET` of `path`, without a body.
pub open spec fn get_request(path: Seq<char>) -> WireRequest {
    WireRequest { method: Method::Get, path, body: None }
}

/// A `POST` of `body` to `path`.
pub open spec fn post_request(path: Seq<char>, body: Seq<WireField>) -> WireRequest {
    WireRequest { method: Method::Post, path, body: Some(body) }
}

fn path_of(prefix: &str, id: &str, suffix: &str) -> (r: String)
    ensures
        r@ == prefix@ + id@ + suffix@,
{
    let mut path = String::from_str(prefix);
    path.append(id);
    path.append(suffix);
    path
}

impl Invoice {
    /// The request that creates an invoice: a `POST` to `/invoices` whose
    /// body holds the set parameters.
    pub fn create(params: InvoiceParams) -> (r: Request)
        ensures
            r@ == post_request("/invoices"@, params.wire_fields()),
    {
        let body = params.to_fields();
        Request { method: Method::Post, path: String::from_str("/invoices"), body: Some(body) }
    }

    /// The request that retrieves the invoice `invoice_id`: a `GET` of
    /// `/invoices/{invoice_id}`, without query string or body. The id is
    /// sent as it is given.
    pub fn retrieve(invoice_id: &str) -> (r: Request)
        ensures
            r@ == get_request(invoice_path(invoice_id@)),
    {
        let path = path_of("/invoices/", invoice_id, "");
        proof {
            reveal_strlit("");
        }
        assert(path@ =~= invoice_path(invoice_id@));
        Request { method: Method::Get, path, body: None }
    }

    /// The request that pays the invoice `invoice_id`: a `POST` with an
    /// empty body to `/invoices/{invoice_id}/pay`.
    pub fn pay(invoice_id: &str) -> (r: Request)
        ensures
            r@ == post_request(pay_path(invoice_id@), Seq::empty()),
    {
        let path = path_of("/invoices/", invoice_id, "/pay");
        let body: Vec<Field> = Vec::new();
        assert(fields_view(body@) =~= Seq::empty());
        Request { method: Method::Post, path, body: Some(body) }
    }

    /// The request that updates the invoice `invoice_id`: a `POST` to
    /// `/invoices/{invoice_id}` whose body holds the set parameters.
    pub fn update(invoice_id: &str, params: InvoiceParams) -> (r: Request)
        ensures
            r@ == post_request(invoice_path(invoice_id@), params.wire_fields()),
    {
        let path = path_of("/invoices/", invoice_id, "");
        proof {
            reveal_strlit("");
        }
        assert(path@ =~= invoice_path(invoice_id@));
        let body = params.to_fields();
        Request { method: Method::Post, path, body: Some(body) }
    }

    /// The request that lists invoices: a `GET` of `/invoices?{query}`, where
    /// `query` is the encoded parameters. The parameters always encode, so
    /// this always succeeds; with none set the query string is empty.
    pub fn list(params: InvoiceListParams) -> (r: Result<Request, CallError>)
        ensures
            r matches Ok(req) && req@ == get_request(list_path(params.query())),
            params.limit is None && params.customer is None ==> (r matches Ok(req)
                && req@ == get_request("/invoices?"@)),
    {
        match params.to_query() {
            Ok(query) => {
                let req = Invoice::list_with_query(query.as_str());
                proof {
                    if params.limit is None && params.customer is None {
                        assert(list_path(query@) =~= "/invoices?"@);
                    }
                }
                Ok(req)
            },
            Err(e) => Err(e),
        }
    }

    /// The request that lists invoices with an encoded query string.
    pub fn list_with_query(query: &str) -> (r: Request)
        ensures
            r@ == get_request(list_path(query@)),
    {
        let path = path_of("/invoices?", query, "");
        proof {
            reveal_strlit("");
        }
        assert(path@ =~= list_path(query@));
        Request { method: Method::Get, path, body: None }
    }
}

impl InvoiceItem {
    /// The request that creates an invoice line item: a `POST` to
    /// `/invoiceitems` whose body holds the set parameters.
    pub fn create(params: InvoiceItemParams) -> (r: Request)
        ensures
            r@ == post_request("/invoiceitems"@, params.wire_fields()),
    {
        let body = params.to_fields();
        Request { method: Method::Post, path: String::from_str("/invoiceitems"), body: Some(body) }
    }
}

} // verus!
