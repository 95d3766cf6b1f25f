use vstd::prelude::*;

verus! {

/// The HTTP verb of a request.
#[derive(Debug, Clone, Copy, PartialEq, Eq, Structural)]
pub enum Method {
    Get,
    Post,
}

/// A scalar value sent in a request body.
#[derive(Debug, Clone, PartialEq, Eq)]
pub enum FieldValue {
    Text(String),
    Int(i64),
    Count(u64),
    Flag(bool),
    /// A decimal number kept as the text that goes on the wire (e.g. `8.25`).
    Decimal(String),
}

/// The mathematical model of a [`FieldValue`].
pub ghost enum WireValue {
    Text(Seq<char>),
    Int(i64),
    Count(u64),
    Flag(bool),
    Decimal(Seq<char>),
}

impl View for FieldValue {
    type V = WireValue;

    open spec fn view(&self) -> WireValue {
        match self {
            FieldValue::Text(s) => WireValue::Text(s@),
            FieldValue::Int(n) => WireValue::Int(*n),
            FieldValue::Count(n) => WireValue::Count(*n),
            FieldValue::Flag(b) => WireValue::Flag(*b),
            FieldValue::Decimal(s) => WireValue::Decimal(s@),
        }
    }
}

/// One named entry of a request body.
#[derive(Debug, Clone, PartialEq, Eq)]
pub struct Field {
    pub name: String,
    pub value: FieldValue,
}

/// The mathematical model of a [`Field`]: its name and its value.
pub ghost struct WireField {
    pub name: Seq<char>,
    pub value: WireValue,
}

impl View for Field {
    type V = WireField;

    open spec fn view(&self) -> WireField {
        WireField { name: self.name@, value: self.value@ }
    }
}

/// An HTTP request for the transport to perform.
///
/// `body` is `None` for a request without a body (a `GET`), and `Some` of the
/// fields to encode otherwise; `Some` of no fields is an empty body.
#[derive(Debug, Clone, PartialEq, Eq)]
pub struct Request {
    pub method: Method,
    pub path: String,
    pub body: Option<Vec<Field>>,
}

/// The mathematical model of a [`Request`].
pub ghost struct WireRequest {
    pub method: Method,
    pub path: Seq<char>,
    pub body: Option<Seq<WireField>>,
}

/// The model of a list of fields: the model of each, in order.
pub open spec fn fields_view(fields: Seq<Field>) -> Seq<WireField> {
    fields.map_values(|f: Field| f@)
}

impl View for Request {
    type V = WireRequest;

    open spec fn view(&self) -> WireRequest {
        WireRequest {
            method: self.method,
            path: self.path@,
            body: match self.body {
                Some(v) => Some(fields_view(v@)),
                None => None,
            },
        }
    }
}

/// What can go wrong in a call.
///
/// `Transport`, `Api` and `Decode` come from the transport and are handed on
/// unchanged; `Encode` is raised here, when parameters cannot be encoded.
#[derive(Debug, Clone, PartialEq, Eq)]
pub enum CallError {
    /// The network or the connection failed.
    Transport(String),
    /// The platform answered with an error payload.
    Api { status: u16, message: String },
    /// Parameters could not be encoded for the request.
    Encode(String),
    /// The response body did not have the expected shape.
    Decode(String),
}

} // verus!
