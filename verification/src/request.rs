//! Decoding of wire messages into requests, and the selector a request is
//! dispatched under.
//!
//! A wire message is UTF-8 text of exactly four fields separated by `|`:
//! `category|operation|dataType|body`. The first three fields must match a
//! known token; the body is taken verbatim.

use vstd::prelude::*;
use vstd::string::StringExecFns;

use crate::error::{InvalidUdpRequestError, InvalidUdpRequestErrorView};
use crate::handler::UdpRequestHandlerType;
use crate::text::{split_chars, split_on_delim, str_eq};

verus! {

/// The resource family a request addresses.
#[derive(Debug, Clone, Copy, PartialEq, Eq, Structural)]
pub enum RequestType {
    DataRef,
}

/// The wire token of a request type.
pub open spec fn type_token(t: RequestType) -> Seq<char> {
    match t {
        RequestType::DataRef => "dataref"@,
    }
}

impl RequestType {
    pub fn as_str(&self) -> (r: &'static str)
        ensures
            r@ == type_token(*self),
    {
        match self {
            RequestType::DataRef => "dataref",
        }
    }
}

/// What a request asks to be done.
#[derive(Debug, Clone, Copy, PartialEq, Eq, Structural)]
pub enum RequestOperation {
    Read,
}

/// The wire token of an operation.
pub open spec fn operation_token(op: RequestOperation) -> Seq<char> {
    match op {
        RequestOperation::Read => "read"@,
    }
}

impl RequestOperation {
    pub fn as_str(&self) -> (r: &'static str)
        ensures
            r@ == operation_token(*self),
    {
        match self {
            RequestOperation::Read => "read",
        }
    }
}

/// The scalar or array type of the value a request asks for.
#[derive(Debug, Clone, Copy, PartialEq, Eq, Structural)]
pub enum RequestDataType {
    Int,
    Float,
    IntArray,
    FloatArray,
}

/// The wire token of a data type.
pub open spec fn data_type_token(dt: RequestDataType) -> Seq<char> {
    match dt {
        RequestDataType::Int => "int"@,
        RequestDataType::Float => "float"@,
        RequestDataType::IntArray => "[int]"@,
        RequestDataType::FloatArray => "[float]"@,
    }
}

impl RequestDataType {
    pub fn as_str(&self) -> (r: &'static str)
        ensures
            r@ == data_type_token(*self),
    {
        match self {
            RequestDataType::Int => "int",
            RequestDataType::Float => "float",
            RequestDataType::IntArray => "[int]",
            RequestDataType::FloatArray => "[float]",
        }
    }
}

/// The request type a category field names, if any.
pub open spec fn parse_request_type(tok: Seq<char>) -> Option<RequestType> {
    if tok == "dataref"@ {
        Some(RequestType::DataRef)
    } else {
        None
    }
}

/// The operation an operation field names, if any.
pub open spec fn parse_operation(tok: Seq<char>) -> Option<RequestOperation> {
    if tok == "read"@ {
        Some(RequestOperation::Read)
    } else {
        None
    }
}

/// The data type a data type field names, if any.
pub open spec fn parse_data_type(tok: Seq<char>) -> Option<RequestDataType> {
    if tok == "int"@ {
        Some(RequestDataType::Int)
    } else if tok == "float"@ {
        Some(RequestDataType::Float)
    } else if tok == "[int]"@ {
        Some(RequestDataType::IntArray)
    } else if tok == "[float]"@ {
        Some(RequestDataType::FloatArray)
    } else {
        None
    }
}

/// The selector a request with these components is dispatched under:
/// the three tokens joined with the field separator.
pub open spec fn selector_of(
    t: RequestType,
    op: RequestOperation,
    dt: RequestDataType,
) -> Seq<char> {
    type_token(t) + seq!['|'] + operation_token(op) + seq!['|'] + data_type_token(dt)
}

/// The wire message that carries these request components.
pub open spec fn encode_fields(
    t: RequestType,
    op: RequestOperation,
    dt: RequestDataType,
    data: Seq<char>,
) -> Seq<char> {
    selector_of(t, op, dt) + seq!['|'] + data
}

/// The mathematical shape of a [`UdpRequest`].
pub struct UdpRequestView {
    pub request_type: RequestType,
    pub operation: RequestOperation,
    pub data_type: RequestDataType,
    pub data: Seq<char>,
}

/// What decoding a wire message yields: the request's components, or the
/// error naming the first field that fails validation. A message with a
/// field count other than four is malformed, whatever its fields hold.
pub open spec fn decode_msg(msg: Seq<char>) -> Result<
    UdpRequestView,
    InvalidUdpRequestErrorView,
> {
    let parts = split_chars(msg, '|');
    if parts.len() != 4 {
        Err(InvalidUdpRequestErrorView::InvalidMessageFormat { message: msg })
    } else {
        match parse_request_type(parts[0]) {
            None => Err(
                InvalidUdpRequestErrorView::UnrecognizedRequestType { request_type: parts[0] },
            ),
            Some(request_type) => match parse_operation(parts[1]) {
                None => Err(InvalidUdpRequestErrorView::UnsupportedOperation { operation: parts[1] }),
                Some(operation) => match parse_data_type(parts[2]) {
                    None => Err(
                        InvalidUdpRequestErrorView::MismatchedDataType { data_type: parts[2] },
                    ),
                    Some(data_type) => Ok(
                        UdpRequestView { request_type, operation, data_type, data: parts[3] },
                    ),
                },
            },
        }
    }
}

/// A decoded request. A value of this type exists only as the result of
/// successfully decoding a wire message: there is no default or partial
/// request.
#[derive(Debug)]
pub struct UdpRequest {
    request_type: RequestType,
    operation: RequestOperation,
    data_type: RequestDataType,
    data: String,
}

impl View for UdpRequest {
    type V = UdpRequestView;

    closed spec fn view(&self) -> UdpRequestView {
        UdpRequestView {
            request_type: self.request_type,
            operation: self.operation,
            data_type: self.data_type,
            data: self.data@,
        }
    }
}

impl UdpRequest {
    /// Decode one wire message. The result is exactly what [`decode_msg`]
    /// says for the message's characters; in particular a message whose
    /// field count is not four is rejected as malformed, never a panic.
    pub fn new(message: String) -> (r: Result<UdpRequest, InvalidUdpRequestError>)
        ensures
            match r {
                Ok(req) => decode_msg(message@) == Ok::<
                    UdpRequestView,
                    InvalidUdpRequestErrorView,
                >(req@),
                Err(e) => decode_msg(message@) == Err::<
                    UdpRequestView,
                    InvalidUdpRequestErrorView,
                >(e@),
            },
            split_chars(message@, '|').len() != 4 ==> (r matches Err(e) && e@ matches
                InvalidUdpRequestErrorView::InvalidMessageFormat { .. }),
    {
        let parts = split_on_delim(message.as_str(), '|');
        if parts.len() != 4 {
            return Err(InvalidUdpRequestError::InvalidMessageFormat { message });
        }
        let request_type = if str_eq(parts[0].as_str(), "dataref") {
            RequestType::DataRef
        } else {
            return Err(
                InvalidUdpRequestError::UnrecognizedRequestType { request_type: parts[0].clone() },
            );
        };
        let operation = if str_eq(parts[1].as_str(), "read") {
            RequestOperation::Read
        } else {
            return Err(
                InvalidUdpRequestError::UnsupportedOperation { operation: parts[1].clone() },
            );
        };
        let data_type = if str_eq(parts[2].as_str(), "int") {
            RequestDataType::Int
        } else if str_eq(parts[2].as_str(), "float") {
            RequestDataType::Float
        } else if str_eq(parts[2].as_str(), "[int]") {
            RequestDataType::IntArray
        } else if str_eq(parts[2].as_str(), "[float]") {
            RequestDataType::FloatArray
        } else {
            return Err(
                InvalidUdpRequestError::MismatchedDataType { data_type: parts[2].clone() },
            );
        };
        let data = parts[3].clone();
        Ok(UdpRequest { request_type, operation, data_type, data })
    }

    /// The handler family that serves this request.
    pub fn determine_handler_type(&self) -> (t: UdpRequestHandlerType)
        ensures
            t == handler_type_of(self@.request_type, self@.operation),
    {
        match (&self.request_type, &self.operation) {
            (RequestType::DataRef, RequestOperation::Read) => UdpRequestHandlerType::DataRefReader,
        }
    }

    pub fn get_data_type(&self) -> (dt: RequestDataType)
        ensures
            dt == self@.data_type,
    {
        self.data_type
    }

    pub fn get_data(&self) -> (d: String)
        ensures
            d@ == self@.data,
    {
        self.data.clone()
    }

    /// The body of the request: the identifier of the requested variable.
    pub fn body(&self) -> (d: &str)
        ensures
            d@ == self@.data,
    {
        self.data.as_str()
    }

    /// The selector this request is dispatched under.
    pub fn parse_handler_selector(&self) -> (r: String)
        ensures
            r@ == selector_of(self@.request_type, self@.operation, self@.data_type),
    {
        selector_string(self.request_type, self.operation, self.data_type)
    }
}

/// The handler family that serves a request with these components.
pub open spec fn handler_type_of(t: RequestType, op: RequestOperation) -> UdpRequestHandlerType {
    match (t, op) {
        (RequestType::DataRef, RequestOperation::Read) => UdpRequestHandlerType::DataRefReader,
    }
}

/// Build the selector for one (category, operation, data type) combination.
pub fn selector_string(t: RequestType, op: RequestOperation, dt: RequestDataType) -> (r: String)
    ensures
        r@ == selector_of(t, op, dt),
{
    proof {
        reveal_strlit("|");
        assert("|"@ =~= seq!['|']);
    }
    let mut s = String::from_str(t.as_str());
    s.append("|");
    s.append(op.as_str());
    s.append("|");
    s.append(dt.as_str());
    proof {
        assert(s@ =~= selector_of(t, op, dt));
    }
    s
}

/// Build the wire message that carries these request components.
pub fn encode_request(
    t: RequestType,
    op: RequestOperation,
    dt: RequestDataType,
    data: &str,
) -> (r: String)
    ensures
        r@ == encode_fields(t, op, dt, data@),
{
    proof {
        reveal_strlit("|");
        assert("|"@ =~= seq!['|']);
    }
    let mut s = selector_string(t, op, dt);
    s.append("|");
    s.append(data);
    proof {
        assert(s@ =~= encode_fields(t, op, dt, data@));
    }
    s
}

/// Facts about the wire tokens: none contains the field separator, and each
/// token parses back to the component it encodes.
pub proof fn lemma_wire_tokens()
    ensures
        forall|t: RequestType| !(#[trigger] type_token(t)).contains('|'),
        forall|op: RequestOperation| !(#[trigger] operation_token(op)).contains('|'),
        forall|dt: RequestDataType| !(#[trigger] data_type_token(dt)).contains('|'),
        forall|t: RequestType| #[trigger] parse_request_type(type_token(t)) == Some(t),
        forall|op: RequestOperation| #[trigger] parse_operation(operation_token(op)) == Some(op),
        forall|dt: RequestDataType| #[trigger] parse_data_type(data_type_token(dt)) == Some(dt),
{
    reveal_strlit("dataref");
    reveal_strlit("read");
    reveal_strlit("int");
    reveal_strlit("float");
    reveal_strlit("[int]");
    reveal_strlit("[float]");
    assert(!"dataref"@.contains('|')) by {
        assert(forall|i: int| 0 <= i < "dataref"@.len() ==> "dataref"@[i] != '|');
    }
    assert(!"read"@.contains('|')) by {
        assert(forall|i: int| 0 <= i < "read"@.len() ==> "read"@[i] != '|');
    }
    assert(!"int"@.contains('|')) by {
        assert(forall|i: int| 0 <= i < "int"@.len() ==> "int"@[i] != '|');
    }
    assert(!"float"@.contains('|')) by {
        assert(forall|i: int| 0 <= i < "float"@.len() ==> "float"@[i] != '|');
    }
    assert(!"[int]"@.contains('|')) by {
        assert(forall|i: int| 0 <= i < "[int]"@.len() ==> "[int]"@[i] != '|');
    }
    assert(!"[float]"@.contains('|')) by {
        assert(forall|i: int| 0 <= i < "[float]"@.len() ==> "[float]"@[i] != '|');
    }
    assert("int"@.len() == 3 && "float"@.len() == 5 && "[int]"@.len() == 5 && "[float]"@.len()
        == 7);
    assert("[int]"@ != "float"@) by {
        assert("[int]"@[0] == '[' && "float"@[0] == 'f');
    }
}

/// Decoding undoes encoding: a wire message built from any request
/// components whose body does not contain the field separator decodes to
/// exactly those components.
pub proof fn lemma_request_round_trip(
    t: RequestType,
    op: RequestOperation,
    dt: RequestDataType,
    data: Seq<char>,
)
    requires
        !data.contains('|'),
    ensures
        decode_msg(encode_fields(t, op, dt, data)) == Ok::<
            UdpRequestView,
            InvalidUdpRequestErrorView,
        >(UdpRequestView { request_type: t, operation: op, data_type: dt, data }),
{
    lemma_wire_tokens();
    let parts = seq![type_token(t), operation_token(op), data_type_token(dt), data];
    let joined = crate::text::join_chars(parts, '|');
    let tail1 = parts.drop_first();
    let tail2 = tail1.drop_first();
    let tail3 = tail2.drop_first();
    assert(tail3.len() == 1 && tail3[0] == data);
    assert(crate::text::join_chars(tail3, '|') == data);
    assert(tail2[0] == data_type_token(dt) && tail2.len() == 2);
    assert(crate::text::join_chars(tail2, '|') == data_type_token(dt) + seq!['|'] + data);
    assert(tail1[0] == operation_token(op) && tail1.len() == 3);
    assert(crate::text::join_chars(tail1, '|') == operation_token(op) + seq!['|'] + (data_type_token(
        dt,
    ) + seq!['|'] + data));
    assert(joined == type_token(t) + seq!['|'] + (operation_token(op) + seq!['|'] + (
    data_type_token(dt) + seq!['|'] + data)));
    assert(joined =~= encode_fields(t, op, dt, data));
    assert(forall|k: int| 0 <= k < parts.len() ==> !(#[trigger] parts[k]).contains('|')) by {
        assert(parts[0] == type_token(t));
        assert(parts[1] == operation_token(op));
        assert(parts[2] == data_type_token(dt));
        assert(parts[3] == data);
    }
    crate::text::lemma_split_join(parts, '|');
    assert(split_chars(encode_fields(t, op, dt, data), '|') == parts);
}

} // verus!
