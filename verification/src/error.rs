//! Error values of the protocol core, with the diagnostic text that a reply
//! carries for each of them.

use vstd::prelude::*;
use vstd::string::StringExecFns;

use crate::request::{selector_of, UdpRequest, UdpRequestView};

verus! {

/// Why a wire message could not be decoded into a request.
#[derive(Debug)]
pub enum InvalidUdpRequestError {
    /// The message does not have the required number of fields.
    InvalidMessageFormat { message: String },
    /// The category field matches no known category token.
    UnrecognizedRequestType { request_type: String },
    /// The operation field matches no known operation token.
    UnsupportedOperation { operation: String },
    /// The data type field matches no known data type token.
    MismatchedDataType { data_type: String },
}

/// The mathematical shape of an [`InvalidUdpRequestError`].
pub enum InvalidUdpRequestErrorView {
    InvalidMessageFormat { message: Seq<char> },
    UnrecognizedRequestType { request_type: Seq<char> },
    UnsupportedOperation { operation: Seq<char> },
    MismatchedDataType { data_type: Seq<char> },
}

impl View for InvalidUdpRequestError {
    type V = InvalidUdpRequestErrorView;

    open spec fn view(&self) -> InvalidUdpRequestErrorView {
        match self {
            InvalidUdpRequestError::InvalidMessageFormat { message } =>
                InvalidUdpRequestErrorView::InvalidMessageFormat { message: message@ },
            InvalidUdpRequestError::UnrecognizedRequestType { request_type } =>
                InvalidUdpRequestErrorView::UnrecognizedRequestType { request_type: request_type@ },
            InvalidUdpRequestError::UnsupportedOperation { operation } =>
                InvalidUdpRequestErrorView::UnsupportedOperation { operation: operation@ },
            InvalidUdpRequestError::MismatchedDataType { data_type } =>
                InvalidUdpRequestErrorView::MismatchedDataType { data_type: data_type@ },
        }
    }
}

/// The diagnostic text for a decode failure.
pub open spec fn invalid_request_message(e: InvalidUdpRequestErrorView) -> Seq<char> {
    match e {
        InvalidUdpRequestErrorView::InvalidMessageFormat { message } =>
            "UDP request message format is invalid: "@ + message,
        InvalidUdpRequestErrorView::UnrecognizedRequestType { request_type } =>
            "UDP request type is unrecognized: "@ + request_type,
        InvalidUdpRequestErrorView::UnsupportedOperation { operation } =>
            "UDP request operation is unsupported: "@ + operation,
        InvalidUdpRequestErrorView::MismatchedDataType { data_type } =>
            "UDP request data type is mismatched: "@ + data_type,
    }
}

impl InvalidUdpRequestError {
    /// The diagnostic text carried by the reply for this error.
    pub fn message(&self) -> (r: String)
        ensures
            r@ == invalid_request_message(self@),
    {
        match self {
            InvalidUdpRequestError::InvalidMessageFormat { message } => String::from_str(
                "UDP request message format is invalid: ",
            ).concat(message.as_str()),
            InvalidUdpRequestError::UnrecognizedRequestType { request_type } => String::from_str(
                "UDP request type is unrecognized: ",
            ).concat(request_type.as_str()),
            InvalidUdpRequestError::UnsupportedOperation { operation } => String::from_str(
                "UDP request operation is unsupported: ",
            ).concat(operation.as_str()),
            InvalidUdpRequestError::MismatchedDataType { data_type } => String::from_str(
                "UDP request data type is mismatched: ",
            ).concat(data_type.as_str()),
        }
    }
}

/// Why a decoded request could not be answered.
#[derive(Debug)]
pub enum UdpRequestHandlerError {
    /// No registered handler serves the request's selector.
    NoHandlerImplFound { request: UdpRequest },
    /// The handler could not read the identifier named in the request body.
    DataRefReadError { data_ref: String },
}

/// The mathematical shape of a [`UdpRequestHandlerError`].
pub enum UdpRequestHandlerErrorView {
    NoHandlerImplFound { request: UdpRequestView },
    DataRefReadError { data_ref: Seq<char> },
}

impl View for UdpRequestHandlerError {
    type V = UdpRequestHandlerErrorView;

    open spec fn view(&self) -> UdpRequestHandlerErrorView {
        match self {
            UdpRequestHandlerError::NoHandlerImplFound { request } =>
                UdpRequestHandlerErrorView::NoHandlerImplFound { request: request@ },
            UdpRequestHandlerError::DataRefReadError { data_ref } =>
                UdpRequestHandlerErrorView::DataRefReadError { data_ref: data_ref@ },
        }
    }
}

/// The diagnostic text for a dispatch or read failure.
pub open spec fn handler_error_message(e: UdpRequestHandlerErrorView) -> Seq<char> {
    match e {
        UdpRequestHandlerErrorView::NoHandlerImplFound { request } =>
            "no request handler impl found for request: "@ + selector_of(
                request.request_type,
                request.operation,
                request.data_type,
            ),
        UdpRequestHandlerErrorView::DataRefReadError { data_ref } =>
            "failed to read dataref: "@ + data_ref,
    }
}

impl UdpRequestHandlerError {
    /// The diagnostic text carried by the reply for this error.
    pub fn message(&self) -> (r: String)
        ensures
            r@ == handler_error_message(self@),
    {
        match self {
            UdpRequestHandlerError::NoHandlerImplFound { request } => {
                let selector = request.parse_handler_selector();
                String::from_str("no request handler impl found for request: ").concat(
                    selector.as_str(),
                )
            },
            UdpRequestHandlerError::DataRefReadError { data_ref } => String::from_str(
                "failed to read dataref: ",
            ).concat(data_ref.as_str()),
        }
    }
}

} // verus!
