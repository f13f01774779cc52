//! Error types shared by the whole library.

use vstd::prelude::*;
use crate::text::{concat, concat3};

verus! {

/// Errors that can occur during Lightning Network operations.
#[derive(Debug, Clone, PartialEq, Eq)]
pub enum LightningError {
    /// Error that occurred while connecting to a Lightning node.
    ConnectionError(String),
    /// Error that occurred while retrieving node information.
    GetInfoError(String),
    /// Error that occurred while retrieving payments.
    PaymentError(String),
    /// Error that occurred while retrieving invoices.
    InvoiceError(String),
    /// Error that occurred during configuration validation.
    ValidationError(String),
    /// Error that occurred while getting graph.
    GetGraphError(String),
    /// Error that occurred while streaming events.
    StreamingError(String),
    /// Channel-related error.
    ChannelError(String),
    /// Generic not found error.
    NotFound(String),
    /// Parse error for things like pubkeys or strings.
    Parse(String),
    /// Network error.
    NetworkError(String),
}

/// The text that introduces each kind of Lightning error.
pub open spec fn lightning_error_prefix(e: LightningError) -> Seq<char> {
    match e {
        LightningError::ConnectionError(_) => "Node connection error: "@,
        LightningError::GetInfoError(_) => "Get info error: "@,
        LightningError::PaymentError(_) => "Error while retrieving payments: "@,
        LightningError::InvoiceError(_) => "Error while retrieving invoices: "@,
        LightningError::ValidationError(_) => "Config validation failed: "@,
        LightningError::GetGraphError(_) => "Get graph error: "@,
        LightningError::StreamingError(_) => "Streaming error: "@,
        LightningError::ChannelError(_) => "Channel error: "@,
        LightningError::NotFound(_) => "Not found: "@,
        LightningError::Parse(_) => "Parse error: "@,
        LightningError::NetworkError(_) => "Network error: "@,
    }
}

/// The detail carried by a Lightning error.
pub open spec fn lightning_error_detail(e: LightningError) -> Seq<char> {
    match e {
        LightningError::ConnectionError(m) => m@,
        LightningError::GetInfoError(m) => m@,
        LightningError::PaymentError(m) => m@,
        LightningError::InvoiceError(m) => m@,
        LightningError::ValidationError(m) => m@,
        LightningError::GetGraphError(m) => m@,
        LightningError::StreamingError(m) => m@,
        LightningError::ChannelError(m) => m@,
        LightningError::NotFound(m) => m@,
        LightningError::Parse(m) => m@,
        LightningError::NetworkError(m) => m@,
    }
}

impl LightningError {
    /// The human-readable text of the error (what `Display` shows).
    pub fn message(&self) -> (r: String)
        ensures
            r@ == lightning_error_prefix(*self) + lightning_error_detail(*self),
    {
        proof {
            reveal_strlit("Node connection error: ");
            reveal_strlit("Get info error: ");
            reveal_strlit("Error while retrieving payments: ");
            reveal_strlit("Error while retrieving invoices: ");
            reveal_strlit("Config validation failed: ");
            reveal_strlit("Get graph error: ");
            reveal_strlit("Streaming error: ");
            reveal_strlit("Channel error: ");
            reveal_strlit("Not found: ");
            reveal_strlit("Parse error: ");
            reveal_strlit("Network error: ");
        }
        match self {
            LightningError::ConnectionError(m) => concat("Node connection error: ", m.as_str()),
            LightningError::GetInfoError(m) => concat("Get info error: ", m.as_str()),
            LightningError::PaymentError(m) => concat(
                "Error while retrieving payments: ",
                m.as_str(),
            ),
            LightningError::InvoiceError(m) => concat(
                "Error while retrieving invoices: ",
                m.as_str(),
            ),
            LightningError::ValidationError(m) => concat("Config validation failed: ", m.as_str()),
            LightningError::GetGraphError(m) => concat("Get graph error: ", m.as_str()),
            LightningError::StreamingError(m) => concat("Streaming error: ", m.as_str()),
            LightningError::ChannelError(m) => concat("Channel error: ", m.as_str()),
            LightningError::NotFound(m) => concat("Not found: ", m.as_str()),
            LightningError::Parse(m) => concat("Parse error: ", m.as_str()),
            LightningError::NetworkError(m) => concat("Network error: ", m.as_str()),
        }
    }
}

/// Generic service error that can be used across all entities.
///
/// `Database` carries the text of the storage layer's error.
#[derive(Debug, Clone, PartialEq, Eq)]
pub enum ServiceError {
    Validation { message: String },
    NotFound { entity: String, identifier: String },
    AlreadyExists { entity: String, identifier: String },
    InvalidOperation { message: String },
    Database { message: String },
    ExternalService { message: String },
    InternalError { message: String },
}

/// Mathematical model of a [`ServiceError`].
pub enum ServiceErrorView {
    Validation { message: Seq<char> },
    NotFound { entity: Seq<char>, identifier: Seq<char> },
    AlreadyExists { entity: Seq<char>, identifier: Seq<char> },
    InvalidOperation { message: Seq<char> },
    Database { message: Seq<char> },
    ExternalService { message: Seq<char> },
    InternalError { message: Seq<char> },
}

impl View for ServiceError {
    type V = ServiceErrorView;

    open spec fn view(&self) -> ServiceErrorView {
        match self {
            ServiceError::Validation { message } => ServiceErrorView::Validation {
                message: message@,
            },
            ServiceError::NotFound { entity, identifier } => ServiceErrorView::NotFound {
                entity: entity@,
                identifier: identifier@,
            },
            ServiceError::AlreadyExists { entity, identifier } => ServiceErrorView::AlreadyExists {
                entity: entity@,
                identifier: identifier@,
            },
            ServiceError::InvalidOperation { message } => ServiceErrorView::InvalidOperation {
                message: message@,
            },
            ServiceError::Database { message } => ServiceErrorView::Database { message: message@ },
            ServiceError::ExternalService { message } => ServiceErrorView::ExternalService {
                message: message@,
            },
            ServiceError::InternalError { message } => ServiceErrorView::InternalError {
                message: message@,
            },
        }
    }
}

/// The human-readable text of a service error.
pub open spec fn service_error_text(e: ServiceErrorView) -> Seq<char> {
    match e {
        ServiceErrorView::Validation { message } => "Validation error: "@ + message,
        ServiceErrorView::NotFound { entity, identifier } => entity + " not found: "@ + identifier,
        ServiceErrorView::AlreadyExists { entity, identifier } => entity + " already exists: "@
            + identifier,
        ServiceErrorView::InvalidOperation { message } => "Invalid operation: "@ + message,
        ServiceErrorView::Database { message } => "Database error: "@ + message,
        ServiceErrorView::ExternalService { message } => "External service error: "@ + message,
        ServiceErrorView::InternalError { message } => "Internal error: "@ + message,
    }
}

/// Result type of the service layer.
pub type ServiceResult<T> = Result<T, ServiceError>;

/// A service result with its error taken by its model.
pub open spec fn result_view<T>(r: ServiceResult<T>) -> Result<T, ServiceErrorView> {
    match r {
        Ok(v) => Ok(v),
        Err(e) => Err(e@),
    }
}

impl ServiceError {
    /// A validation error with the given message.
    pub fn validation(message: &str) -> (r: Self)
        ensures
            r@ == (ServiceErrorView::Validation { message: message@ }),
    {
        ServiceError::Validation { message: String::from_str(message) }
    }

    /// A "not found" error for `entity` identified by `identifier`.
    pub fn not_found(entity: &str, identifier: &str) -> (r: Self)
        ensures
            r@ == (ServiceErrorView::NotFound { entity: entity@, identifier: identifier@ }),
    {
        ServiceError::NotFound {
            entity: String::from_str(entity),
            identifier: String::from_str(identifier),
        }
    }

    /// An "already exists" error for `entity` identified by `identifier`.
    pub fn already_exists(entity: &str, identifier: &str) -> (r: Self)
        ensures
            r@ == (ServiceErrorView::AlreadyExists { entity: entity@, identifier: identifier@ }),
    {
        ServiceError::AlreadyExists {
            entity: String::from_str(entity),
            identifier: String::from_str(identifier),
        }
    }

    /// An "invalid operation" error with the given message.
    pub fn invalid_operation(message: &str) -> (r: Self)
        ensures
            r@ == (ServiceErrorView::InvalidOperation { message: message@ }),
    {
        ServiceError::InvalidOperation { message: String::from_str(message) }
    }

    /// The human-readable text of the error (what `Display` shows).
    pub fn message(&self) -> (r: String)
        ensures
            r@ == service_error_text(self@),
    {
        proof {
            reveal_strlit("Validation error: ");
            reveal_strlit(" not found: ");
            reveal_strlit(" already exists: ");
            reveal_strlit("Invalid operation: ");
            reveal_strlit("Database error: ");
            reveal_strlit("External service error: ");
            reveal_strlit("Internal error: ");
        }
        match self {
            ServiceError::Validation { message } => concat("Validation error: ", message.as_str()),
            ServiceError::NotFound { entity, identifier } => concat3(
                entity.as_str(),
                " not found: ",
                identifier.as_str(),
            ),
            ServiceError::AlreadyExists { entity, identifier } => concat3(
                entity.as_str(),
                " already exists: ",
                identifier.as_str(),
            ),
            ServiceError::InvalidOperation { message } => concat(
                "Invalid operation: ",
                message.as_str(),
            ),
            ServiceError::Database { message } => concat("Database error: ", message.as_str()),
            ServiceError::ExternalService { message } => concat(
                "External service error: ",
                message.as_str(),
            ),
            ServiceError::InternalError { message } => concat("Internal error: ", message.as_str()),
        }
    }
}

/// An error answer of an HTTP handler: the status code, and the message and
/// machine-readable code of the error body.
#[derive(Debug, Clone, PartialEq, Eq)]
pub struct HttpError {
    pub status: u16,
    pub message: String,
    pub code: String,
}

impl HttpError {
    /// Builds an HTTP error from its parts.
    pub fn new(status: u16, message: &str, code: &str) -> (r: Self)
        ensures
            r.status == status,
            r.message@ == message@,
            r.code@ == code@,
    {
        HttpError { status, message: String::from_str(message), code: String::from_str(code) }
    }
}

} // verus!
