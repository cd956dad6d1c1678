//! What a call on the handle can fail with.

use crate::model::{CauseModel, ErrorModel};
use vstd::prelude::*;

verus! {

/// A filter expression that the query grammar does not accept.
#[derive(Debug, Clone, Copy, PartialEq, Eq, Structural)]
pub struct InvalidFilter;

/// Why a request failed.
#[derive(Debug, PartialEq, Eq)]
pub enum Cause {
    /// The connection is still being made.
    NotConnected,
    /// No driver task runs: it has ended, or the connection was never made.
    DriverTerminated,
    /// The query grammar does not accept the filter expression.
    InvalidFilter,
    /// The transport or the remote peer refused the request, in its words.
    Rejected(String),
}

/// What a call on the handle failed with.
#[derive(Debug, PartialEq, Eq)]
pub enum ClientError {
    /// The endpoint is malformed or unreachable, or the handshake failed.
    Connection(String),
    /// A subscribe request could not be sent or was refused.
    Subscription(Cause),
    /// An unsubscribe request could not be sent or was refused.
    Unsubscribe(Cause),
}

impl View for Cause {
    type V = CauseModel;

    open spec fn view(&self) -> CauseModel {
        match *self {
            Cause::NotConnected => CauseModel::NotConnected,
            Cause::DriverTerminated => CauseModel::DriverTerminated,
            Cause::InvalidFilter => CauseModel::InvalidFilter,
            Cause::Rejected(message) => CauseModel::Rejected(message@),
        }
    }
}

impl View for ClientError {
    type V = ErrorModel;

    open spec fn view(&self) -> ErrorModel {
        match *self {
            ClientError::Connection(message) => ErrorModel::Connection(message@),
            ClientError::Subscription(cause) => ErrorModel::Subscription(cause@),
            ClientError::Unsubscribe(cause) => ErrorModel::Unsubscribe(cause@),
        }
    }
}

impl Cause {
    /// The cause in words.
    pub fn message(&self) -> (text: String)
        ensures
            text@ == self@.message(),
    {
        match self {
            Cause::NotConnected => "not connected".to_owned(),
            Cause::DriverTerminated => "driver terminated".to_owned(),
            Cause::InvalidFilter => "invalid filter".to_owned(),
            Cause::Rejected(message) => message.clone(),
        }
    }
}

impl ClientError {
    /// The error in words.
    pub fn message(&self) -> (text: String)
        ensures
            text@ == self@.message(),
    {
        match self {
            ClientError::Connection(message) => message.clone(),
            ClientError::Subscription(cause) => cause.message(),
            ClientError::Unsubscribe(cause) => {
                let cause = cause.message();
                "failed to unsubscribe: ".to_owned().concat(cause.as_str())
            },
        }
    }
}

/// A result of the handle, seen through the model.
pub open spec fn result_view<T: View>(r: Result<T, ClientError>) -> Result<T::V, ErrorModel> {
    match r {
        Ok(value) => Ok(value@),
        Err(error) => Err(error@),
    }
}

/// An optional value, seen through the model.
pub open spec fn option_view<T: View>(o: Option<T>) -> Option<T::V> {
    match o {
        Some(value) => Some(value@),
        None => None,
    }
}

} // verus!
