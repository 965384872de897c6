//! The values that cross the relay: request envelopes, host outcomes, replies,
//! and the relay's error taxonomy.
//!
//! Arguments and results are carried as already-marshaled sequences of plain
//! integers: the relay never interprets them, it only moves them between a
//! worker thread and the host-owning thread.  Each executable type has a
//! mathematical image (`View`) that the contracts speak of.

use vstd::prelude::*;

verus! {

/// Why a relayed host call produced no value.
#[derive(Debug, Clone, PartialEq)]
pub enum RelayError {
    /// The host-side logic itself raised an error while the dispatcher ran it.
    HostCallFailure { message: String },
    /// The request was still unserviced when the relay channel was torn down.
    ChannelClosed,
    /// The engine's own evaluation failed before the query completed.
    EngineFailure { message: String },
}

/// Mathematical image of a `RelayError`.
pub enum ErrorModel {
    HostCall { message: Seq<char> },
    Closed,
    Engine { message: Seq<char> },
}

impl View for RelayError {
    type V = ErrorModel;

    open spec fn view(&self) -> ErrorModel {
        match self {
            RelayError::HostCallFailure { message } => ErrorModel::HostCall {
                message: message@,
            },
            RelayError::ChannelClosed => ErrorModel::Closed,
            RelayError::EngineFailure { message } => ErrorModel::Engine { message: message@ },
        }
    }
}

/// What one host call produced: marshaled result values, or the error the
/// host-side logic raised.
#[derive(Debug, Clone, PartialEq)]
pub enum HostOutcome {
    Success { values: Vec<i64> },
    Error { message: String },
}

/// Mathematical image of a `HostOutcome`.
pub enum OutcomeModel {
    Success { values: Seq<i64> },
    Error { message: Seq<char> },
}

impl View for HostOutcome {
    type V = OutcomeModel;

    open spec fn view(&self) -> OutcomeModel {
        match self {
            HostOutcome::Success { values } => OutcomeModel::Success { values: values@ },
            HostOutcome::Error { message } => OutcomeModel::Error { message: message@ },
        }
    }
}

/// What lands in a request's reply slot: the value the dispatcher wrote, or
/// the failure propagated to the blocked worker.
#[derive(Debug, Clone, PartialEq)]
pub enum Reply {
    Value { values: Vec<i64> },
    Failure { error: RelayError },
}

/// Mathematical image of a `Reply`.
pub enum ReplyModel {
    Value { values: Seq<i64> },
    Failure { error: ErrorModel },
}

impl View for Reply {
    type V = ReplyModel;

    open spec fn view(&self) -> ReplyModel {
        match self {
            Reply::Value { values } => ReplyModel::Value { values: values@ },
            Reply::Failure { error } => ReplyModel::Failure { error: error@ },
        }
    }
}

/// The immutable unit of work a worker hands to the relay: "run the host-side
/// logic on these arguments".  The identifier names the request's reply slot.
#[derive(Debug, Clone, PartialEq)]
pub struct CallbackRequest {
    pub id: u64,
    pub args: Vec<i64>,
}

/// Mathematical image of a `CallbackRequest`.
pub struct RequestModel {
    pub id: int,
    pub args: Seq<i64>,
}

impl View for CallbackRequest {
    type V = RequestModel;

    open spec fn view(&self) -> RequestModel {
        RequestModel { id: self.id as int, args: self.args@ }
    }
}

/// The reply a given host outcome turns into: a success becomes the value the
/// worker asked for, a host-raised error becomes a `HostCallFailure`.
pub open spec fn reply_for_outcome(o: OutcomeModel) -> ReplyModel {
    match o {
        OutcomeModel::Success { values } => ReplyModel::Value { values },
        OutcomeModel::Error { message } => ReplyModel::Failure {
            error: ErrorModel::HostCall { message },
        },
    }
}

/// Wraps a host outcome as the reply the dispatcher writes into the slot.
pub fn reply_of_outcome(o: HostOutcome) -> (r: Reply)
    ensures
        r@ == reply_for_outcome(o@),
{
    match o {
        HostOutcome::Success { values } => Reply::Value { values },
        HostOutcome::Error { message } => Reply::Failure {
            error: RelayError::HostCallFailure { message },
        },
    }
}

} // verus!
