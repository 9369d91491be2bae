use vstd::prelude::*;
use crate::codec::base58_of;
use crate::codec::encode_signature;

verus! {

/// The decoded core of a transaction update: the raw signature bytes that
/// identify the transaction.
#[derive(Debug, Clone, PartialEq)]
pub struct TransactionInfo {
    pub signature: Vec<u8>,
}

/// A message pulled from the stream, one case per wire payload kind. It is
/// transient: each message is classified immediately and never retained.
#[derive(Debug, Clone, PartialEq)]
pub enum InboundMessage {
    /// A transaction update; the inner payload may be absent on a
    /// malformed or partial update.
    Transaction { info: Option<TransactionInfo> },
    /// Any non-transaction payload the feed may emit (slot updates,
    /// account updates, ...), carried as its textual representation.
    Other { description: String },
    /// A message with no payload set at all.
    Empty,
}

/// The mathematical shape of an inbound message: signature bytes and
/// descriptions as sequences.
pub enum MessageModel {
    Transaction { info: Option<Seq<u8>> },
    Other { description: Seq<char> },
    Empty,
}

impl View for InboundMessage {
    type V = MessageModel;

    open spec fn view(&self) -> MessageModel {
        match self {
            InboundMessage::Transaction { info: Some(t) } => MessageModel::Transaction {
                info: Some(t.signature@),
            },
            InboundMessage::Transaction { info: None } => MessageModel::Transaction { info: None },
            InboundMessage::Other { description } => MessageModel::Other {
                description: description@,
            },
            InboundMessage::Empty => MessageModel::Empty,
        }
    }
}

/// How loud an observation is.
#[derive(Debug, Clone, Copy, PartialEq, Eq, Structural)]
pub enum Severity {
    Info,
    Warn,
}

/// The classified, operator-visible result of one inbound message: the
/// system's only output per message.
#[derive(Debug, Clone, PartialEq)]
pub enum Observation {
    /// A well-formed transaction update, identified by the Base58 text of
    /// its signature.
    TransactionSeen { id: String },
    /// A transaction update whose inner payload was absent.
    MalformedTransaction,
    /// Some other update kind, reported by its textual representation.
    OtherSeen { description: String },
    /// A message with no payload at all.
    EmptyUpdate,
}

/// The mathematical shape of an observation.
pub enum ObservationModel {
    TransactionSeen { id: Seq<char> },
    MalformedTransaction,
    OtherSeen { description: Seq<char> },
    EmptyUpdate,
}

impl View for Observation {
    type V = ObservationModel;

    open spec fn view(&self) -> ObservationModel {
        match self {
            Observation::TransactionSeen { id } => ObservationModel::TransactionSeen { id: id@ },
            Observation::MalformedTransaction => ObservationModel::MalformedTransaction,
            Observation::OtherSeen { description } => ObservationModel::OtherSeen {
                description: description@,
            },
            Observation::EmptyUpdate => ObservationModel::EmptyUpdate,
        }
    }
}

/// What the classifier produces for each message shape. The match is total:
/// every message maps to exactly one observation, and the classifier itself
/// has no failure mode.
pub open spec fn spec_classify(m: MessageModel) -> ObservationModel {
    match m {
        MessageModel::Transaction { info: Some(signature) } => ObservationModel::TransactionSeen {
            id: base58_of(signature),
        },
        MessageModel::Transaction { info: None } => ObservationModel::MalformedTransaction,
        MessageModel::Other { description } => ObservationModel::OtherSeen { description },
        MessageModel::Empty => ObservationModel::EmptyUpdate,
    }
}

/// The severity at which each observation is reported: warnings for the two
/// malformed shapes, informational for the rest.
pub open spec fn spec_severity(m: ObservationModel) -> Severity {
    match m {
        ObservationModel::TransactionSeen { .. } => Severity::Info,
        ObservationModel::MalformedTransaction => Severity::Warn,
        ObservationModel::OtherSeen { .. } => Severity::Info,
        ObservationModel::EmptyUpdate => Severity::Warn,
    }
}

impl Observation {
    /// Report this observation's severity.
    pub fn severity(&self) -> (s: Severity)
        ensures
            s == spec_severity(self@),
    {
        match self {
            Observation::TransactionSeen { .. } => Severity::Info,
            Observation::MalformedTransaction => Severity::Warn,
            Observation::OtherSeen { .. } => Severity::Info,
            Observation::EmptyUpdate => Severity::Warn,
        }
    }
}

/// Classify one inbound message. Dispatch is total and deterministic: a
/// transaction update with a payload is reported by its Base58 signature, a
/// transaction update without one draws a warning, any other payload kind is
/// reported as it came, and a payload-less message draws a warning. No
/// message variant is dropped and none raises an error.
pub fn classify(msg: InboundMessage) -> (obs: Observation)
    ensures
        obs@ == spec_classify(msg@),
{
    match msg {
        InboundMessage::Transaction { info: Some(t) } => Observation::TransactionSeen {
            id: encode_signature(t.signature.as_slice()),
        },
        InboundMessage::Transaction { info: None } => Observation::MalformedTransaction,
        InboundMessage::Other { description } => Observation::OtherSeen { description },
        InboundMessage::Empty => Observation::EmptyUpdate,
    }
}

} // verus!
