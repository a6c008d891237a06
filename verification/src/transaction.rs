//! One relay transaction as a state machine. The machine takes the
//! decisions; its surroundings perform the two outside actions it asks for,
//! calling the target and writing the reply.
//!
//! A transaction walks `Received`, `Parsed`, `Built`, `Executed`,
//! `Translated`, `Sent` in this order and never goes back. A failure at any
//! stage jumps to `Translated` with the reply that reports it.

use vstd::prelude::*;
use crate::descriptor::validated;
use crate::descriptor::Descriptor;
use crate::descriptor::DescriptorView;
use crate::descriptor::IntentView;
use crate::descriptor::RequestIntent;
use crate::error::RelayError;
use crate::error::RelayErrorView;
use crate::outbound::build;
use crate::outbound::built;
use crate::outbound::OutboundRequest;
use crate::outbound::OutboundView;
use crate::response::failure_reply;
use crate::response::reply_to_failure;
use crate::response::translate;
use crate::response::translated;
use crate::response::Mode;
use crate::response::Reply;
use crate::response::ReplyView;
use crate::response::TargetResponse;
use crate::response::TargetView;

verus! {

/// The stages of a transaction, in order.
#[derive(Clone, Copy, Debug, PartialEq, Eq, Structural)]
pub enum Stage {
    Received,
    Parsed,
    Built,
    Executed,
    Translated,
    Sent,
}

impl Stage {
    /// The place of a stage in the order of stages.
    pub open spec fn rank(self) -> nat {
        match self {
            Stage::Received => 0,
            Stage::Parsed => 1,
            Stage::Built => 2,
            Stage::Executed => 3,
            Stage::Translated => 4,
            Stage::Sent => 5,
        }
    }
}

/// What the transport reports back for a request it was asked to send.
#[derive(Debug)]
pub enum TransportEvent {
    /// The target answered.
    Responded(TargetResponse),
    /// No response was obtained; the text describes the cause.
    Failed(String),
}

/// The mathematical form of a `TransportEvent`.
pub enum EventView {
    Responded(TargetView),
    Failed(Seq<char>),
}

impl View for TransportEvent {
    type V = EventView;

    open spec fn view(&self) -> EventView {
        match self {
            TransportEvent::Responded(response) => EventView::Responded(response@),
            TransportEvent::Failed(cause) => EventView::Failed(cause@),
        }
    }
}

/// The state of a transaction.
#[derive(Debug)]
pub enum Transaction {
    /// A description has arrived.
    Received(Descriptor),
    /// The description is validated.
    Parsed(RequestIntent),
    /// The request was handed to the transport, whose report is awaited.
    Built,
    /// The target has answered.
    Executed(TargetResponse),
    /// The reply is ready.
    Translated(Reply),
    /// The reply was handed out to be written.
    Sent,
}

/// The mathematical form of a `Transaction`.
pub enum TransactionView {
    Received(DescriptorView),
    Parsed(IntentView),
    Built,
    Executed(TargetView),
    Translated(ReplyView),
    Sent,
}

impl View for Transaction {
    type V = TransactionView;

    open spec fn view(&self) -> TransactionView {
        match self {
            Transaction::Received(raw) => TransactionView::Received(raw@),
            Transaction::Parsed(intent) => TransactionView::Parsed(intent@),
            Transaction::Built => TransactionView::Built,
            Transaction::Executed(response) => TransactionView::Executed(response@),
            Transaction::Translated(reply) => TransactionView::Translated(reply@),
            Transaction::Sent => TransactionView::Sent,
        }
    }
}

/// What the machine asks of its surroundings after a step.
#[derive(Debug)]
pub enum Action {
    /// Nothing; step again.
    Continue,
    /// Send this request to the target and step again with the report.
    Send(OutboundRequest),
    /// The transport's report is still owed; step again with it.
    Await,
    /// Write this reply to the caller.
    Respond(Reply),
    /// The transaction is over.
    Done,
}

/// The mathematical form of an `Action`.
pub enum ActionView {
    Continue,
    Send(OutboundView),
    Await,
    Respond(ReplyView),
    Done,
}

impl View for Action {
    type V = ActionView;

    open spec fn view(&self) -> ActionView {
        match self {
            Action::Continue => ActionView::Continue,
            Action::Send(request) => ActionView::Send(request@),
            Action::Await => ActionView::Await,
            Action::Respond(reply) => ActionView::Respond(reply@),
            Action::Done => ActionView::Done,
        }
    }
}

impl TransactionView {
    /// The stage a state stands at.
    pub open spec fn stage(self) -> Stage {
        match self {
            TransactionView::Received(_) => Stage::Received,
            TransactionView::Parsed(_) => Stage::Parsed,
            TransactionView::Built => Stage::Built,
            TransactionView::Executed(_) => Stage::Executed,
            TransactionView::Translated(_) => Stage::Translated,
            TransactionView::Sent => Stage::Sent,
        }
    }
}

/// The mathematical form of an event that may be absent.
pub open spec fn event_view(event: Option<TransportEvent>) -> Option<EventView> {
    match event {
        Some(report) => Some(report@),
        None => None,
    }
}

/// The state that reports a failure: the reply is ready.
pub open spec fn failed_with(error: RelayErrorView) -> TransactionView {
    TransactionView::Translated(failure_reply(error))
}

/// One step of the machine: the next state and the action asked for. The
/// transport's report is read in `Built` only; anywhere else it is ignored.
pub open spec fn stepped(mode: Mode, state: TransactionView, event: Option<EventView>) -> (
    TransactionView,
    ActionView,
) {
    match state {
        TransactionView::Received(raw) => match validated(raw) {
            Ok(intent) => (TransactionView::Parsed(intent), ActionView::Continue),
            Err(error) => (failed_with(error), ActionView::Continue),
        },
        TransactionView::Parsed(intent) => match built(intent) {
            Ok(request) => (TransactionView::Built, ActionView::Send(request)),
            Err(error) => (failed_with(error), ActionView::Continue),
        },
        TransactionView::Built => match event {
            Some(EventView::Responded(response)) => (
                TransactionView::Executed(response),
                ActionView::Continue,
            ),
            Some(EventView::Failed(cause)) => (
                failed_with(RelayErrorView::TransportError(cause)),
                ActionView::Continue,
            ),
            None => (TransactionView::Built, ActionView::Await),
        },
        TransactionView::Executed(response) => match translated(mode, response) {
            Ok(reply) => (TransactionView::Translated(reply), ActionView::Continue),
            Err(error) => (failed_with(error), ActionView::Continue),
        },
        TransactionView::Translated(reply) => (TransactionView::Sent, ActionView::Respond(reply)),
        TransactionView::Sent => (TransactionView::Sent, ActionView::Done),
    }
}

impl Transaction {
    /// A new transaction for a description that has arrived.
    pub fn receive(raw: Descriptor) -> (state: Transaction)
        ensures
            state@ == TransactionView::Received(raw@),
    {
        Transaction::Received(raw)
    }

    /// The stage this transaction stands at.
    pub fn stage(&self) -> (stage: Stage)
        ensures
            stage == self@.stage(),
    {
        match self {
            Transaction::Received(_) => Stage::Received,
            Transaction::Parsed(_) => Stage::Parsed,
            Transaction::Built => Stage::Built,
            Transaction::Executed(_) => Stage::Executed,
            Transaction::Translated(_) => Stage::Translated,
            Transaction::Sent => Stage::Sent,
        }
    }

    /// Takes one step: validates, builds, reads the transport's report,
    /// translates, or hands out the reply, according to the state.
    pub fn step(self, mode: Mode, event: Option<TransportEvent>) -> (next: (Transaction, Action))
        ensures
            (next.0@, next.1@) == stepped(mode, self@, event_view(event)),
    {
        match self {
            Transaction::Received(raw) => match RequestIntent::parse(raw) {
                Ok(intent) => (Transaction::Parsed(intent), Action::Continue),
                Err(error) => (Transaction::Translated(reply_to_failure(&error)), Action::Continue),
            },
            Transaction::Parsed(intent) => match build(&intent) {
                Ok(request) => (Transaction::Built, Action::Send(request)),
                Err(error) => (Transaction::Translated(reply_to_failure(&error)), Action::Continue),
            },
            Transaction::Built => match event {
                Some(TransportEvent::Responded(response)) => (
                    Transaction::Executed(response),
                    Action::Continue,
                ),
                Some(TransportEvent::Failed(cause)) => {
                    let error = RelayError::TransportError(cause);
                    (Transaction::Translated(reply_to_failure(&error)), Action::Continue)
                },
                None => (Transaction::Built, Action::Await),
            },
            Transaction::Executed(response) => match translate(mode, response) {
                Ok(reply) => (Transaction::Translated(reply), Action::Continue),
                Err(error) => (Transaction::Translated(reply_to_failure(&error)), Action::Continue),
            },
            Transaction::Translated(reply) => (Transaction::Sent, Action::Respond(reply)),
            Transaction::Sent => (Transaction::Sent, Action::Done),
        }
    }
}

} // verus!
