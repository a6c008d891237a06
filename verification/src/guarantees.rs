//! Theorems about whole transactions: what reply a caller gets, when the
//! target is called, and that a transaction depends on nothing but its own
//! inputs.

use vstd::prelude::*;
use crate::descriptor::validated;
use crate::descriptor::DescriptorView;
use crate::error::lemma_missing_field_message;
use crate::error::ErrorClass;
use crate::error::Field;
use crate::error::RelayErrorView;
use crate::method::recognized_verb;
use crate::outbound::built;
use crate::outbound::OutboundView;
use crate::response::captured;
use crate::response::failure_reply;
use crate::response::translated;
use crate::response::Mode;
use crate::response::ReplyBodyView;
use crate::response::ReplyView;
use crate::response::ENVELOPE_STATUS;
use crate::transaction::stepped;
use crate::transaction::ActionView;
use crate::transaction::EventView;
use crate::transaction::Stage;
use crate::transaction::TransactionView;
use crate::wire::target_acceptable;

verus! {

/// The request that a description leads to, or the failure that stops it
/// before the target is called.
pub open spec fn request_for(raw: DescriptorView) -> Result<OutboundView, RelayErrorView> {
    match validated(raw) {
        Ok(intent) => built(intent),
        Err(error) => Err(error),
    }
}

/// The reply that the transport's report leads to.
pub open spec fn concluded(mode: Mode, report: EventView) -> ReplyView {
    match report {
        EventView::Failed(cause) => failure_reply(RelayErrorView::TransportError(cause)),
        EventView::Responded(response) => match translated(mode, response) {
            Ok(reply) => reply,
            Err(error) => failure_reply(error),
        },
    }
}

/// The reply of a whole transaction, given the description and what the
/// transport reports if it is asked.
pub open spec fn reply_for(mode: Mode, raw: DescriptorView, report: EventView) -> ReplyView {
    match request_for(raw) {
        Ok(_) => concluded(mode, report),
        Err(error) => failure_reply(error),
    }
}

/// The state of a transaction that started with a description, after a
/// number of steps during which the transport's report was on offer.
pub open spec fn state_after(mode: Mode, raw: DescriptorView, report: EventView, steps: nat)
    -> TransactionView
    decreases steps,
{
    if steps == 0 {
        TransactionView::Received(raw)
    } else {
        stepped(mode, state_after(mode, raw, report, (steps - 1) as nat), Some(report)).0
    }
}

/// The action asked for by the step taken after a number of steps.
pub open spec fn action_at(mode: Mode, raw: DescriptorView, report: EventView, steps: nat)
    -> ActionView {
    stepped(mode, state_after(mode, raw, report, steps), Some(report)).1
}

/// Every step moves forward: the stage never goes back, it advances unless
/// the transaction is over or the transport's report is still owed, and a
/// step that skips a stage lands on `Translated`. The target is asked for
/// only on leaving `Parsed`, the reply handed out only on leaving
/// `Translated`.
pub proof fn theorem_linear_path(mode: Mode, state: TransactionView, event: Option<EventView>)
    ensures
        ({
            let (next, action) = stepped(mode, state, event);
            let before = state.stage().rank();
            let after = next.stage().rank();
            &&& before <= after
            &&& (state.stage() != Stage::Sent && !(state.stage() == Stage::Built && event is None))
                ==> before < after
            &&& after > before + 1 ==> next.stage() == Stage::Translated
            &&& action is Send ==> state.stage() == Stage::Parsed && next.stage() == Stage::Built
            &&& action is Respond ==> state.stage() == Stage::Translated && next.stage()
                == Stage::Sent
            &&& action is Await ==> state.stage() == Stage::Built && event is None
            &&& action is Done <==> state.stage() == Stage::Sent
        }),
{
}

/// Once sent, a transaction stays sent and asks for nothing more.
pub proof fn lemma_sent_is_final(
    mode: Mode,
    raw: DescriptorView,
    report: EventView,
    from: nat,
    steps: nat,
)
    requires
        from <= steps,
        state_after(mode, raw, report, from) is Sent,
    ensures
        state_after(mode, raw, report, steps) is Sent,
        action_at(mode, raw, report, steps) is Done,
    decreases steps,
{
    if from < steps {
        lemma_sent_is_final(mode, raw, report, from, (steps - 1) as nat);
    }
}

/// The whole course of a transaction. Within five steps it is sent. The
/// only reply ever handed out is `reply_for` of its inputs. The target is
/// asked for at most once, by the second step, with the request that the
/// description leads to, and only if the description leads to one: a
/// description that fails validation or building never reaches the target.
pub proof fn theorem_transaction(mode: Mode, raw: DescriptorView, report: EventView)
    ensures
        state_after(mode, raw, report, 5) is Sent,
        exists|at: nat| at < 5 && #[trigger] action_at(mode, raw, report, at) is Respond,
        forall|at: nat| #[trigger]
            action_at(mode, raw, report, at) is Respond ==> action_at(mode, raw, report, at)
                == ActionView::Respond(reply_for(mode, raw, report)),
        forall|at: nat| #[trigger]
            action_at(mode, raw, report, at) is Send ==> at == 1 && request_for(raw) is Ok
                && action_at(mode, raw, report, at) == ActionView::Send(request_for(raw)->Ok_0),
        request_for(raw) is Ok ==> action_at(mode, raw, report, 1) is Send,
{
    reveal_with_fuel(state_after, 6);
    let s0 = state_after(mode, raw, report, 0);
    let s1 = state_after(mode, raw, report, 1);
    let s2 = state_after(mode, raw, report, 2);
    let s3 = state_after(mode, raw, report, 3);
    let s4 = state_after(mode, raw, report, 4);
    let s5 = state_after(mode, raw, report, 5);
    assert(s5 is Sent);
    let last: nat = if s1 is Translated {
        1
    } else if s2 is Translated {
        2
    } else if s3 is Translated {
        3
    } else {
        4
    };
    assert(action_at(mode, raw, report, last) is Respond);
    assert forall|at: nat| #[trigger] action_at(mode, raw, report, at) is Respond implies action_at(
        mode,
        raw,
        report,
        at,
    ) == ActionView::Respond(reply_for(mode, raw, report)) by {
        if at >= 5 {
            lemma_sent_is_final(mode, raw, report, 5, at);
        }
    }
    assert forall|at: nat| #[trigger] action_at(mode, raw, report, at) is Send implies at == 1
        && request_for(raw) is Ok && action_at(mode, raw, report, at) == ActionView::Send(
        request_for(raw)->Ok_0,
    ) by {
        if at >= 5 {
            lemma_sent_is_final(mode, raw, report, 5, at);
        }
    }
}

/// A description that leads to no request never reaches the target,
/// whatever the transport would have reported, and the caller gets the
/// reply that reports the failure.
pub proof fn theorem_failure_stops_before_target(
    mode: Mode,
    raw: DescriptorView,
    report: EventView,
    at: nat,
)
    requires
        request_for(raw) is Err,
    ensures
        !(action_at(mode, raw, report, at) is Send),
        reply_for(mode, raw, report) == failure_reply(request_for(raw)->Err_0),
{
    theorem_transaction(mode, raw, report);
}

/// A description without `url` is answered with status 400 and a message
/// that starts with the name of that field, and the target is not called.
/// The same holds for a description with `url` but without `method`.
pub proof fn theorem_missing_field(mode: Mode, raw: DescriptorView, report: EventView, at: nat)
    requires
        raw.url is None || raw.method is None,
    ensures
        ({
            let field = if raw.url is None {
                Field::Url
            } else {
                Field::Method
            };
            let reply = reply_for(mode, raw, report);
            &&& reply == failure_reply(RelayErrorView::MissingField(field))
            &&& reply.status == 400
            &&& reply.body matches ReplyBodyView::Message(text) && text.len()
                >= field.name_spec().len() && text.subrange(0, field.name_spec().len() as int)
                == field.name_spec()
            &&& !(action_at(mode, raw, report, at) is Send)
        }),
{
    let field = if raw.url is None {
        Field::Url
    } else {
        Field::Method
    };
    lemma_missing_field_message(field);
    theorem_failure_stops_before_target(mode, raw, report, at);
}

/// A description whose `url` is not an absolute URI is answered with
/// status 400, and the target is not called.
pub proof fn theorem_invalid_url(mode: Mode, raw: DescriptorView, report: EventView, at: nat)
    requires
        raw.url matches Some(url) && !target_acceptable(url),
    ensures
        reply_for(mode, raw, report).status == 400,
        raw.method is Some ==> reply_for(mode, raw, report) == failure_reply(
            RelayErrorView::InvalidUrl,
        ),
        !(action_at(mode, raw, report, at) is Send),
{
    theorem_failure_stops_before_target(mode, raw, report, at);
}

/// A description whose `method` is not a recognized verb is answered with
/// status 400, and the target is not called.
pub proof fn theorem_unrecognized_method(
    mode: Mode,
    raw: DescriptorView,
    report: EventView,
    at: nat,
)
    requires
        raw.method matches Some(method) && recognized_verb(method) is None,
    ensures
        reply_for(mode, raw, report).status == 400,
        raw.url matches Some(url) && target_acceptable(url) ==> reply_for(mode, raw, report)
            == failure_reply(RelayErrorView::InvalidMethod),
        !(action_at(mode, raw, report, at) is Send),
{
    theorem_failure_stops_before_target(mode, raw, report, at);
}

/// Every failure of validation or building is answered with status 400,
/// every failure of the transport or of decoding with status 500.
pub proof fn theorem_failure_status(error: RelayErrorView)
    ensures
        failure_reply(error).status == 400 || failure_reply(error).status == 500,
        failure_reply(error).status == 400 <==> error.class() == ErrorClass::Validation,
        request_failure(error) ==> failure_reply(error).status == 400,
{
}

/// The failures that can stop a description before the target is called.
pub open spec fn request_failure(error: RelayErrorView) -> bool {
    error is MissingField || error is InvalidUrl || error is InvalidMethod
        || error is InvalidHeaderEncoding || error is BodySerializationError
}

/// Validation and building fail with validation failures only.
pub proof fn theorem_request_failures(raw: DescriptorView)
    ensures
        request_for(raw) matches Err(error) ==> request_failure(error),
{
}

/// Building a validated intent can fail on its body or on a header only:
/// method and target were settled by validation.
pub proof fn theorem_building_failures(intent: crate::descriptor::IntentView)
    ensures
        built(intent) matches Err(error) ==> error is BodySerializationError
            || error is InvalidHeaderEncoding,
        built(intent) matches Ok(request) ==> request.method == intent.method && request.uri
            == intent.target_url,
{
}

/// When the target answers, the caller learns the target's status: passing
/// through, it is the status of the reply; enveloped, the reply has status
/// 200 and the envelope holds the target's status, unless the body is not
/// text, which is answered with status 500.
pub proof fn theorem_status_is_reported(
    mode: Mode,
    raw: DescriptorView,
    response: crate::response::TargetView,
)
    requires
        request_for(raw) is Ok,
    ensures
        ({
            let reply = reply_for(mode, raw, EventView::Responded(response));
            match mode {
                Mode::Passthrough => {
                    &&& reply.status == response.status
                    &&& reply.headers == response.headers
                    &&& reply.body == ReplyBodyView::Raw(response.body)
                },
                Mode::Enveloped => match captured(response) {
                    Ok(outcome) => {
                        &&& reply.status == ENVELOPE_STATUS
                        &&& reply.body == ReplyBodyView::Envelope(outcome)
                        &&& outcome.status_code == response.status
                    },
                    Err(_) => reply.status == 500,
                },
            }
        }),
{
}

/// When the transport fails, the caller gets status 500 and, as message,
/// the transport's description of the cause, in either mode.
pub proof fn theorem_transport_failure(mode: Mode, raw: DescriptorView, cause: Seq<char>)
    requires
        request_for(raw) is Ok,
    ensures
        ({
            let reply = reply_for(mode, raw, EventView::Failed(cause));
            &&& reply.status == 500
            &&& reply.body == ReplyBodyView::Message(cause)
            &&& reply.headers.len() == 0
        }),
{
}

/// The replies of a batch of transactions, one per description and report.
pub open spec fn replies_for(mode: Mode, raws: Seq<DescriptorView>, reports: Seq<EventView>)
    -> Seq<ReplyView> {
    Seq::new(raws.len(), |i: int| reply_for(mode, raws[i], reports[i]))
}

/// A transaction's reply depends on its own description and its own
/// transport report alone: in two batches that agree on one transaction,
/// that transaction gets the same reply, whatever the others are, however
/// many there are and whether they fail.
pub proof fn theorem_transactions_are_independent(
    mode: Mode,
    raws: Seq<DescriptorView>,
    reports: Seq<EventView>,
    other_raws: Seq<DescriptorView>,
    other_reports: Seq<EventView>,
    here: int,
    there: int,
)
    requires
        0 <= here < raws.len(),
        0 <= there < other_raws.len(),
        raws[here] == other_raws[there],
        reports[here] == other_reports[there],
    ensures
        replies_for(mode, raws, reports)[here] == replies_for(
            mode,
            other_raws,
            other_reports,
        )[there],
        replies_for(mode, raws, reports)[here] == reply_for(mode, raws[here], reports[here]),
{
}

/// Repeating a transaction with the same description and the same report
/// walks through the same states and asks for the same actions: nothing of
/// an earlier transaction is kept.
pub proof fn theorem_repeatable(
    mode: Mode,
    raw: DescriptorView,
    report: EventView,
    again: DescriptorView,
    report_again: EventView,
    steps: nat,
)
    requires
        raw == again,
        report == report_again,
    ensures
        state_after(mode, raw, report, steps) == state_after(mode, again, report_again, steps),
        action_at(mode, raw, report, steps) == action_at(mode, again, report_again, steps),
        reply_for(mode, raw, report) == reply_for(mode, again, report_again),
{
}

} // verus!
