//! Inbound-payment lifecycle: classifying the operation-log lookup for a
//! payment hash, and consuming the outcome stream until a terminal event
//! settles the wait. Claimed and canceled are the only terminal states; a
//! stream that ends without either is a protocol violation of the external
//! ledger and is reported, never silently resolved.

use vstd::prelude::*;
use crate::types::OperationRecord;

verus! {

/// One event observed on an inbound payment's outcome stream.
pub enum ReceiveEvent {
    /// The payer has funded the contract; not terminal.
    Funded,
    /// The invoice was canceled for the given reason; terminal.
    Canceled { reason: String },
    /// The funds were claimed; terminal.
    Claimed,
}

/// The terminal result of waiting on an inbound payment.
pub enum ReceiveSettlement {
    Paid,
    Canceled { reason: String },
}

/// Why a wait on an inbound payment failed without settling.
pub enum ReceiveError {
    /// No operation is logged under the payment hash: the invoice was not
    /// issued by this identity.
    OperationNotFound,
    /// The operation under the payment hash is not an inbound Lightning
    /// receive.
    WrongOperationKind,
    /// The outcome stream ended without a terminal event.
    ProtocolViolation,
}

/// Checks what an operation-log lookup under a payment hash must show
/// before the wait may subscribe: the entry exists and is an inbound
/// Lightning receive.
pub fn classify_receive_lookup(found: Option<OperationRecord>) -> (r: Result<(), ReceiveError>)
    ensures
        r is Ok <==> found matches Some(OperationRecord::Receive),
        found is None ==> (r matches Err(e) && e is OperationNotFound),
        (found matches Some(rec) && !(rec is Receive)) ==> (r matches Err(e) && e
            is WrongOperationKind),
{
    match found {
        None => Err(ReceiveError::OperationNotFound),
        Some(OperationRecord::Receive) => Ok(()),
        Some(OperationRecord::Pay { .. }) => Err(ReceiveError::WrongOperationKind),
        Some(OperationRecord::Foreign) => Err(ReceiveError::WrongOperationKind),
    }
}

/// What one stream event settles: claimed settles the wait as paid, a
/// cancellation settles it with the reported reason, anything else leaves
/// the wait open.
pub open spec fn step_of(e: ReceiveEvent) -> Option<ReceiveSettlement> {
    match e {
        ReceiveEvent::Claimed => Some(ReceiveSettlement::Paid),
        ReceiveEvent::Canceled { reason } => Some(ReceiveSettlement::Canceled { reason }),
        ReceiveEvent::Funded => None,
    }
}

/// Decides what one stream event means for the waiting call: a settlement,
/// or nothing yet.
pub fn receive_step(e: &ReceiveEvent) -> (r: Option<ReceiveSettlement>)
    ensures
        r == step_of(*e),
{
    match e {
        ReceiveEvent::Claimed => Some(ReceiveSettlement::Paid),
        ReceiveEvent::Canceled { reason } => Some(
            ReceiveSettlement::Canceled { reason: reason.clone() },
        ),
        ReceiveEvent::Funded => None,
    }
}

/// The settlement determined by a finite stream of events: the step result
/// of the first terminal event, or a protocol violation if no event is
/// terminal.
pub open spec fn outcome_of(events: Seq<ReceiveEvent>) -> Result<
    ReceiveSettlement,
    ReceiveError,
>
    decreases events.len(),
{
    if events.len() == 0 {
        Err(ReceiveError::ProtocolViolation)
    } else {
        match step_of(events.first()) {
            Some(s) => Ok(s),
            None => outcome_of(events.drop_first()),
        }
    }
}

/// Whether some event of the stream is terminal.
pub open spec fn has_terminal(events: Seq<ReceiveEvent>) -> bool {
    exists|i: int| 0 <= i < events.len() && #[trigger] step_of(events[i]) is Some
}

/// Consumes a recorded stream of events in order and settles on the first
/// terminal one; a stream that ends without a terminal event is reported as
/// a protocol violation.
pub fn settle_receive(events: &Vec<ReceiveEvent>) -> (r: Result<ReceiveSettlement, ReceiveError>)
    ensures
        r == outcome_of(events@),
{
    proof {
        assert(events@.skip(0) =~= events@);
    }
    let mut i: usize = 0;
    while i < events.len()
        invariant
            i <= events@.len(),
            outcome_of(events@) == outcome_of(events@.skip(i as int)),
        decreases events@.len() - i,
    {
        match receive_step(&events[i]) {
            Some(s) => {
                return Ok(s);
            },
            None => {},
        }
        proof {
            assert(events@.skip(i as int).drop_first() =~= events@.skip(i + 1));
        }
        i = i + 1;
    }
    Err(ReceiveError::ProtocolViolation)
}

/// Law: the wait resolves to exactly one terminal result. Re-observing the
/// same stream of events settles on the same result, never on two.
pub proof fn lemma_receive_rerun_same(
    events: Seq<ReceiveEvent>,
    r1: Result<ReceiveSettlement, ReceiveError>,
    r2: Result<ReceiveSettlement, ReceiveError>,
)
    requires
        r1 == outcome_of(events),
        r2 == outcome_of(events),
    ensures
        r1 == r2,
{
}

/// Law: once a terminal event has been observed, the settlement stands.
/// Whatever events follow, the outcome is settled and unchanged.
pub proof fn lemma_receive_outcome_stable(events: Seq<ReceiveEvent>, extra: Seq<ReceiveEvent>)
    requires
        has_terminal(events),
    ensures
        outcome_of(events) is Ok,
        outcome_of(events + extra) == outcome_of(events),
    decreases events.len(),
{
    let i = choose|i: int| 0 <= i < events.len() && #[trigger] step_of(events[i]) is Some;
    assert(events.len() > 0);
    assert((events + extra).len() > 0);
    assert((events + extra).first() == events.first());
    if step_of(events.first()) is Some {
    } else {
        assert(step_of(events[i]) is Some);
        assert(i != 0);
        assert(events.drop_first()[i - 1] == events[i]);
        assert(has_terminal(events.drop_first()));
        assert((events + extra).drop_first() =~= events.drop_first() + extra);
        lemma_receive_outcome_stable(events.drop_first(), extra);
    }
}

} // verus!
