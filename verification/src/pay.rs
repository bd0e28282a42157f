//! Outbound-payment lifecycle: parsing a caller-supplied invoice, deriving
//! the idempotent identifier of its pay attempt, routing on what the
//! operation log already holds under that identifier, and settling the
//! terminal outcome into a preimage or a failure. A dispatch is decided
//! only when no operation exists yet, which is what makes retrying safe.

use vstd::prelude::*;
use crate::hexcode::{all_hex_digits, decode_hex, hex_decoded};
use crate::opid::{derive_pay_operation_id, pay_operation_id_of};
use crate::types::{OperationId, OperationRecord, PayKind, PaymentHash, Preimage};

verus! {

#[verifier::external_type_specification]
#[verifier::external_body]
pub struct ExBolt11Invoice(lightning_invoice::Bolt11Invoice);

#[verifier::external_type_specification]
#[verifier::external_body]
pub struct ExParseOrSemanticError(lightning_invoice::ParseOrSemanticError);

/// Whether a string is a well-formed BOLT 11 invoice; validity is a
/// function of the string alone. Its value is not stated here.
pub uninterp spec fn bolt11_ok(s: Seq<char>) -> bool;

/// Relies on Bolt11Invoice::from_str of lightning-invoice: parsing
/// succeeds on exactly the syntactically and semantically valid BOLT 11
/// strings, and validity depends on the string alone.
#[verifier::external_body]
fn parse_bolt11(s: &str) -> (r: Result<
    lightning_invoice::Bolt11Invoice,
    lightning_invoice::ParseOrSemanticError,
>)
    ensures
        r is Ok <==> bolt11_ok(s@),
{
    s.parse::<lightning_invoice::Bolt11Invoice>()
}

/// Relies on Bolt11Invoice::payment_hash of lightning-invoice: every
/// parsed invoice embeds a 32-byte payment hash.
#[verifier::external_body]
fn invoice_payment_hash(inv: &lightning_invoice::Bolt11Invoice) -> (r: PaymentHash)
    ensures
        r.wf(),
{
    let hash_bytes: &[u8] = inv.payment_hash().as_ref();
    PaymentHash { bytes: hash_bytes.to_vec() }
}

/// The attempt index of every payment: retries are never dispatched, so
/// each payment is attempt zero. The index is kept in the derivation so a
/// later retry scheme can allocate further indices without colliding.
pub const PAY_ATTEMPT_INDEX: u16 = 0;

/// Why an outbound payment failed.
pub enum PayError {
    /// The caller-supplied invoice string is not a valid BOLT 11 invoice.
    InvalidInvoice,
    /// The ledger session offered no Lightning gateway.
    NoGatewayAvailable,
    /// The operation logged under the derived identifier is not an
    /// outbound payment: an idempotent replay found an entry of the wrong
    /// shape.
    InconsistentOperationKind,
    /// The payment ended in the given failing terminal state.
    PaymentFailed { state: String },
    /// The reported preimage is malformed or not 32 bytes.
    InvalidPreimage,
    /// The session reported no terminal outcome for a dispatched payment.
    NoOutcome,
}

/// A parsed and identified pay attempt: the invoice, its payment hash, and
/// the idempotent operation identifier derived from them.
pub struct PayRequest {
    pub invoice: lightning_invoice::Bolt11Invoice,
    pub payment_hash: PaymentHash,
    pub operation_id: OperationId,
}

/// Parses a caller-supplied invoice string and derives the identifier of
/// its unique pay attempt. Exactly the valid BOLT 11 strings are accepted;
/// an invalid string is rejected before any engine interaction.
pub fn prepare_pay(s: &str) -> (r: Result<PayRequest, PayError>)
    ensures
        r is Ok <==> bolt11_ok(s@),
        r matches Ok(req) ==> req.payment_hash.wf() && req.operation_id.wf()
            && req.operation_id@ == pay_operation_id_of(req.payment_hash@, PAY_ATTEMPT_INDEX),
        r matches Err(e) ==> e is InvalidInvoice,
{
    match parse_bolt11(s) {
        Ok(invoice) => {
            let payment_hash = invoice_payment_hash(&invoice);
            let operation_id = derive_pay_operation_id(&payment_hash, PAY_ATTEMPT_INDEX);
            Ok(PayRequest { invoice, payment_hash, operation_id })
        },
        Err(_) => Err(PayError::InvalidInvoice),
    }
}

/// How a pay call proceeds after looking up its operation identifier:
/// await the operation that already exists, or dispatch a fresh payment.
pub enum PayRoute {
    /// An operation of the given settlement class is already logged; await
    /// its outcome and do not dispatch again.
    AwaitExisting { kind: PayKind },
    /// Nothing is logged under the identifier; dispatch the payment.
    Dispatch,
}

/// What the operation-log lookup decides: an existing pay operation is
/// awaited in its recorded settlement class, an absent entry leads to a
/// dispatch, and an entry of any other shape is an inconsistency.
pub open spec fn route_of(found: Option<OperationRecord>) -> Result<PayRoute, PayError> {
    match found {
        None => Ok(PayRoute::Dispatch),
        Some(OperationRecord::Pay { is_internal }) => Ok(
            PayRoute::AwaitExisting {
                kind: if is_internal {
                    PayKind::Internal
                } else {
                    PayKind::Routed
                },
            },
        ),
        Some(OperationRecord::Receive) => Err(PayError::InconsistentOperationKind),
        Some(OperationRecord::Foreign) => Err(PayError::InconsistentOperationKind),
    }
}

/// Routes a pay call on what the operation log holds under its derived
/// identifier.
pub fn classify_pay_lookup(found: Option<OperationRecord>) -> (r: Result<PayRoute, PayError>)
    ensures
        r == route_of(found),
{
    match found {
        None => Ok(PayRoute::Dispatch),
        Some(OperationRecord::Pay { is_internal }) => Ok(
            PayRoute::AwaitExisting {
                kind: if is_internal {
                    PayKind::Internal
                } else {
                    PayKind::Routed
                },
            },
        ),
        Some(OperationRecord::Receive) => Err(PayError::InconsistentOperationKind),
        Some(OperationRecord::Foreign) => Err(PayError::InconsistentOperationKind),
    }
}

/// The terminal state the ledger session reports for an outbound payment:
/// success carrying the preimage — raw from internal settlement, in its
/// hexadecimal wire form from routed settlement — or a failing terminal
/// state with its description.
pub enum PayConclusion {
    InternalSuccess { preimage: Vec<u8> },
    RoutedSuccess { preimage_hex: Vec<u8> },
    Failed { state: String },
}

/// Settles the reported outcome of an outbound payment. Success yields the
/// 32-byte preimage: directly for internal settlement, decoded from its
/// hexadecimal wire form for routed settlement, rejecting a malformed or
/// mis-sized value. A failing state is surfaced verbatim, and a missing
/// outcome is the session's protocol violation, never silently resolved.
pub fn settle_pay(outcome: Option<PayConclusion>) -> (r: Result<Preimage, PayError>)
    ensures
        outcome is None ==> (r matches Err(e) && e is NoOutcome),
        outcome matches Some(PayConclusion::InternalSuccess { preimage }) ==> (if preimage@.len()
            == 32 {
            r matches Ok(p) && p@ == preimage@
        } else {
            r matches Err(e) && e is InvalidPreimage
        }),
        outcome matches Some(PayConclusion::RoutedSuccess { preimage_hex }) ==> (if preimage_hex@.len()
            == 64 && all_hex_digits(preimage_hex@) {
            r matches Ok(p) && p@ == hex_decoded(preimage_hex@)
        } else {
            r matches Err(e) && e is InvalidPreimage
        }),
        outcome matches Some(PayConclusion::Failed { state }) ==> (r matches Err(e) && e
            matches PayError::PaymentFailed { state: reported } && reported == state),
        r matches Ok(p) ==> p.wf(),
{
    match outcome {
        None => Err(PayError::NoOutcome),
        Some(PayConclusion::InternalSuccess { preimage }) => match Preimage::new(preimage) {
            Some(p) => Ok(p),
            None => Err(PayError::InvalidPreimage),
        },
        Some(PayConclusion::RoutedSuccess { preimage_hex }) => match decode_hex(&preimage_hex) {
            Some(bytes) => match Preimage::new(bytes) {
                Some(p) => Ok(p),
                None => Err(PayError::InvalidPreimage),
            },
            None => Err(PayError::InvalidPreimage),
        },
        Some(PayConclusion::Failed { state }) => Err(PayError::PaymentFailed { state }),
    }
}

/// Law: pay is idempotent over the operation log. A fresh dispatch is
/// decided exactly when nothing is logged under the derived identifier;
/// once a pay operation exists, a repeated call is routed to it and never
/// dispatches a second settlement attempt.
pub proof fn lemma_pay_dispatch_only_when_absent(found: Option<OperationRecord>)
    ensures
        route_of(found) == Ok::<PayRoute, PayError>(PayRoute::Dispatch) <==> found is None,
{
}

} // verus!
