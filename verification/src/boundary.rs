//! The request/response boundary over the engine: validation of caller
//! input, and the translation of every engine outcome into exactly one
//! reply. Every non-success reply corresponds to one entry of the error
//! taxonomy; the boundary never invents a synthetic success.

use vstd::prelude::*;
use crate::hexcode::{all_hex_digits, decode_hex, encode_hex, hex_chars_of, hex_decoded};
use crate::pay::PayError;
use crate::receive::{ReceiveError, ReceiveSettlement};
use crate::types::{PaymentHash, Preimage};

verus! {

/// The boundary's failing replies, one per taxonomy entry the caller can
/// observe.
#[derive(Clone, Copy, PartialEq, Eq, Structural, Debug)]
pub enum ApiError {
    /// The request carried no credential, or a wrong one.
    Unauthorized,
    /// The caller's input is malformed and never reaches the engine.
    BadRequest,
    /// The addressed operation legitimately does not exist here.
    NotFound,
    /// An engine or collaborator fault; nothing the caller sent is wrong.
    Internal,
}

/// The protocol status code of each failing reply.
pub open spec fn status_of(e: ApiError) -> u16 {
    match e {
        ApiError::Unauthorized => 401,
        ApiError::BadRequest => 400,
        ApiError::NotFound => 404,
        ApiError::Internal => 500,
    }
}

/// Maps a failing reply to its protocol status code.
pub fn status_code(e: &ApiError) -> (c: u16)
    ensures
        c == status_of(*e),
{
    match e {
        ApiError::Unauthorized => 401,
        ApiError::BadRequest => 400,
        ApiError::NotFound => 404,
        ApiError::Internal => 500,
    }
}

/// The reply to a successful invoice creation: the invoice in its wire
/// form and its payment hash in hexadecimal.
pub struct InvoiceReply {
    pub invoice: String,
    pub payment_hash: String,
}

/// The reply to a successful payment: the settlement preimage in
/// hexadecimal.
pub struct PayReply {
    pub preimage: String,
}

/// The reply to a balance query.
#[derive(Clone, Copy, PartialEq, Eq, Structural, Debug)]
pub struct BalanceReply {
    pub balance_msats: u64,
}

/// The reply of the blocking invoice-status endpoint.
#[derive(Clone, Copy, PartialEq, Eq, Structural, Debug)]
pub struct InvoiceStatusReply {
    pub paid: bool,
}

/// Validates the payment-hash path segment of a status request: exactly a
/// string of 64 hexadecimal digits decodes to a 32-byte hash; anything
/// else is a client error that never reaches the engine.
pub fn parse_payment_hash(path: &Vec<u8>) -> (r: Result<PaymentHash, ApiError>)
    ensures
        r is Ok <==> path@.len() == 64 && all_hex_digits(path@),
        r matches Ok(h) ==> h.wf() && h@ == hex_decoded(path@),
        r matches Err(e) ==> e is BadRequest,
{
    if path.len() != 64 {
        return Err(ApiError::BadRequest);
    }
    match decode_hex(path) {
        Some(bytes) => match PaymentHash::new(bytes) {
            Some(h) => Ok(h),
            None => Err(ApiError::BadRequest),
        },
        None => Err(ApiError::BadRequest),
    }
}

/// Why invoice creation failed in the engine; both are server-side
/// faults to the caller.
pub enum CreateError {
    /// The ledger session offered no Lightning gateway.
    NoGatewayAvailable,
    /// The session failed to create the invoice.
    SessionFault,
}

/// Translates the outcome of an invoice creation: success carries the
/// invoice's wire form and its payment hash rendered in hexadecimal;
/// every engine fault maps to the server-fault reply.
pub fn create_invoice_reply(outcome: Result<(String, PaymentHash), CreateError>) -> (r: Result<
    InvoiceReply,
    ApiError,
>)
    ensures
        outcome matches Ok((invoice, hash)) ==> (r matches Ok(reply) && reply.invoice@ == invoice@
            && reply.payment_hash@ == hex_chars_of(hash@)),
        outcome is Err ==> r == Err::<InvoiceReply, ApiError>(ApiError::Internal),
{
    match outcome {
        Ok((invoice, hash)) => Ok(
            InvoiceReply { payment_hash: encode_hex(&hash.bytes), invoice },
        ),
        Err(_) => Err(ApiError::Internal),
    }
}

/// Translates the outcome of the blocking status wait: a claimed invoice
/// reports paid, a canceled one reports unpaid as a normal reply, an
/// unknown operation is not found, and a wrong operation kind or a
/// protocol violation is a server fault.
pub fn check_invoice_reply(outcome: Result<ReceiveSettlement, ReceiveError>) -> (r: Result<
    InvoiceStatusReply,
    ApiError,
>)
    ensures
        outcome matches Ok(s) ==> (r matches Ok(reply) && (reply.paid <==> s is Paid)),
        outcome == Err::<ReceiveSettlement, ReceiveError>(ReceiveError::OperationNotFound) ==> r
            == Err::<InvoiceStatusReply, ApiError>(ApiError::NotFound),
        outcome == Err::<ReceiveSettlement, ReceiveError>(ReceiveError::WrongOperationKind) ==> r
            == Err::<InvoiceStatusReply, ApiError>(ApiError::Internal),
        outcome == Err::<ReceiveSettlement, ReceiveError>(ReceiveError::ProtocolViolation) ==> r
            == Err::<InvoiceStatusReply, ApiError>(ApiError::Internal),
{
    match outcome {
        Ok(ReceiveSettlement::Paid) => Ok(InvoiceStatusReply { paid: true }),
        Ok(ReceiveSettlement::Canceled { .. }) => Ok(InvoiceStatusReply { paid: false }),
        Err(ReceiveError::OperationNotFound) => Err(ApiError::NotFound),
        Err(ReceiveError::WrongOperationKind) => Err(ApiError::Internal),
        Err(ReceiveError::ProtocolViolation) => Err(ApiError::Internal),
    }
}

/// Translates the outcome of a pay call: success renders the preimage in
/// hexadecimal; an invalid invoice is the caller's error, every other
/// failure a server fault.
pub fn pay_reply(outcome: Result<Preimage, PayError>) -> (r: Result<
    PayReply,
    ApiError,
>)
    ensures
        outcome matches Ok(p) ==> (r matches Ok(reply) && reply.preimage@ == hex_chars_of(p@)),
        outcome matches Err(e) ==> (r matches Err(a) && (if e is InvalidInvoice {
            a is BadRequest
        } else {
            a is Internal
        })),
{
    match outcome {
        Ok(p) => Ok(PayReply { preimage: encode_hex(&p.bytes) }),
        Err(PayError::InvalidInvoice) => Err(ApiError::BadRequest),
        Err(_) => Err(ApiError::Internal),
    }
}

/// Wraps the session's balance, a pass-through query, in its reply.
pub fn balance_reply(balance_msats: u64) -> (r: BalanceReply)
    ensures
        r.balance_msats == balance_msats,
{
    BalanceReply { balance_msats }
}

} // verus!
