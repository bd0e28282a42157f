//! Core data model: 32-byte identifiers and the shape of operation-log
//! entries, as plain values the verifier can reason about.

use vstd::prelude::*;

verus! {

/// A Lightning payment hash: exactly 32 bytes once well formed.
pub struct PaymentHash {
    pub bytes: Vec<u8>,
}

impl View for PaymentHash {
    type V = Seq<u8>;

    open spec fn view(&self) -> Seq<u8> {
        self.bytes@
    }
}

impl PaymentHash {
    /// Well-formedness invariant: a payment hash is exactly 32 bytes.
    pub open spec fn wf(&self) -> bool {
        self@.len() == 32
    }

    /// Wraps raw bytes as a payment hash; only a 32-byte value is accepted.
    pub fn new(bytes: Vec<u8>) -> (r: Option<PaymentHash>)
        ensures
            r matches Some(h) ==> h.wf() && h@ == bytes@,
            r is None <==> bytes@.len() != 32,
    {
        if bytes.len() == 32 {
            Some(PaymentHash { bytes })
        } else {
            None
        }
    }
}

/// A deterministic 32-byte identifier of one operation in the ledger
/// session's log.
pub struct OperationId {
    pub bytes: Vec<u8>,
}

impl View for OperationId {
    type V = Seq<u8>;

    open spec fn view(&self) -> Seq<u8> {
        self.bytes@
    }
}

impl OperationId {
    /// Well-formedness invariant: an operation identifier is exactly 32 bytes.
    pub open spec fn wf(&self) -> bool {
        self@.len() == 32
    }
}

/// A 32-byte preimage proving that a Lightning payment completed.
pub struct Preimage {
    pub bytes: Vec<u8>,
}

impl View for Preimage {
    type V = Seq<u8>;

    open spec fn view(&self) -> Seq<u8> {
        self.bytes@
    }
}

impl Preimage {
    /// Well-formedness invariant: a preimage is exactly 32 bytes.
    pub open spec fn wf(&self) -> bool {
        self@.len() == 32
    }

    /// Wraps raw bytes as a preimage; only a 32-byte value is accepted.
    pub fn new(bytes: Vec<u8>) -> (r: Option<Preimage>)
        ensures
            r matches Some(p) ==> p.wf() && p@ == bytes@,
            r is None <==> bytes@.len() != 32,
    {
        if bytes.len() == 32 {
            Some(Preimage { bytes })
        } else {
            None
        }
    }
}

/// What an operation-log lookup reveals about the entry stored under an
/// identifier: an inbound Lightning receive, an outbound Lightning payment
/// (tagged with whether it settled inside the federation), or an entry that
/// belongs to some other module and is no Lightning operation at all.
pub enum OperationRecord {
    Receive,
    Pay { is_internal: bool },
    Foreign,
}

/// The two settlement classes of an outbound payment: settled inside the
/// federation, or routed over the public Lightning network.
pub enum PayKind {
    Internal,
    Routed,
}

} // verus!
