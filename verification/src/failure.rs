//! The structured record of a failed transaction.
//!
//! A failure wraps either the raw output bytes of a revert, an out-of-gas
//! condition, an "opcode not found" condition, or an opaque inner halt
//! reason, together with the hash of the offending transaction and the
//! optional `0x`-prefixed hex of the raw revert output.  The low-level halt
//! value is defined by the external execution engine; it is modelled here by
//! the kinds this crate distinguishes plus its rendered form.

use vstd::prelude::*;

verus! {

use crate::revert::renderable;
use crate::revert::revert_error;
use crate::revert::spec_revert_message;
use crate::text::hex_encode;
use crate::text::hex_of;
use crate::text::json_escape;
use crate::text::json_escaped;
use vstd::string::StringExecFns;

/// A 32-byte hash.
#[derive(Clone, Copy, Debug, PartialEq, Eq)]
pub struct B256(pub [u8; 32]);

/// The detail of an out-of-gas halt, as the execution engine names it.
#[derive(Clone, Debug, PartialEq, Eq)]
pub struct OutOfGasError {
    pub detail: String,
}

/// A low-level halt reason handed over by the execution engine.  The kinds
/// that this crate maps specially stand on their own; every other kind is
/// opaque and carries its rendered form.
#[derive(Clone, Debug, PartialEq, Eq)]
pub enum Halt {
    OpcodeNotFound,
    InvalidFEOpcode,
    OutOfGas(OutOfGasError),
    Other(String),
}

/// Why a transaction failed.  A revert always carries the exact bytes the
/// failed call returned; rendering is deferred to display time.
#[derive(Clone, Debug, PartialEq, Eq)]
pub enum TransactionFailureReason {
    Inner(Halt),
    OpcodeNotFound,
    OutOfGas(OutOfGasError),
    Revert(Vec<u8>),
}

/// A failed transaction: the reason, the optional `0x`-hex of the raw
/// revert output, and the transaction's hash.
#[derive(Clone, Debug, PartialEq, Eq)]
pub struct TransactionFailure {
    pub reason: TransactionFailureReason,
    pub data: Option<String>,
    pub transaction_hash: B256,
}

/// The reason a halt collapses to: "opcode not found" and "invalid
/// instruction" halts both become `OpcodeNotFound`, an out-of-gas halt keeps
/// its detail, and every other halt is kept verbatim.
pub open spec fn halt_reason(halt: Halt) -> TransactionFailureReason {
    match halt {
        Halt::OpcodeNotFound => TransactionFailureReason::OpcodeNotFound,
        Halt::InvalidFEOpcode => TransactionFailureReason::OpcodeNotFound,
        Halt::OutOfGas(error) => TransactionFailureReason::OutOfGas(error),
        Halt::Other(_) => TransactionFailureReason::Inner(halt),
    }
}

/// The debug form of a halt value.
pub open spec fn spec_halt_text(halt: Halt) -> Seq<char> {
    match halt {
        Halt::OpcodeNotFound => "OpcodeNotFound"@,
        Halt::InvalidFEOpcode => "InvalidFEOpcode"@,
        Halt::OutOfGas(error) => "OutOfGas("@ + error.detail@ + ")"@,
        Halt::Other(text) => text@,
    }
}

/// A revert reason can be rendered unless its panic code overflows 64 bits.
pub open spec fn renderable_reason(r: TransactionFailureReason) -> bool {
    match r {
        TransactionFailureReason::Revert(output) => renderable(output@),
        _ => true,
    }
}

/// The displayed form of a failure: the halt's own debug form, the fixed
/// invalid-opcode message, the fixed "out of gas" string, or the decoded
/// revert reason.
pub open spec fn spec_failure_message(f: TransactionFailure) -> Seq<char> {
    match f.reason {
        TransactionFailureReason::Inner(halt) => spec_halt_text(halt),
        TransactionFailureReason::OpcodeNotFound => "VM Exception while processing transaction: invalid opcode"@,
        TransactionFailureReason::OutOfGas(_) => "out of gas"@,
        TransactionFailureReason::Revert(output) => spec_revert_message(output@),
    }
}

/// The JSON string literal denoting `s`.
pub open spec fn json_string(s: Seq<char>) -> Seq<char> {
    seq!['"'] + json_escaped(s) + seq!['"']
}

/// The JSON form of a halt value.
pub open spec fn spec_halt_json(halt: Halt) -> Seq<char> {
    match halt {
        Halt::OpcodeNotFound => "\"OpcodeNotFound\""@,
        Halt::InvalidFEOpcode => "\"InvalidFEOpcode\""@,
        Halt::OutOfGas(error) => "{\"OutOfGas\":"@ + json_string(error.detail@) + "}"@,
        Halt::Other(text) => json_string(text@),
    }
}

/// The JSON form of a failure reason, as a tagged union.
pub open spec fn spec_reason_json(r: TransactionFailureReason) -> Seq<char> {
    match r {
        TransactionFailureReason::Inner(halt) => "{\"Inner\":"@ + spec_halt_json(halt) + "}"@,
        TransactionFailureReason::OpcodeNotFound => "\"OpcodeNotFound\""@,
        TransactionFailureReason::OutOfGas(error) => "{\"OutOfGas\":"@ + json_string(
            error.detail@,
        ) + "}"@,
        TransactionFailureReason::Revert(output) => "{\"Revert\":\"0x"@ + hex_of(output@)
            + "\"}"@,
    }
}

/// The structured JSON form of a failure, with lower-camel-case field
/// names.
pub open spec fn spec_failure_json(f: TransactionFailure) -> Seq<char> {
    "{\"reason\":"@ + spec_reason_json(f.reason) + ",\"data\":"@ + (match f.data {
        Some(d) => json_string(d@),
        None => "null"@,
    }) + ",\"transactionHash\":\"0x"@ + hex_of(f.transaction_hash.0@) + "\"}"@
}

/// Renders a string as a JSON string literal.
fn json_quote(s: &str) -> (r: String)
    ensures
        r@ == json_string(s@),
{
    let mut r = String::from_str("\"");
    r.append(json_escape(s).as_str());
    r.append("\"");
    proof {
        reveal_strlit("\"");
        assert(r@ =~= json_string(s@));
    }
    r
}

/// Renders a halt value's debug form.
fn halt_text(halt: &Halt) -> (s: String)
    ensures
        s@ == spec_halt_text(*halt),
{
    match halt {
        Halt::OpcodeNotFound => String::from_str("OpcodeNotFound"),
        Halt::InvalidFEOpcode => String::from_str("InvalidFEOpcode"),
        Halt::OutOfGas(error) => {
            let mut s = String::from_str("OutOfGas(");
            s.append(error.detail.as_str());
            s.append(")");
            s
        },
        Halt::Other(text) => text.clone(),
    }
}

/// Renders a halt value's JSON form.
fn halt_json(halt: &Halt) -> (s: String)
    ensures
        s@ == spec_halt_json(*halt),
{
    match halt {
        Halt::OpcodeNotFound => String::from_str("\"OpcodeNotFound\""),
        Halt::InvalidFEOpcode => String::from_str("\"InvalidFEOpcode\""),
        Halt::OutOfGas(error) => {
            let mut s = String::from_str("{\"OutOfGas\":");
            s.append(json_quote(error.detail.as_str()).as_str());
            s.append("}");
            s
        },
        Halt::Other(text) => json_quote(text.as_str()),
    }
}

impl TransactionFailure {
    /// Wraps the output bytes of a reverted transaction: the reason keeps
    /// the exact bytes, and the data field holds their `0x`-prefixed hex.
    pub fn revert(output: Vec<u8>, transaction_hash: B256) -> (r: Self)
        ensures
            r.reason == (TransactionFailureReason::Revert(output)),
            r.data matches Some(d) && d@ == "0x"@ + hex_of(output@),
            r.transaction_hash == transaction_hash,
    {
        let mut data = String::from_str("0x");
        data.append(hex_encode(output.as_slice()).as_str());
        TransactionFailure {
            reason: TransactionFailureReason::Revert(output),
            data: Some(data),
            transaction_hash,
        }
    }

    /// Wraps a halt: the reason is the halt's collapsed kind, and no data
    /// is attached.
    pub fn halt(halt: Halt, tx_hash: B256) -> (r: Self)
        ensures
            r.reason == halt_reason(halt),
            r.data is None,
            r.transaction_hash == tx_hash,
    {
        let reason = match halt {
            Halt::OpcodeNotFound => TransactionFailureReason::OpcodeNotFound,
            Halt::InvalidFEOpcode => TransactionFailureReason::OpcodeNotFound,
            Halt::OutOfGas(error) => TransactionFailureReason::OutOfGas(error),
            Halt::Other(text) => TransactionFailureReason::Inner(Halt::Other(text)),
        };
        TransactionFailure { reason, data: None, transaction_hash: tx_hash }
    }

    /// Renders the failure for display.
    pub fn message(&self) -> (s: String)
        requires
            renderable_reason(self.reason),
        ensures
            s@ == spec_failure_message(*self),
    {
        match &self.reason {
            TransactionFailureReason::Inner(halt) => halt_text(halt),
            TransactionFailureReason::OpcodeNotFound => String::from_str(
                "VM Exception while processing transaction: invalid opcode",
            ),
            TransactionFailureReason::OutOfGas(_) => String::from_str("out of gas"),
            TransactionFailureReason::Revert(output) => revert_error(output.as_slice()),
        }
    }

    /// Serializes the failure to its structured JSON form.
    pub fn to_json(&self) -> (s: String)
        ensures
            s@ == spec_failure_json(*self),
    {
        let mut s = String::from_str("{\"reason\":");
        match &self.reason {
            TransactionFailureReason::Inner(halt) => {
                s.append("{\"Inner\":");
                s.append(halt_json(halt).as_str());
                s.append("}");
            },
            TransactionFailureReason::OpcodeNotFound => {
                s.append("\"OpcodeNotFound\"");
            },
            TransactionFailureReason::OutOfGas(error) => {
                s.append("{\"OutOfGas\":");
                s.append(json_quote(error.detail.as_str()).as_str());
                s.append("}");
            },
            TransactionFailureReason::Revert(output) => {
                s.append("{\"Revert\":\"0x");
                s.append(hex_encode(output.as_slice()).as_str());
                s.append("\"}");
            },
        }
        s.append(",\"data\":");
        match &self.data {
            Some(d) => {
                s.append(json_quote(d.as_str()).as_str());
            },
            None => {
                s.append("null");
            },
        }
        s.append(",\"transactionHash\":\"0x");
        s.append(hex_encode(self.transaction_hash.0.as_slice()).as_str());
        s.append("\"}");
        proof {
            assert(s@ =~= spec_failure_json(*self));
        }
        s
    }
}

/// An out-of-gas failure always displays exactly "out of gas", whatever
/// detail the halt carried.
pub proof fn lemma_out_of_gas_message(f: TransactionFailure)
    requires
        f.reason matches TransactionFailureReason::OutOfGas(_),
    ensures
        spec_failure_message(f) == "out of gas"@,
{
}

} // verus!
