//! Error records returned to clients: a numeric code and an optional message.
use vstd::prelude::*;
use crate::circuit::MAX_TXS;
use crate::text::{decimal, push_decimal, push_text};

verus! {

/// Error Code
#[derive(Debug, Clone, Copy, PartialEq, Eq, Structural)]
pub enum ErrorCode {
    /// Cannot find the path for KZG parameters.
    KZGParamsNotFound,
    /// Received a trace that is invalid JSON.
    TraceParseError,
    /// Received a Trace with a different chain id from the server.
    ChainIdNotMatched,
    /// Received a trace containing transactions that exceed `MAX_TXS`.
    TooManyTxs,
}

/// The number a client sees: operator errors in the thousands, trace errors
/// in the two-thousands, capacity errors in the three-thousands.
pub open spec fn code_of(c: ErrorCode) -> i64 {
    match c {
        ErrorCode::KZGParamsNotFound => 1000,
        ErrorCode::TraceParseError => 2000,
        ErrorCode::ChainIdNotMatched => 2001,
        ErrorCode::TooManyTxs => 3000,
    }
}

impl ErrorCode {
    pub fn code(&self) -> (r: i64)
        ensures
            r == code_of(*self),
    {
        match *self {
            // Human error starts with `1`
            ErrorCode::KZGParamsNotFound => 1000,
            // Trace error starts with `2`
            ErrorCode::TraceParseError => 2000,
            ErrorCode::ChainIdNotMatched => 2001,
            // Spec. error starts with `3`
            ErrorCode::TooManyTxs => 3000,
        }
    }

    /// The error code that carries `code`, if any does.
    pub fn from_code(code: i64) -> (r: Option<ErrorCode>)
        ensures
            r matches Some(c) ==> code_of(c) == code,
            r is None ==> (forall|c: ErrorCode| code_of(c) != code),
    {
        if code == 1000 {
            Some(ErrorCode::KZGParamsNotFound)
        } else if code == 2000 {
            Some(ErrorCode::TraceParseError)
        } else if code == 2001 {
            Some(ErrorCode::ChainIdNotMatched)
        } else if code == 3000 {
            Some(ErrorCode::TooManyTxs)
        } else {
            assert forall|c: ErrorCode| code_of(c) != code by {
                match c {
                    ErrorCode::KZGParamsNotFound => {},
                    ErrorCode::TraceParseError => {},
                    ErrorCode::ChainIdNotMatched => {},
                    ErrorCode::TooManyTxs => {},
                }
            }
            None
        }
    }
}

/// No two error codes share a number, so each is read back from its own.
pub proof fn lemma_code_round_trip(c: ErrorCode)
    ensures
        forall|d: ErrorCode| code_of(d) == code_of(c) ==> d == c,
{
}

/// The message of a chain id mismatch.
pub open spec fn chain_id_message(server_chain_id: nat, trace_chain_id: nat) -> Seq<char> {
    "ChainId not matched, expected("@ + decimal(server_chain_id) + "), actual("@ + decimal(
        trace_chain_id,
    ) + ")"@
}

/// The message of a trace with too many transactions.
pub open spec fn too_many_txs_message(trace_tx_num: nat) -> Seq<char> {
    "Too may txs, max_txs("@ + decimal(MAX_TXS as nat) + "), actual("@ + decimal(trace_tx_num)
        + ")"@
}

/// Error object as defined in Spec
#[derive(Debug)]
pub struct ProverError {
    /// Code
    pub code: ErrorCode,
    /// Message
    pub message: Option<String>,
}

impl ProverError {
    /// Wraps given `ErrorCode`
    pub fn new(code: ErrorCode, message: Option<String>) -> (r: Self)
        ensures
            r.code == code,
            r.message == message,
    {
        ProverError { code, message }
    }

    /// Creates new `KZGParamsNotFound`
    pub fn kzg_params_not_found() -> (r: Self)
        ensures
            r.code == ErrorCode::KZGParamsNotFound,
            r.message is None,
    {
        Self::new(ErrorCode::KZGParamsNotFound, None)
    }

    /// Creates new `TraceParseError`
    pub fn trace_parse_error(msg: String) -> (r: Self)
        ensures
            r.code == ErrorCode::TraceParseError,
            r.message == Some(msg),
    {
        Self::new(ErrorCode::TraceParseError, Some(msg))
    }

    /// Creates new `ChainIdNotMatched`
    pub fn chain_id_not_matched(server_chain_id: u64, trace_chain_id: u64) -> (r: Self)
        ensures
            r.code == ErrorCode::ChainIdNotMatched,
            r.message matches Some(m) && m@ == chain_id_message(
                server_chain_id as nat,
                trace_chain_id as nat,
            ),
    {
        let mut msg = String::new();
        push_text(&mut msg, "ChainId not matched, expected(");
        push_decimal(&mut msg, server_chain_id);
        push_text(&mut msg, "), actual(");
        push_decimal(&mut msg, trace_chain_id);
        push_text(&mut msg, ")");
        Self::new(ErrorCode::ChainIdNotMatched, Some(msg))
    }

    /// Creates new `TooManyTxs`
    pub fn too_many_txs(trace_tx_num: usize) -> (r: Self)
        ensures
            r.code == ErrorCode::TooManyTxs,
            r.message matches Some(m) && m@ == too_many_txs_message(trace_tx_num as nat),
    {
        let mut msg = String::new();
        push_text(&mut msg, "Too may txs, max_txs(");
        push_decimal(&mut msg, MAX_TXS as u64);
        push_text(&mut msg, "), actual(");
        push_decimal(&mut msg, trace_tx_num as u64);
        push_text(&mut msg, ")");
        Self::new(ErrorCode::TooManyTxs, Some(msg))
    }
}

} // verus!
