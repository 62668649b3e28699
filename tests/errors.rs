use prover_server::circuit::MAX_TXS;
use prover_server::prover_error::{ErrorCode, ProverError};

#[test]
fn error_codes_have_fixed_numbers() {
    assert_eq!(ErrorCode::KZGParamsNotFound.code(), 1000);
    assert_eq!(ErrorCode::TraceParseError.code(), 2000);
    assert_eq!(ErrorCode::ChainIdNotMatched.code(), 2001);
    assert_eq!(ErrorCode::TooManyTxs.code(), 3000);
}

#[test]
fn error_codes_read_back() {
    for c in [
        ErrorCode::KZGParamsNotFound,
        ErrorCode::TraceParseError,
        ErrorCode::ChainIdNotMatched,
        ErrorCode::TooManyTxs,
    ] {
        assert_eq!(ErrorCode::from_code(c.code()), Some(c));
    }
    assert_eq!(ErrorCode::from_code(0), None);
    assert_eq!(ErrorCode::from_code(2002), None);
}

#[test]
fn error_constructors_carry_code_and_message() {
    let e = ProverError::kzg_params_not_found();
    assert_eq!(e.code, ErrorCode::KZGParamsNotFound);
    assert_eq!(e.message, None);

    let e = ProverError::trace_parse_error("expected value at line 1".to_string());
    assert_eq!(e.code, ErrorCode::TraceParseError);
    assert_eq!(e.message.as_deref(), Some("expected value at line 1"));

    let e = ProverError::chain_id_not_matched(909, 1);
    assert_eq!(e.code, ErrorCode::ChainIdNotMatched);
    assert_eq!(
        e.message.as_deref(),
        Some("ChainId not matched, expected(909), actual(1)")
    );

    let e = ProverError::too_many_txs(30);
    assert_eq!(e.code, ErrorCode::TooManyTxs);
    assert_eq!(
        e.message,
        Some(format!("Too may txs, max_txs({}), actual(30)", MAX_TXS))
    );

    let e = ProverError::new(ErrorCode::TooManyTxs, None);
    assert_eq!(e.code, ErrorCode::TooManyTxs);
    assert!(e.message.is_none());
}
