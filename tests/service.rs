use prover_server::circuit::{CircuitConfig, TraceSummary, MAX_CALLDATA, MAX_TXS};
use prover_server::prove::{
    agg_proof_dir, block_out_dir, needs_agg_params, params_degrees, plan_batch_run,
    proof_file_name, setup_degrees, CircuitType, DegreeTooLarge, ProofResult,
};
use prover_server::prover_error::ErrorCode;
use prover_server::server::{
    MockRpcImpl, ProveAction, ProveEvent, ProveState, RpcImpl, MOCK_FINAL_PAIR_LEN,
    MOCK_PROOF_LEN,
};
use prover_server::utils::{is_cancun_trace, kroma_msg};
use prover_server::zk_spec::ZkSpec;

fn service(chain_id: u64) -> RpcImpl {
    RpcImpl::new(CircuitConfig::new(19, 26, chain_id))
}

#[test]
fn too_many_txs_rejected_before_any_work() {
    let rpc = service(909);
    for chain_id in [909u64, 1] {
        let t = TraceSummary::new(7, chain_id, MAX_TXS + 1);
        let (state, action) = rpc.step(ProveState::Received, ProveEvent::TraceParsed(Ok(t)));
        assert!(matches!(state, ProveState::Finished));
        match action {
            ProveAction::Reply(e) => assert_eq!(e.code, ErrorCode::TooManyTxs),
            other => panic!("unexpected {other:?}"),
        }
    }
    let t = TraceSummary::new(7, 909, MAX_TXS);
    assert!(rpc.validate(Ok(t)).is_ok());
}

#[test]
fn chain_id_mismatch_rejected() {
    let rpc = service(909);
    let e = rpc.validate(Ok(TraceSummary::new(7, 1, 2))).unwrap_err();
    assert_eq!(e.code, ErrorCode::ChainIdNotMatched);
    assert_eq!(
        e.message.as_deref(),
        Some("ChainId not matched, expected(909), actual(1)")
    );
}

#[test]
fn unreadable_trace_rejected() {
    let rpc = service(909);
    let e = rpc.validate(Err("EOF while parsing".to_string())).unwrap_err();
    assert_eq!(e.code, ErrorCode::TraceParseError);
    assert_eq!(e.message.as_deref(), Some("EOF while parsing"));
}

#[test]
fn end_to_end_evm_trace_of_configured_chain() {
    let rpc = service(909);
    let t = TraceSummary::new(42, 909, 2);
    let (state, action) = rpc.step(ProveState::Received, ProveEvent::TraceParsed(Ok(t)));
    assert!(matches!(action, ProveAction::LoadParams(19, 26)));
    let (state, action) = rpc.step(state, ProveEvent::ParamsLoaded(true));
    match &action {
        ProveAction::CreateProof(dir) => assert_eq!(dir, "./out_proof/42"),
        other => panic!("unexpected {other:?}"),
    }
    let (state, action) =
        rpc.step(state, ProveEvent::ProofCreated(vec![1, 2, 3], vec![4, 5]));
    assert!(matches!(state, ProveState::Finished));
    match action {
        ProveAction::WriteProof(dir, result) => {
            assert_eq!(dir, "./out_proof/42/agg.proof");
            assert!(!result.proof.is_empty());
            assert_eq!(result.proof, vec![1, 2, 3]);
            assert_eq!(result.final_pair, Some(vec![4, 5]));
        }
        other => panic!("unexpected {other:?}"),
    }

    let (state, action) = rpc.step(
        ProveState::Received,
        ProveEvent::TraceParsed(Ok(TraceSummary::new(42, 1, 2))),
    );
    assert!(matches!(state, ProveState::Finished));
    match action {
        ProveAction::Reply(e) => assert_eq!(e.code, ErrorCode::ChainIdNotMatched),
        other => panic!("unexpected {other:?}"),
    }
}

#[test]
fn missing_params_and_failures_end_the_request() {
    let rpc = service(909);
    let t = TraceSummary::new(1, 909, 0);
    let (state, _) = rpc.step(ProveState::Received, ProveEvent::TraceParsed(Ok(t)));
    let (state, action) = rpc.step(state, ProveEvent::ParamsLoaded(false));
    assert!(matches!(state, ProveState::Finished));
    match action {
        ProveAction::Reply(e) => assert_eq!(e.code, ErrorCode::KZGParamsNotFound),
        other => panic!("unexpected {other:?}"),
    }
    let (_, action) = rpc.step(
        ProveState::AwaitingProof(t, "./out_proof/1".to_string()),
        ProveEvent::ProofFailed,
    );
    assert!(matches!(action, ProveAction::Fail));
    let (_, action) = rpc.step(ProveState::Finished, ProveEvent::ParamsLoaded(true));
    assert!(matches!(action, ProveAction::Fail));
}

#[test]
fn spec_is_the_same_on_every_call() {
    let rpc = service(909);
    let a = rpc.spec();
    let b = rpc.spec();
    assert_eq!(a, b);
    assert_eq!(
        a,
        ZkSpec {
            degree: 19,
            agg_degree: 26,
            chain_id: 909,
            max_txs: MAX_TXS as u32,
            max_call_data: MAX_CALLDATA as u32,
        }
    );
    let wide = service(0x1_0000_0001).spec();
    assert_eq!(wide.chain_id, 1);
}

#[test]
fn mock_returns_zero_proof_of_fixed_lengths() {
    for trace in ["", "{\"anything\": 1}", "not json"] {
        let r: ProofResult = MockRpcImpl.prove(trace);
        assert_eq!(r.proof.len(), MOCK_PROOF_LEN);
        assert_eq!(MOCK_PROOF_LEN, 4640);
        assert!(r.proof.iter().all(|b| *b == 0));
        let pair = r.final_pair.expect("final pair");
        assert_eq!(pair.len(), MOCK_FINAL_PAIR_LEN);
        assert_eq!(MOCK_FINAL_PAIR_LEN, 128);
        assert!(pair.iter().all(|b| *b == 0));
    }
}

#[test]
fn batch_plans_name_files_per_circuit() {
    let p = plan_batch_run("block7", CircuitType::EVM, true);
    assert_eq!(p.out_dir, "block7");
    assert_eq!(p.proof_path, "block7/evm.proof");
    assert_eq!(p.verifier_path, None);
    let p = plan_batch_run("block7", CircuitType::STATE, false);
    assert_eq!(p.proof_path, "block7/state.proof");
    let p = plan_batch_run("block7", CircuitType::AGG, true);
    assert_eq!(p.proof_path, "block7/agg.proof");
    assert_eq!(p.verifier_path.as_deref(), Some("block7/verifier.sol"));
    let p = plan_batch_run("block7", CircuitType::AGG, false);
    assert_eq!(p.verifier_path, None);
    assert_eq!(proof_file_name(CircuitType::STATE), "state.proof");
}

#[test]
fn only_aggregation_loads_agg_params() {
    let config = CircuitConfig::new(19, 26, 909);
    assert!(needs_agg_params(CircuitType::AGG));
    assert!(!needs_agg_params(CircuitType::EVM));
    assert_eq!(params_degrees(&config, CircuitType::AGG), vec![19, 26]);
    assert_eq!(params_degrees(&config, CircuitType::STATE), vec![19]);
}

#[test]
fn setup_degree_choice() {
    let config = CircuitConfig::new(19, 26, 909);
    assert_eq!(setup_degrees(&config, 0), Ok(vec![19, 26]));
    assert_eq!(setup_degrees(&config, 30), Ok(vec![30]));
    assert_eq!(setup_degrees(&config, 1), Ok(vec![1]));
    assert_eq!(setup_degrees(&config, 31), Err(DegreeTooLarge { degree: 31 }));
}

#[test]
fn output_directories() {
    assert_eq!(block_out_dir(0), "./out_proof/0");
    assert_eq!(block_out_dir(u64::MAX), "./out_proof/18446744073709551615");
    assert_eq!(agg_proof_dir("./out_proof/9"), "./out_proof/9/agg.proof");
}

#[test]
fn test_is_cancun_trace() {
    let push0 = "{\"structLogs\":[{\"op\":\"PUSH0\"},{\"op\":\"SSTORE\"}]}".to_string();
    assert!(!is_cancun_trace(&push0));
    let mcopy = "{\"structLogs\":[{\"op\":\"MCOPY\"}]}".to_string();
    assert!(is_cancun_trace(&mcopy));
    let tstore = "{\"structLogs\":[{\"op\":\"TSTORE\"}]}".to_string();
    assert!(is_cancun_trace(&tstore));
    let tload = "{\"structLogs\":[{\"op\":\"TLOAD\"}]}".to_string();
    assert!(is_cancun_trace(&tload));
    assert!(!is_cancun_trace(&"TLOA".to_string()));
    assert!(!is_cancun_trace(&String::new()));
}

#[test]
fn messages_are_framed() {
    assert_eq!(kroma_msg("start creating proof"), "[KROMA] start creating proof");
    assert_eq!(kroma_msg(""), "[KROMA] ");
}
