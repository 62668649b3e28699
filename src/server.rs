//! The proving service: the validation every trace passes before any work, the
//! sequence of steps of one `prove` request, and a mock that proves nothing.
//!
//! One request runs as a sequence of steps. The caller performs each action
//! that a step asks for (load parameters, run the prover, write the proof)
//! and hands the outcome back as the next event, until the request is
//! finished.
use vstd::prelude::*;
use crate::circuit::{CircuitConfig, TraceSummary, MAX_TXS};
use crate::prove::{agg_proof_dir, block_out_dir, block_out_dir_text, join_text, ProofResult};
use crate::prover_error::{chain_id_message, too_many_txs_message, ErrorCode, ProverError};
use crate::zk_spec::{spec_of, ZkSpec};

verus! {

/// The error that validation finds in a trace, checked cheapest first: the
/// trace must parse, fit the circuit, and belong to the configured chain.
pub open spec fn validation_error(config: CircuitConfig, parsed: Result<TraceSummary, String>) -> Option<ErrorCode> {
    match parsed {
        Err(_) => Some(ErrorCode::TraceParseError),
        Ok(t) => if t.tx_count > MAX_TXS {
            Some(ErrorCode::TooManyTxs)
        } else if t.chain_id != config.chain_id {
            Some(ErrorCode::ChainIdNotMatched)
        } else {
            None
        },
    }
}

/// The capacity check alone, as a batch run applies it to each trace it loads.
pub fn check_tx_count(tx_count: usize) -> (r: Result<(), ProverError>)
    ensures
        tx_count <= MAX_TXS <==> r is Ok,
        tx_count > MAX_TXS ==> r is Err && r->Err_0.code == ErrorCode::TooManyTxs
            && r->Err_0.message is Some && r->Err_0.message->Some_0@ == too_many_txs_message(
            tx_count as nat,
        ),
{
    if tx_count > MAX_TXS {
        Err(ProverError::too_many_txs(tx_count))
    } else {
        Ok(())
    }
}

/// A trace with more transactions than the circuit holds is turned away as
/// such, whatever its chain, before any parameter is loaded or proof attempted.
pub proof fn lemma_too_many_txs_rejected_first(config: CircuitConfig, t: TraceSummary)
    requires
        t.tx_count > MAX_TXS,
    ensures
        validation_error(config, Ok(t)) == Some(ErrorCode::TooManyTxs),
{
}

/// A trace that fits the circuit but belongs to another chain than the
/// configured one is turned away as a chain id mismatch, and yields no proof.
pub proof fn lemma_chain_id_mismatch_rejected(config: CircuitConfig, t: TraceSummary)
    requires
        t.tx_count <= MAX_TXS,
        t.chain_id != config.chain_id,
    ensures
        validation_error(config, Ok(t)) == Some(ErrorCode::ChainIdNotMatched),
{
}

/// The capability record depends on the configuration alone: one
/// configuration announces one record, however often it is asked.
pub proof fn lemma_spec_deterministic(a: CircuitConfig, b: CircuitConfig)
    requires
        a == b,
    ensures
        spec_of(a) == spec_of(b),
{
}

/// Where one `prove` request stands.
#[derive(Debug)]
pub enum ProveState {
    /// The request has arrived; its trace has not been read.
    Received,
    /// The trace passed validation; the parameters are being loaded.
    AwaitingParams(TraceSummary),
    /// The prover runs, writing its intermediate files to the directory.
    AwaitingProof(TraceSummary, String),
    /// The request is answered.
    Finished,
}

/// What the caller reports back after performing an action.
#[derive(Debug)]
pub enum ProveEvent {
    /// The trace was read, or could not be, with the reason.
    TraceParsed(Result<TraceSummary, String>),
    /// Whether the parameters of both degrees were found.
    ParamsLoaded(bool),
    /// The prover made an aggregated proof and its final pair.
    ProofCreated(Vec<u8>, Vec<u8>),
    /// The prover failed.
    ProofFailed,
}

/// What the caller is asked to do next.
#[derive(Debug)]
pub enum ProveAction {
    /// Load the parameters of both degrees.
    LoadParams(u32, u32),
    /// Run the prover on the trace, with this directory for its intermediate files.
    CreateProof(String),
    /// Write the proof into this directory and answer with the result.
    WriteProof(String, ProofResult),
    /// Answer with this error.
    Reply(ProverError),
    /// Answer with an internal error: the prover failed, or the event did not
    /// fit the request's state.
    Fail,
}

pub struct RpcImpl {
    pub config: CircuitConfig,
}

impl RpcImpl {
    pub fn new(config: CircuitConfig) -> (r: Self)
        ensures
            r.config == config,
    {
        RpcImpl { config }
    }

    /// The capability record clients check before they submit a trace.
    pub fn spec(&self) -> (r: ZkSpec)
        ensures
            r == spec_of(self.config),
    {
        ZkSpec::new(&self.config)
    }

    /// Validation: rejects a trace that did not parse, has too many
    /// transactions, or belongs to another chain, in that order.
    pub fn validate(&self, parsed: Result<TraceSummary, String>) -> (r: Result<TraceSummary, ProverError>)
        ensures
            match validation_error(self.config, parsed) {
                Some(c) => r matches Err(e) && e.code == c,
                None => r matches Ok(t) && parsed == Ok::<TraceSummary, String>(t),
            },
            parsed is Err ==> (r matches Err(e) && e.message == Some(parsed->Err_0)),
            parsed is Ok && parsed->Ok_0.tx_count > MAX_TXS ==> (r matches Err(e)
                && e.message matches Some(m) && m@ == too_many_txs_message(
                parsed->Ok_0.tx_count as nat,
            )),
            parsed is Ok && parsed->Ok_0.tx_count <= MAX_TXS && parsed->Ok_0.chain_id
                != self.config.chain_id ==> (r matches Err(e) && e.message matches Some(m) && m@
                == chain_id_message(self.config.chain_id as nat, parsed->Ok_0.chain_id as nat)),
    {
        match parsed {
            Err(msg) => Err(ProverError::trace_parse_error(msg)),
            Ok(t) => {
                if t.tx_count > MAX_TXS {
                    Err(ProverError::too_many_txs(t.tx_count))
                } else if t.chain_id != self.config.chain_id {
                    Err(ProverError::chain_id_not_matched(self.config.chain_id, t.chain_id))
                } else {
                    Ok(t)
                }
            },
        }
    }

    /// One step of a `prove` request: from where it stands and what the
    /// caller reports, where it goes and what the caller does next.
    pub fn step(&self, state: ProveState, event: ProveEvent) -> (r: (ProveState, ProveAction))
        ensures
            state is Received && event is TraceParsed ==> match validation_error(
                self.config,
                event->TraceParsed_0,
            ) {
                Some(c) => r.0 is Finished && r.1 is Reply && r.1->Reply_0.code == c,
                None => r.0 is AwaitingParams && event->TraceParsed_0 == Ok::<TraceSummary, String>(
                    r.0->AwaitingParams_0,
                ) && r.1 is LoadParams && r.1->LoadParams_0 == self.config.degree
                    && r.1->LoadParams_1 == self.config.agg_degree,
            },
            state is AwaitingParams && event is ParamsLoaded && event->ParamsLoaded_0 ==> r.0 is AwaitingProof
                && r.0->AwaitingProof_0 == state->AwaitingParams_0 && r.0->AwaitingProof_1@
                == block_out_dir_text(state->AwaitingParams_0.block_number as nat) && r.1 is CreateProof
                && r.1->CreateProof_0@ == r.0->AwaitingProof_1@,
            state is AwaitingParams && event is ParamsLoaded && !event->ParamsLoaded_0 ==> r.0 is Finished
                && r.1 is Reply && r.1->Reply_0.code == ErrorCode::KZGParamsNotFound,
            state is AwaitingProof && event is ProofCreated ==> r.0 is Finished && r.1 is WriteProof
                && r.1->WriteProof_0@ == join_text(state->AwaitingProof_1@, "agg.proof"@)
                && r.1->WriteProof_1.proof == event->ProofCreated_0 && r.1->WriteProof_1.final_pair
                == Some(event->ProofCreated_1),
            !((state is Received && event is TraceParsed) || (state is AwaitingParams
                && event is ParamsLoaded) || (state is AwaitingProof && event is ProofCreated))
                ==> r.0 is Finished && r.1 is Fail,
    {
        match (state, event) {
            (ProveState::Received, ProveEvent::TraceParsed(parsed)) => {
                match self.validate(parsed) {
                    Ok(t) => (
                        ProveState::AwaitingParams(t),
                        ProveAction::LoadParams(self.config.degree, self.config.agg_degree),
                    ),
                    Err(e) => (ProveState::Finished, ProveAction::Reply(e)),
                }
            },
            (ProveState::AwaitingParams(t), ProveEvent::ParamsLoaded(found)) => {
                if found {
                    let dir = block_out_dir(t.block_number);
                    let debug_dir = block_out_dir(t.block_number);
                    (ProveState::AwaitingProof(t, dir), ProveAction::CreateProof(debug_dir))
                } else {
                    (ProveState::Finished, ProveAction::Reply(ProverError::kzg_params_not_found()))
                }
            },
            (ProveState::AwaitingProof(_t, dir), ProveEvent::ProofCreated(proof, final_pair)) => {
                let proof_dir = agg_proof_dir(dir.as_str());
                (
                    ProveState::Finished,
                    ProveAction::WriteProof(proof_dir, ProofResult::new(proof, Some(final_pair))),
                )
            },
            _ => (ProveState::Finished, ProveAction::Fail),
        }
    }
}

/// The length of the mock's proof.
pub const MOCK_PROOF_LEN: usize = 4640;
/// The length of the mock's final pair.
pub const MOCK_FINAL_PAIR_LEN: usize = 128;

pub struct MockRpcImpl;

impl MockRpcImpl {
    /// Answers every trace, whatever it holds, with an all-zero proof and
    /// final pair of the lengths a real aggregated proof has; proves nothing.
    pub fn prove(&self, _trace: &str) -> (r: ProofResult)
        ensures
            r.proof@ == Seq::new(MOCK_PROOF_LEN as nat, |i: int| 0u8),
            r.final_pair matches Some(p) && p@ == Seq::new(MOCK_FINAL_PAIR_LEN as nat, |i: int| 0u8),
    {
        let proof: Vec<u8> = vec![0u8; MOCK_PROOF_LEN];
        let final_pair: Vec<u8> = vec![0u8; MOCK_FINAL_PAIR_LEN];
        assert(proof@ =~= Seq::new(MOCK_PROOF_LEN as nat, |i: int| 0u8));
        assert(final_pair@ =~= Seq::new(MOCK_FINAL_PAIR_LEN as nat, |i: int| 0u8));
        ProofResult::new(proof, Some(final_pair))
    }
}

} // verus!
