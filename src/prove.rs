//! Proof bundles and where a run puts its artifacts.
use vstd::prelude::*;
use crate::circuit::CircuitConfig;
use crate::text::{decimal, push_decimal, push_text};

verus! {

/// Where the service writes one directory per proved block.
pub const OUT_PROOF_DIR: &'static str = "./out_proof/";
/// Where the service keeps the seed of its randomness.
pub const SEED_FILE: &'static str = "./rng_seed";
/// Where the service reads its parameters.
pub const PARAMS_DIR: &'static str = "./kzg_params/";

/// A proof handed to a client: the proof bytes, and for an aggregated proof
/// the pair that finishes the on-chain pairing check.
#[derive(Debug, Default)]
pub struct ProofResult {
    pub final_pair: Option<Vec<u8>>,
    pub proof: Vec<u8>,
}

impl ProofResult {
    pub fn new(proof: Vec<u8>, final_pair: Option<Vec<u8>>) -> (r: Self)
        ensures
            r.proof == proof,
            r.final_pair == final_pair,
    {
        Self { proof, final_pair }
    }
}

/// The circuit a batch run proves.
#[derive(Debug, Clone, Copy, PartialEq, Eq, Structural)]
pub enum CircuitType {
    EVM,
    STATE,
    AGG,
}

/// The fixed file name of each circuit's proof.
pub open spec fn proof_file_text(circuit: CircuitType) -> Seq<char> {
    match circuit {
        CircuitType::EVM => "evm.proof"@,
        CircuitType::STATE => "state.proof"@,
        CircuitType::AGG => "agg.proof"@,
    }
}

pub fn proof_file_name(circuit: CircuitType) -> (r: &'static str)
    ensures
        r@ == proof_file_text(circuit),
{
    match circuit {
        CircuitType::EVM => "evm.proof",
        CircuitType::STATE => "state.proof",
        CircuitType::AGG => "agg.proof",
    }
}

/// Only the aggregation circuit needs the parameters of the aggregation degree.
pub fn needs_agg_params(circuit: CircuitType) -> (r: bool)
    ensures
        r == (circuit == CircuitType::AGG),
{
    match circuit {
        CircuitType::AGG => true,
        _ => false,
    }
}

/// The degrees whose parameters a batch run loads, the base degree first.
pub fn params_degrees(config: &CircuitConfig, circuit: CircuitType) -> (r: Vec<u32>)
    ensures
        circuit == CircuitType::AGG ==> r@ == seq![config.degree, config.agg_degree],
        circuit != CircuitType::AGG ==> r@ == seq![config.degree],
{
    let mut r: Vec<u32> = Vec::new();
    r.push(config.degree);
    if needs_agg_params(circuit) {
        r.push(config.agg_degree);
    }
    r
}

/// Where one run of a batch writes: the trace's directory, the proof inside
/// it, and for an aggregated proof with a verifier requested, the contract.
#[derive(Debug)]
pub struct BatchPlan {
    pub out_dir: String,
    pub proof_path: String,
    pub verifier_path: Option<String>,
}

pub open spec fn join_text(dir: Seq<char>, name: Seq<char>) -> Seq<char> {
    dir + "/"@ + name
}

/// Lays out the artifacts of one trace of a batch run, named after the
/// trace's file.
pub fn plan_batch_run(trace_name: &str, circuit: CircuitType, gen_sol: bool) -> (r: BatchPlan)
    ensures
        r.out_dir@ == trace_name@,
        r.proof_path@ == join_text(trace_name@, proof_file_text(circuit)),
        (circuit == CircuitType::AGG && gen_sol) ==> (r.verifier_path matches Some(v) && v@
            == join_text(trace_name@, "verifier.sol"@)),
        !(circuit == CircuitType::AGG && gen_sol) ==> r.verifier_path is None,
{
    let mut out_dir = String::new();
    push_text(&mut out_dir, trace_name);
    let mut proof_path = String::new();
    push_text(&mut proof_path, trace_name);
    push_text(&mut proof_path, "/");
    push_text(&mut proof_path, proof_file_name(circuit));
    let verifier_path = if needs_agg_params(circuit) && gen_sol {
        let mut v = String::new();
        push_text(&mut v, trace_name);
        push_text(&mut v, "/");
        push_text(&mut v, "verifier.sol");
        Some(v)
    } else {
        None
    };
    BatchPlan { out_dir, proof_path, verifier_path }
}

/// The service's output directory of one block: `./out_proof/<height>`.
pub open spec fn block_out_dir_text(block_number: nat) -> Seq<char> {
    "./out_proof/"@ + decimal(block_number)
}

pub fn block_out_dir(block_number: u64) -> (r: String)
    ensures
        r@ == block_out_dir_text(block_number as nat),
{
    let mut s = String::new();
    push_text(&mut s, OUT_PROOF_DIR);
    proof {
        reveal_strlit("./out_proof/");
    }
    push_decimal(&mut s, block_number);
    s
}

/// Where an aggregated proof of the service is written, inside the block's
/// output directory.
pub fn agg_proof_dir(out_dir: &str) -> (r: String)
    ensures
        r@ == join_text(out_dir@, "agg.proof"@),
{
    let mut s = String::new();
    push_text(&mut s, out_dir);
    push_text(&mut s, "/");
    push_text(&mut s, "agg.proof");
    s
}

/// A degree the setup tool refuses: larger than any circuit could need.
#[derive(Debug, Clone, Copy, PartialEq, Eq)]
pub struct DegreeTooLarge {
    pub degree: usize,
}

/// The largest degree the setup tool generates parameters for.
pub const MAX_SETUP_DEGREE: usize = 30;

/// The degrees the setup tool generates parameters for: both of the
/// configuration's when `n` is 0, else `n` alone, which may not exceed 30.
pub fn setup_degrees(config: &CircuitConfig, n: usize) -> (r: Result<Vec<u32>, DegreeTooLarge>)
    ensures
        n == 0 ==> (r matches Ok(v) && v@ == seq![config.degree, config.agg_degree]),
        n > MAX_SETUP_DEGREE ==> r == Err::<Vec<u32>, DegreeTooLarge>(DegreeTooLarge { degree: n }),
        0 < n <= MAX_SETUP_DEGREE ==> (r matches Ok(v) && v@ == seq![n as u32]),
{
    let mut v: Vec<u32> = Vec::new();
    if n == 0 {
        v.push(config.degree);
        v.push(config.agg_degree);
        Ok(v)
    } else if n > MAX_SETUP_DEGREE {
        Err(DegreeTooLarge { degree: n })
    } else {
        v.push(n as u32);
        Ok(v)
    }
}

} // verus!
