//! The circuit's fixed capacity and the deployment's configuration.
use vstd::prelude::*;

verus! {

/// The most transactions one block trace may carry to fit the circuit.
pub const MAX_TXS: usize = 25;
/// The most call data, in bytes, one block trace may carry.
pub const MAX_CALLDATA: usize = 400_000;

/// What a deployment fixes when it starts: the polynomial degree of the
/// per-circuit parameters, that of the aggregation parameters, and the chain
/// whose traces it proves.
#[derive(Debug, Clone, Copy, PartialEq, Eq)]
pub struct CircuitConfig {
    pub degree: u32,
    pub agg_degree: u32,
    pub chain_id: u64,
}

impl CircuitConfig {
    pub fn new(degree: u32, agg_degree: u32, chain_id: u64) -> (r: Self)
        ensures
            r.degree == degree,
            r.agg_degree == agg_degree,
            r.chain_id == chain_id,
    {
        CircuitConfig { degree, agg_degree, chain_id }
    }
}

/// What the service reads of a block trace: its height, the chain it belongs
/// to and how many transactions it holds.
#[derive(Debug, Clone, Copy, PartialEq, Eq)]
pub struct TraceSummary {
    pub block_number: u64,
    pub chain_id: u64,
    pub tx_count: usize,
}

impl TraceSummary {
    pub fn new(block_number: u64, chain_id: u64, tx_count: usize) -> (r: Self)
        ensures
            r.block_number == block_number,
            r.chain_id == chain_id,
            r.tx_count == tx_count,
    {
        TraceSummary { block_number, chain_id, tx_count }
    }
}

} // verus!
