//! The capability record a client reads before it submits a trace.
use vstd::prelude::*;
use crate::circuit::{CircuitConfig, MAX_CALLDATA, MAX_TXS};

verus! {

#[derive(Debug, Clone, Copy, PartialEq, Eq)]
pub struct ZkSpec {
    pub degree: u32,
    pub agg_degree: u32,
    pub chain_id: u32,
    pub max_txs: u32,
    pub max_call_data: u32,
}

/// The record that a configuration announces. The chain id is announced in
/// 32 bits, its low half.
pub open spec fn spec_of(config: CircuitConfig) -> ZkSpec {
    ZkSpec {
        degree: config.degree,
        agg_degree: config.agg_degree,
        chain_id: (config.chain_id % 0x1_0000_0000) as u32,
        max_txs: MAX_TXS as u32,
        max_call_data: MAX_CALLDATA as u32,
    }
}

impl ZkSpec {
    pub fn new(config: &CircuitConfig) -> (r: Self)
        ensures
            r == spec_of(*config),
    {
        ZkSpec {
            degree: config.degree,
            agg_degree: config.agg_degree,
            chain_id: (config.chain_id % 0x1_0000_0000) as u32,
            max_txs: MAX_TXS as u32,
            max_call_data: MAX_CALLDATA as u32,
        }
    }
}

} // verus!
