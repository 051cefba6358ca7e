//! Outbound token transfers and the continuation that settles an inspection,
//! described as plain values for the host to carry out.
use vstd::prelude::*;

verus! {

/// One call of `ft_transfer` on the token contract.
#[derive(Debug, Clone)]
pub struct TransferCall {
    /// The account of the token contract that is called.
    pub token_contract: String,
    /// The account that receives the tokens.
    pub receiver_id: String,
    /// The number of tokens, as decimal text.
    pub amount: String,
    /// The deposit attached to the call, in the host's smallest unit.
    pub deposit: u128,
}

/// A reward transfer to an inspector, followed by the continuation that
/// makes the inspected bike available once the transfer has succeeded.
#[derive(Debug, Clone)]
pub struct SettlementCall {
    pub transfer: TransferCall,
    /// The bike that the continuation settles.
    pub callback_index: usize,
    /// The gas reserved for the continuation.
    pub callback_gas: u64,
}

/// What the host reports of a finished outbound call.
#[derive(Debug, Clone, Copy, PartialEq, Eq, Structural)]
pub enum PromiseOutcome {
    NotReady,
    Successful,
    Failed,
}

/// What a successful return of a bike leads to.
#[derive(Debug, Clone)]
pub enum ReturnOutcome {
    /// The bike was in use and is available again.
    Returned,
    /// The bike was under inspection with no reward in flight: it stays so,
    /// its reward now pending, until the continuation of this reward
    /// transfer reports success.
    Settlement(SettlementCall),
    /// The bike is under inspection and its reward transfer is already in
    /// flight: nothing is started again and nothing changes.
    SettlementInFlight,
}

} // verus!
