//! One bike of the fleet and the states it can be in.
use vstd::prelude::*;

verus! {

/// The state of one bike. Exactly one variant holds at any time, so a bike
/// can never be in use and under inspection together.
#[derive(Debug, Clone)]
pub enum Bike {
    /// Free to be taken.
    Available,
    /// In use by the named account.
    InUse(String),
    /// Under inspection by the named account, which is owed a reward; the
    /// status tells whether that reward is unclaimed, on its way, or failed.
    Inspection(String, RewardStatus),
}

/// Where the reward for an inspection stands. At most one reward transfer
/// per inspection is in flight: while it is `Pending`, no other is started.
#[derive(Debug, Clone, Copy, PartialEq, Eq, Structural)]
pub enum RewardStatus {
    /// The inspector has not yet returned the bike.
    Unclaimed,
    /// The reward transfer has been started and its outcome is not known.
    Pending,
    /// The reward transfer failed; the inspector may return the bike again.
    Failed,
}

/// The mathematical model of a bike: the account names as character
/// sequences.
pub enum BikeState {
    Available,
    InUse(Seq<char>),
    Inspection(Seq<char>, RewardStatus),
}

impl View for Bike {
    type V = BikeState;

    open spec fn view(&self) -> BikeState {
        match self {
            Bike::Available => BikeState::Available,
            Bike::InUse(user) => BikeState::InUse(user@),
            Bike::Inspection(inspector, status) => BikeState::Inspection(inspector@, *status),
        }
    }
}

/// Why a call into the registry was refused. A refused call changes nothing.
#[derive(Debug, Clone, Copy, PartialEq, Eq, Structural)]
pub enum BikeError {
    /// The index names no bike of the fleet.
    IndexOutOfRange,
    /// The bike is in use or under inspection.
    NotAvailable,
    /// The bike to be returned is already available.
    AlreadyAvailable,
    /// The caller is not the account that holds the bike.
    WrongAccount,
    /// The tokens sent are not exactly the fee for using a bike.
    WrongAmount,
    /// The message sent with the tokens does not name a bike index.
    InvalidInstruction,
    /// The settlement continuation was called other than as the contract's
    /// own continuation of exactly one finished transfer.
    NotContinuation,
    /// The reward transfer failed; the bike stays under inspection.
    TransferFailed,
    /// The bike is not under inspection by anyone.
    NotUnderInspection,
    /// A reward transfer for this inspection is already in flight.
    SettlementPending,
}

impl Bike {
    pub fn is_available(&self) -> (r: bool)
        ensures
            r == (self@ is Available),
    {
        match self {
            Bike::Available => true,
            _ => false,
        }
    }
}

} // verus!
