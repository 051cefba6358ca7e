//! Properties of the registry that hold for every fleet, index and account.
use vstd::prelude::*;

use crate::bike::{BikeError, BikeState, RewardStatus};
use crate::contract::{
    callback_step, follows, return_step, settle_step, starts_settlement, use_step, Contract,
};
use crate::settlement::PromiseOutcome;

verus! {

/// Every bike of a registry is, at any time, in exactly one of the states
/// available, in use, and under inspection.
pub proof fn bike_in_exactly_one_state(c: &Contract, index: int)
    requires
        0 <= index < c@.len(),
    ensures
        c@[index] is Available || c@[index] is InUse || c@[index] is Inspection,
        !(c@[index] is Available && c@[index] is InUse),
        !(c@[index] is Available && c@[index] is Inspection),
        !(c@[index] is InUse && c@[index] is Inspection),
{
}

/// Taking a bike succeeds exactly when it was available just before, and
/// then the caller holds it; otherwise the call is refused, and a refused
/// call leaves the fleet as it was.
pub proof fn use_succeeds_iff_available(
    bikes: Seq<BikeState>,
    index: int,
    user: Seq<char>,
    after: Seq<BikeState>,
    r: Result<(), BikeError>,
)
    requires
        follows(use_step(bikes, index, user), bikes, after, r),
    ensures
        r is Ok <==> (0 <= index < bikes.len() && bikes[index] is Available),
        r is Ok ==> after == bikes.update(index, BikeState::InUse(user)),
        r is Err ==> after == bikes,
{
}

/// Returning a bike succeeds exactly when the caller holds it, in use or
/// under inspection. A bike in use becomes available at once; a bike under
/// inspection stays under inspection by the caller, its reward pending.
pub proof fn return_succeeds_iff_held<T>(
    bikes: Seq<BikeState>,
    index: int,
    caller: Seq<char>,
    after: Seq<BikeState>,
    r: Result<T, BikeError>,
)
    requires
        follows(return_step(bikes, index, caller), bikes, after, r),
    ensures
        r is Ok <==> (0 <= index < bikes.len() && (bikes[index] == BikeState::InUse(caller) || (
        bikes[index] is Inspection && bikes[index]->Inspection_0 == caller))),
        r is Ok && bikes[index] is InUse ==> after == bikes.update(index, BikeState::Available),
        r is Ok && bikes[index] is Inspection ==> after == bikes.update(
            index,
            BikeState::Inspection(caller, RewardStatus::Pending),
        ),
        r is Err ==> after == bikes,
{
    if r is Ok && bikes[index] is Inspection && bikes[index]->Inspection_1 == RewardStatus::Pending {
        assert(bikes.update(index, BikeState::Inspection(caller, RewardStatus::Pending)) =~= bikes);
    }
}

/// At most one reward is in flight per inspection: once a return has
/// started the reward transfer for a bike, neither another return nor a
/// direct claim, by any account, starts a second one until the
/// continuation of the first has run.
pub proof fn one_reward_in_flight(
    bikes: Seq<BikeState>,
    index: int,
    inspector: Seq<char>,
    anyone: Seq<char>,
)
    requires
        starts_settlement(bikes, index, inspector),
    ensures
        return_step(bikes, index, inspector) is Ok,
        !starts_settlement(return_step(bikes, index, inspector)->Ok_0, index, anyone),
        settle_step(return_step(bikes, index, inspector)->Ok_0, index, anyone) is Err,
        settle_step(bikes, index, inspector) == return_step(bikes, index, inspector),
{
}

/// The settlement continuation makes a bike available only when it is the
/// contract's own continuation of exactly one successful transfer, for a bike
/// whose reward is pending. A failed transfer is reported and leaves the bike
/// under inspection by the same account, its reward marked failed. Any other
/// call changes nothing.
pub proof fn settlement_frees_only_on_success(
    bikes: Seq<BikeState>,
    index: int,
    caller: Seq<char>,
    current: Seq<char>,
    results: Seq<PromiseOutcome>,
)
    ensures
        ({
            let (after, r) = callback_step(bikes, index, caller, current, results);
            &&& r is Ok <==> (caller == current && results == seq![PromiseOutcome::Successful] && 0
                <= index < bikes.len() && bikes[index] is Inspection && bikes[index]->Inspection_1
                == RewardStatus::Pending)
            &&& r is Ok ==> after == bikes.update(index, BikeState::Available)
            &&& (caller == current && results == seq![PromiseOutcome::Failed] && 0 <= index
                < bikes.len() && bikes[index] is Inspection && bikes[index]->Inspection_1
                == RewardStatus::Pending) ==> r == Err::<(), BikeError>(BikeError::TransferFailed)
                && after == bikes.update(
                index,
                BikeState::Inspection(bikes[index]->Inspection_0, RewardStatus::Failed),
            )
            &&& (r is Err && r != Err::<(), BikeError>(BikeError::TransferFailed)) ==> after == bikes
        }),
{
    if caller == current && results.len() == 1 && results[0] is Successful {
        assert(results =~= seq![PromiseOutcome::Successful]);
    }
    if caller == current && results.len() == 1 && results[0] is Failed {
        assert(results =~= seq![PromiseOutcome::Failed]);
    }
}

/// Taking a bike twice in a row never gives it two holders: whoever makes
/// the second call, it is refused.
pub proof fn second_use_is_refused(
    bikes: Seq<BikeState>,
    index: int,
    first: Seq<char>,
    second: Seq<char>,
)
    requires
        use_step(bikes, index, first) is Ok,
    ensures
        use_step(use_step(bikes, index, first)->Ok_0, index, second) == Err::<
            Seq<BikeState>,
            BikeError,
        >(BikeError::NotAvailable),
{
}

/// Taking a bike and then returning it by the same account gives back the
/// fleet as it was: the bike is available, and no holder remains.
pub proof fn use_then_return_restores(bikes: Seq<BikeState>, index: int, user: Seq<char>)
    requires
        use_step(bikes, index, user) is Ok,
    ensures
        return_step(use_step(bikes, index, user)->Ok_0, index, user) == Ok::<
            Seq<BikeState>,
            BikeError,
        >(bikes),
{
    let next = use_step(bikes, index, user)->Ok_0;
    assert(next.update(index, BikeState::Available) =~= bikes);
}

} // verus!
