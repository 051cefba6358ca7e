//! The registry of bikes and its entry points.
use vstd::prelude::*;

use crate::bike::{Bike, BikeError, BikeState, RewardStatus};
use crate::decimal::{decimal_of, parse_usize, parsed_usize, u128_text};
use crate::settlement::{PromiseOutcome, ReturnOutcome, SettlementCall, TransferCall};

verus! {

/// The account of the token contract that pays fees and rewards.
pub const FT_CONTRACT_ACCOUNT: &'static str = "my_ft.testnet";

/// Tokens a user pays to take a bike.
pub const AMOUNT_TO_USE_BIKE: u128 = 30;

/// Tokens an inspector receives for returning an inspected bike.
pub const AMOUNT_REWARD_FOR_INSPECTIONS: u128 = 15;

/// Tokens a new user receives as a gift.
pub const AMOUNT_GIFT_FOR_NEW_USER: u128 = 30;

/// Deposit attached to each token transfer (one unit, as the token standard
/// asks).
pub const TRANSFER_DEPOSIT: u128 = 1;

/// Gas reserved for the settlement continuation.
pub const CALLBACK_GAS: u64 = 3_000_000_000_000;

pub open spec fn ft_contract_account() -> Seq<char> {
    FT_CONTRACT_ACCOUNT@
}

/// The transfer call that pays `amount` (decimal text) to `receiver`.
pub open spec fn is_transfer_to(t: TransferCall, receiver: Seq<char>, amount: Seq<char>) -> bool {
    &&& t.token_contract@ == ft_contract_account()
    &&& t.receiver_id@ == receiver
    &&& t.amount@ == amount
    &&& t.deposit == TRANSFER_DEPOSIT
}

/// The settlement that rewards `inspector` for bike `index`.
pub open spec fn is_reward_settlement(s: SettlementCall, index: int, inspector: Seq<char>) -> bool {
    &&& is_transfer_to(s.transfer, inspector, decimal_of(AMOUNT_REWARD_FOR_INSPECTIONS as nat))
    &&& s.callback_index == index
    &&& s.callback_gas == CALLBACK_GAS
}

/// The fleet as it is after `use_bike(index)` by `user`, or why it is refused.
pub open spec fn use_step(bikes: Seq<BikeState>, index: int, user: Seq<char>) -> Result<
    Seq<BikeState>,
    BikeError,
> {
    if !(0 <= index < bikes.len()) {
        Err(BikeError::IndexOutOfRange)
    } else if bikes[index] is Available {
        Ok(bikes.update(index, BikeState::InUse(user)))
    } else {
        Err(BikeError::NotAvailable)
    }
}

/// The fleet as it is after `inspect_bike(index)` by `inspector`, or why it
/// is refused.
pub open spec fn inspect_step(bikes: Seq<BikeState>, index: int, inspector: Seq<char>) -> Result<
    Seq<BikeState>,
    BikeError,
> {
    if !(0 <= index < bikes.len()) {
        Err(BikeError::IndexOutOfRange)
    } else if bikes[index] is Available {
        Ok(bikes.update(index, BikeState::Inspection(inspector, RewardStatus::Unclaimed)))
    } else {
        Err(BikeError::NotAvailable)
    }
}

/// The fleet as it is after `return_bike(index)` by `caller`, or why it is
/// refused. A bike in use becomes available at once. A bike under
/// inspection stays so, with its reward pending: the return starts the
/// reward transfer unless one is already in flight.
pub open spec fn return_step(bikes: Seq<BikeState>, index: int, caller: Seq<char>) -> Result<
    Seq<BikeState>,
    BikeError,
> {
    if !(0 <= index < bikes.len()) {
        Err(BikeError::IndexOutOfRange)
    } else {
        match bikes[index] {
            BikeState::Available => Err(BikeError::AlreadyAvailable),
            BikeState::InUse(user) => if user == caller {
                Ok(bikes.update(index, BikeState::Available))
            } else {
                Err(BikeError::WrongAccount)
            },
            BikeState::Inspection(inspector, _) => if inspector == caller {
                Ok(bikes.update(index, BikeState::Inspection(inspector, RewardStatus::Pending)))
            } else {
                Err(BikeError::WrongAccount)
            },
        }
    }
}

/// A return of bike `index` by `caller` starts a reward transfer: the bike
/// is under inspection by `caller`, and no reward for it is in flight.
pub open spec fn starts_settlement(bikes: Seq<BikeState>, index: int, caller: Seq<char>) -> bool {
    &&& 0 <= index < bikes.len()
    &&& bikes[index] is Inspection
    &&& bikes[index]->Inspection_0 == caller
    &&& bikes[index]->Inspection_1 != RewardStatus::Pending
}

/// The fleet as it is after `return_inspected_bike(index)` by `caller`, or
/// why it is refused: only the inspector of the bike starts its reward, and
/// only while no reward for it is in flight.
pub open spec fn settle_step(bikes: Seq<BikeState>, index: int, caller: Seq<char>) -> Result<
    Seq<BikeState>,
    BikeError,
> {
    if !(0 <= index < bikes.len()) {
        Err(BikeError::IndexOutOfRange)
    } else {
        match bikes[index] {
            BikeState::Inspection(inspector, status) => if inspector != caller {
                Err(BikeError::WrongAccount)
            } else if status == RewardStatus::Pending {
                Err(BikeError::SettlementPending)
            } else {
                Ok(bikes.update(index, BikeState::Inspection(inspector, RewardStatus::Pending)))
            },
            _ => Err(BikeError::NotUnderInspection),
        }
    }
}

/// The fleet after the settlement continuation for bike `index`, called by
/// `caller` on the contract `current` with the reported outcomes of the
/// calls it continues, and what the continuation reports. Only the
/// contract's own continuation of one finished transfer, for a bike whose
/// reward is pending, acts: on success the bike becomes available; on
/// failure it stays under inspection with its reward failed, so that the
/// inspector may return it again. Anything else changes nothing.
pub open spec fn callback_step(
    bikes: Seq<BikeState>,
    index: int,
    caller: Seq<char>,
    current: Seq<char>,
    results: Seq<PromiseOutcome>,
) -> (Seq<BikeState>, Result<(), BikeError>) {
    if caller != current || results.len() != 1 || results[0] is NotReady {
        (bikes, Err(BikeError::NotContinuation))
    } else if !(0 <= index < bikes.len()) {
        (bikes, Err(BikeError::IndexOutOfRange))
    } else {
        match bikes[index] {
            BikeState::Inspection(inspector, RewardStatus::Pending) => if results[0] is Successful {
                (bikes.update(index, BikeState::Available), Ok(()))
            } else {
                (
                    bikes.update(index, BikeState::Inspection(inspector, RewardStatus::Failed)),
                    Err(BikeError::TransferFailed),
                )
            },
            _ => (bikes, Err(BikeError::NotContinuation)),
        }
    }
}

/// The fleet as it is after tokens arrive with a message, or why the
/// payment is refused: the amount must be exactly the fee, and the message
/// the index of a bike that `signer` then takes.
pub open spec fn transfer_step(
    bikes: Seq<BikeState>,
    signer: Seq<char>,
    amount: Seq<char>,
    msg: Seq<char>,
) -> Result<Seq<BikeState>, BikeError> {
    if amount != decimal_of(AMOUNT_TO_USE_BIKE as nat) {
        Err(BikeError::WrongAmount)
    } else {
        match parsed_usize(msg) {
            None => Err(BikeError::InvalidInstruction),
            Some(index) => use_step(bikes, index as int, signer),
        }
    }
}

/// A mutating call whose outcome is `step`: on `Ok` the fleet becomes what
/// it names; on `Err` the call reports that error and changes nothing.
pub open spec fn follows<T>(
    step: Result<Seq<BikeState>, BikeError>,
    before: Seq<BikeState>,
    after: Seq<BikeState>,
    r: Result<T, BikeError>,
) -> bool {
    match step {
        Ok(next) => r is Ok && after == next,
        Err(e) => r == Err::<T, BikeError>(e) && after == before,
    }
}

/// The registry: a fleet of bikes of fixed size, addressed by index.
pub struct Contract {
    bikes: Vec<Bike>,
}

impl View for Contract {
    type V = Seq<BikeState>;

    closed spec fn view(&self) -> Seq<BikeState> {
        self.bikes@.map_values(|b: Bike| b@)
    }
}

impl Contract {
    /// A fleet of `num_of_bikes` bikes, all available.
    pub fn new(num_of_bikes: usize) -> (r: Self)
        ensures
            r@.len() == num_of_bikes,
            forall|i: int| 0 <= i < num_of_bikes ==> #[trigger] r@[i] == BikeState::Available,
    {
        let mut bikes: Vec<Bike> = Vec::new();
        let mut i: usize = 0;
        while i < num_of_bikes
            invariant
                i <= num_of_bikes,
                bikes@.len() == i,
                forall|j: int| 0 <= j < i ==> #[trigger] bikes@[j]@ == BikeState::Available,
            decreases num_of_bikes - i,
        {
            bikes.push(Bike::Available);
            i = i + 1;
        }
        Contract { bikes }
    }

    /// The registry that holds `bikes`, as read back from storage.
    pub fn from_bikes(bikes: Vec<Bike>) -> (r: Self)
        ensures
            r@ == bikes@.map_values(|b: Bike| b@),
    {
        Contract { bikes }
    }

    /// The bikes of the registry, in order, to be written to storage.
    pub fn into_bikes(self) -> (r: Vec<Bike>)
        ensures
            r@.map_values(|b: Bike| b@) == self@,
    {
        self.bikes
    }

    pub fn num_of_bikes(&self) -> (r: usize)
        ensures
            r == self@.len(),
    {
        self.bikes.len()
    }

    pub fn amount_to_use_bike(&self) -> (r: u128)
        ensures
            r == AMOUNT_TO_USE_BIKE,
    {
        AMOUNT_TO_USE_BIKE
    }

    pub fn amount_reward_for_inspections(&self) -> (r: u128)
        ensures
            r == AMOUNT_REWARD_FOR_INSPECTIONS,
    {
        AMOUNT_REWARD_FOR_INSPECTIONS
    }

    pub fn is_available(&self, index: usize) -> (r: bool)
        requires
            index < self@.len(),
        ensures
            r == (self@[index as int] is Available),
    {
        self.bikes[index].is_available()
    }

    /// The account that uses bike `index`, if it is in use.
    pub fn who_is_using(&self, index: usize) -> (r: Option<String>)
        requires
            index < self@.len(),
        ensures
            match self@[index as int] {
                BikeState::InUse(user) => r is Some && r->0@ == user,
                _ => r is None,
            },
    {
        match &self.bikes[index] {
            Bike::InUse(user_id) => Some(user_id.clone()),
            _ => None,
        }
    }

    /// The account that inspects bike `index`, if it is under inspection.
    pub fn who_is_inspecting(&self, index: usize) -> (r: Option<String>)
        requires
            index < self@.len(),
        ensures
            match self@[index as int] {
                BikeState::Inspection(inspector, _) => r is Some && r->0@ == inspector,
                _ => r is None,
            },
    {
        match &self.bikes[index] {
            Bike::Inspection(inspector_id, _) => Some(inspector_id.clone()),
            _ => None,
        }
    }

    /// Puts `bike` at `index`.
    fn set_bike(&mut self, index: usize, bike: Bike)
        requires
            index < old(self)@.len(),
        ensures
            final(self)@ == old(self)@.update(index as int, bike@),
    {
        self.bikes[index] = bike;
        assert(self.bikes@.map_values(|b: Bike| b@) =~= old(self).bikes@.map_values(
            |b: Bike| b@,
        ).update(index as int, bike@));
    }

    /// Bike `index` is taken by `signer_id`, the account that signed the
    /// transaction paying for it.
    pub fn use_bike(&mut self, index: usize, signer_id: String) -> (r: Result<(), BikeError>)
        ensures
            follows(use_step(old(self)@, index as int, signer_id@), old(self)@, final(self)@, r),
    {
        if index >= self.bikes.len() {
            return Err(BikeError::IndexOutOfRange);
        }
        match &self.bikes[index] {
            Bike::Available => {
                self.set_bike(index, Bike::InUse(signer_id));
                Ok(())
            },
            _ => Err(BikeError::NotAvailable),
        }
    }

    /// Bike `index` is taken for inspection by `predecessor_id`, the caller.
    pub fn inspect_bike(&mut self, index: usize, predecessor_id: String) -> (r: Result<(), BikeError>)
        ensures
            follows(
                inspect_step(old(self)@, index as int, predecessor_id@),
                old(self)@,
                final(self)@,
                r,
            ),
    {
        if index >= self.bikes.len() {
            return Err(BikeError::IndexOutOfRange);
        }
        match &self.bikes[index] {
            Bike::Available => {
                self.set_bike(index, Bike::Inspection(predecessor_id, RewardStatus::Unclaimed));
                Ok(())
            },
            _ => Err(BikeError::NotAvailable),
        }
    }

    /// Bike `index` is given back by `predecessor_id`, the caller. A bike in
    /// use becomes available at once. A bike under inspection stays so: its
    /// reward settlement is handed back for the host to start, unless one is
    /// already in flight, in which case nothing is started and nothing
    /// changes. Should the transfer fail, the inspector may return the bike
    /// again, which starts a new settlement.
    pub fn return_bike(&mut self, index: usize, predecessor_id: String) -> (r: Result<
        ReturnOutcome,
        BikeError,
    >)
        ensures
            follows(
                return_step(old(self)@, index as int, predecessor_id@),
                old(self)@,
                final(self)@,
                r,
            ),
            r is Ok ==> match r->Ok_0 {
                ReturnOutcome::Returned => old(self)@[index as int] is InUse,
                ReturnOutcome::Settlement(s) => starts_settlement(
                    old(self)@,
                    index as int,
                    predecessor_id@,
                ) && is_reward_settlement(s, index as int, predecessor_id@),
                ReturnOutcome::SettlementInFlight => old(self)@[index as int] is Inspection
                    && old(self)@[index as int]->Inspection_1 == RewardStatus::Pending,
            },
    {
        if index >= self.bikes.len() {
            return Err(BikeError::IndexOutOfRange);
        }
        match &self.bikes[index] {
            Bike::Available => Err(BikeError::AlreadyAvailable),
            Bike::InUse(user) => {
                if *user == predecessor_id {
                    self.set_bike(index, Bike::Available);
                    Ok(ReturnOutcome::Returned)
                } else {
                    Err(BikeError::WrongAccount)
                }
            },
            Bike::Inspection(inspector, status) => {
                if *inspector != predecessor_id {
                    Err(BikeError::WrongAccount)
                } else if *status == RewardStatus::Pending {
                    proof {
                        assert(self@.update(
                            index as int,
                            BikeState::Inspection(predecessor_id@, RewardStatus::Pending),
                        ) =~= self@);
                    }
                    Ok(ReturnOutcome::SettlementInFlight)
                } else {
                    match self.return_inspected_bike(index, predecessor_id) {
                        Ok(call) => Ok(ReturnOutcome::Settlement(call)),
                        Err(e) => Err(e),
                    }
                }
            },
        }
    }

    /// The inspector `predecessor_id` claims the reward for bike `index`.
    /// Only while the bike is under inspection by that account and no reward
    /// for it is in flight: the reward becomes pending, and the settlement
    /// (the reward transfer, then the continuation that makes the bike
    /// available) is handed back for the host to start.
    pub fn return_inspected_bike(&mut self, index: usize, predecessor_id: String) -> (r: Result<
        SettlementCall,
        BikeError,
    >)
        ensures
            follows(
                settle_step(old(self)@, index as int, predecessor_id@),
                old(self)@,
                final(self)@,
                r,
            ),
            r is Ok ==> is_reward_settlement(r->Ok_0, index as int, predecessor_id@),
    {
        if index >= self.bikes.len() {
            return Err(BikeError::IndexOutOfRange);
        }
        match &self.bikes[index] {
            Bike::Inspection(inspector, status) => {
                if *inspector != predecessor_id {
                    Err(BikeError::WrongAccount)
                } else if *status == RewardStatus::Pending {
                    Err(BikeError::SettlementPending)
                } else {
                    let inspector = inspector.clone();
                    self.set_bike(index, Bike::Inspection(inspector, RewardStatus::Pending));
                    Ok(
                        SettlementCall {
                            transfer: Self::cross_contract_call_transfer(
                                predecessor_id,
                                u128_text(AMOUNT_REWARD_FOR_INSPECTIONS),
                            ),
                            callback_index: index,
                            callback_gas: CALLBACK_GAS,
                        },
                    )
                }
            },
            _ => Err(BikeError::NotUnderInspection),
        }
    }

    /// The continuation of a reward transfer for bike `index`. It acts only
    /// when called by the contract itself (`predecessor_id ==
    /// current_account_id`) with the outcome of exactly one finished call,
    /// for a bike whose reward is pending. On success the bike becomes
    /// available. On failure it reports `TransferFailed` and the bike stays
    /// under inspection with its reward marked failed, so that the inspector
    /// may return it again; the host keeps that change.
    pub fn callback_return_bike(
        &mut self,
        index: usize,
        predecessor_id: &String,
        current_account_id: &String,
        results: &Vec<PromiseOutcome>,
    ) -> (r: Result<(), BikeError>)
        ensures
            (final(self)@, r) == callback_step(
                old(self)@,
                index as int,
                predecessor_id@,
                current_account_id@,
                results@,
            ),
    {
        if *predecessor_id != *current_account_id || results.len() != 1 {
            return Err(BikeError::NotContinuation);
        }
        if results[0] == PromiseOutcome::NotReady {
            return Err(BikeError::NotContinuation);
        }
        if index >= self.bikes.len() {
            return Err(BikeError::IndexOutOfRange);
        }
        match &self.bikes[index] {
            Bike::Inspection(inspector, RewardStatus::Pending) => {
                if results[0] == PromiseOutcome::Successful {
                    self.set_bike(index, Bike::Available);
                    Ok(())
                } else {
                    let inspector = inspector.clone();
                    self.set_bike(index, Bike::Inspection(inspector, RewardStatus::Failed));
                    Err(BikeError::TransferFailed)
                }
            },
            _ => Err(BikeError::NotContinuation),
        }
    }

    /// Tokens arrived from the token contract, sent by `_sender_id` in a
    /// transaction signed by `signer_id`, with `msg` attached. The bike goes
    /// to the signer, who paid, not to any account that relayed the call. The amount
    /// must be exactly the fee for a bike, and `msg` the index of the bike
    /// that the signer takes. On success every token is kept: the amount to
    /// refund is zero.
    pub fn ft_on_transfer(
        &mut self,
        signer_id: String,
        _sender_id: String,
        amount: String,
        msg: String,
    ) -> (r: Result<u128, BikeError>)
        ensures
            follows(transfer_step(old(self)@, signer_id@, amount@, msg@), old(self)@, final(self)@, r),
            r is Ok ==> r->Ok_0 == 0,
    {
        if amount != u128_text(AMOUNT_TO_USE_BIKE) {
            return Err(BikeError::WrongAmount);
        }
        match parse_usize(msg.as_str()) {
            None => Err(BikeError::InvalidInstruction),
            Some(index) => match self.use_bike(index, signer_id) {
                Ok(()) => Ok(0),
                Err(e) => Err(e),
            },
        }
    }

    /// The transfer of `amount` tokens (decimal text) to `receiver_id`.
    pub fn cross_contract_call_transfer(receiver_id: String, amount: String) -> (r: TransferCall)
        ensures
            is_transfer_to(r, receiver_id@, amount@),
    {
        TransferCall {
            token_contract: FT_CONTRACT_ACCOUNT.to_owned(),
            receiver_id,
            amount,
            deposit: TRANSFER_DEPOSIT,
        }
    }

    /// The gift transfer to a new user.
    pub fn transfer_ft_to_new_user(new_user_id: String) -> (r: TransferCall)
        ensures
            is_transfer_to(r, new_user_id@, decimal_of(AMOUNT_GIFT_FOR_NEW_USER as nat)),
    {
        Self::cross_contract_call_transfer(new_user_id, u128_text(AMOUNT_GIFT_FOR_NEW_USER))
    }
}

} // verus!
