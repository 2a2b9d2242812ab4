use vstd::prelude::*;
use std::collections::HashMap;
use crate::amount::{Amount, sat_add, sat_sub};
use crate::chain::{ChainId, GameError};

verus! {

broadcast use vstd::std_specs::hash::group_hash_axioms;

/// A day, in microseconds: the least time between two bonus claims.
pub const ONE_DAY_CLAIM_DURATION_IN_MICROS: u64 = 86_400_000_000;

/// The bonus an account holder receives once a day, and when it was last claimed.
#[derive(Clone, Copy, Debug, PartialEq, Eq, Structural, Default)]
pub struct DailyBonus {
    pub amount: Amount,
    pub last_claim: u64,
}

impl DailyBonus {
    pub fn is_zero(&self) -> (r: bool)
        ensures
            r == (self.amount.attos == 0),
    {
        self.amount.attos == 0
    }

    /// Sets the bonus amount, where none is set yet.
    pub fn update_bonus(&mut self, bonus: Amount)
        ensures
            final(self).amount == if old(self).amount.attos == 0 { bonus } else { old(self).amount },
            final(self).last_claim == old(self).last_claim,
    {
        if self.is_zero() {
            self.amount = bonus;
        }
    }

    /// Pays out the bonus where a day or more has passed since the last claim,
    /// and moves the claim time to now; otherwise pays nothing.
    pub fn claim_bonus(&mut self, current_time: u64) -> (r: Amount)
        ensures
            sat_sub(current_time as nat, old(self).last_claim as nat) >= ONE_DAY_CLAIM_DURATION_IN_MICROS ==> {
                &&& r == old(self).amount
                &&& final(self).last_claim == current_time
            },
            sat_sub(current_time as nat, old(self).last_claim as nat) < ONE_DAY_CLAIM_DURATION_IN_MICROS ==> {
                &&& r.attos == 0
                &&& final(self).last_claim == old(self).last_claim
            },
            final(self).amount == old(self).amount,
    {
        let delta = current_time.saturating_sub(self.last_claim);
        if delta >= ONE_DAY_CLAIM_DURATION_IN_MICROS {
            self.last_claim = current_time;
            return self.amount;
        }
        Amount::zero()
    }
}

#[derive(Clone, Copy, Debug, PartialEq, Eq, Structural)]
pub enum DebtStatus {
    Pending,
    Paid,
}

/// A shortfall that the pool chain owes a chain that paid a player in full.
#[derive(Clone, Copy, Debug, PartialEq, Eq, Structural)]
pub struct DebtRecord {
    pub id: u64,
    pub user_chain: ChainId,
    pub amount: Amount,
    pub created_at: u64,
    pub paid_at: Option<u64>,
    pub status: DebtStatus,
}

/// A pot that a chain handed to the pool chain.
#[derive(Clone, Copy, Debug, PartialEq, Eq, Structural)]
pub struct TokenPotRecord {
    pub id: u64,
    pub user_chain: ChainId,
    pub amount: Amount,
    pub created_at: u64,
}

/// Messages between the ledgers of two chains.
#[derive(Clone, Copy, Debug, PartialEq, Eq, Structural)]
pub enum BankrollMessage {
    ReceivedToken { amount: Amount },
    DebtNotif { debt_id: u64, amount: Amount, created_at: u64 },
    DebtPaid { debt_id: u64, amount: Amount, paid_at: u64 },
    TokenPot { amount: Amount },
}

/// A ledger message and the chain it goes to.
#[derive(Clone, Copy, Debug, PartialEq, Eq, Structural)]
pub struct BankrollSend {
    pub destination: ChainId,
    pub message: BankrollMessage,
}

#[derive(Clone, Copy, Debug, PartialEq, Eq, Structural)]
pub struct BankrollParameters {
    pub bonus: Amount,
    pub master_chain: ChainId,
}

/// One chain's ledger: its share of the token pool, its debt and pot logs, the
/// daily bonus, and the balance of each account holder.
#[derive(Debug, Clone, Default)]
pub struct BankrollState {
    pub blackjack_token: Amount,
    pub debt_log: HashMap<u64, DebtRecord>,
    pub token_pot_log: HashMap<u64, TokenPotRecord>,
    pub daily_bonus: DailyBonus,
    pub accounts: HashMap<u64, Amount>,
}

/// The balance on record for an owner (zero where there is none).
pub open spec fn account_of(accounts: Map<u64, Amount>, owner: u64) -> nat {
    if accounts.contains_key(owner) { accounts[owner].attos as nat } else { 0 }
}

/// What a balance read pays as bonus, for a bonus record and a time.
pub open spec fn bonus_due(b: DailyBonus, bonus: Amount, now: u64) -> nat {
    let amount = if b.amount.attos == 0 { bonus } else { b.amount };
    if sat_sub(now as nat, b.last_claim as nat) >= ONE_DAY_CLAIM_DURATION_IN_MICROS {
        amount.attos as nat
    } else {
        0
    }
}

/// The bonus record after a balance read: the amount is set from `bonus` where
/// none was set, and the claim time moves to now where a bonus was paid.
pub open spec fn bonus_after(b: DailyBonus, bonus: Amount, now: u64) -> DailyBonus {
    DailyBonus {
        amount: if b.amount.attos == 0 { bonus } else { b.amount },
        last_claim: if sat_sub(now as nat, b.last_claim as nat) >= ONE_DAY_CLAIM_DURATION_IN_MICROS {
            now
        } else {
            b.last_claim
        },
    }
}

impl BankrollState {
    /// The fields other than the accounts and the bonus are unchanged.
    pub open spec fn same_logs_and_pool(&self, other: &BankrollState) -> bool {
        &&& self.blackjack_token == other.blackjack_token
        &&& self.debt_log@ == other.debt_log@
        &&& self.token_pot_log@ == other.token_pot_log@
    }

    /// Reads an owner's balance, first crediting the daily bonus where a day has
    /// passed since the last claim (the bonus amount is set from `bonus` on the
    /// first read).
    pub fn balance(&mut self, owner: u64, bonus: Amount, now: u64) -> (r: Amount)
        ensures
            r.attos == sat_add(
                account_of(old(self).accounts@, owner),
                bonus_due(old(self).daily_bonus, bonus, now),
            ),
            final(self).accounts@ == old(self).accounts@.insert(owner, r),
            final(self).daily_bonus == bonus_after(old(self).daily_bonus, bonus, now),
            final(self).same_logs_and_pool(old(self)),
    {
        let mut balance = match self.accounts.get(&owner) {
            Some(b) => *b,
            None => Amount::zero(),
        };
        if self.daily_bonus.is_zero() {
            self.daily_bonus.update_bonus(bonus);
        }
        let paid = self.daily_bonus.claim_bonus(now);
        balance = balance.saturating_add(paid);
        self.accounts.insert(owner, balance);
        balance
    }

    pub fn update_balance(&mut self, owner: u64, amount: Amount)
        ensures
            final(self).accounts@ == old(self).accounts@.insert(owner, amount),
            final(self).daily_bonus == old(self).daily_bonus,
            final(self).same_logs_and_pool(old(self)),
    {
        self.accounts.insert(owner, amount);
    }

    /// Records a pending debt, keyed by its creation time, and the notice to the
    /// chain that owes it.
    pub fn notify_debt(&mut self, amount: Amount, target_chain: ChainId, own_chain: ChainId, now: u64) -> (r: BankrollSend)
        ensures
            final(self).debt_log@ == old(self).debt_log@.insert(now, DebtRecord {
                id: now,
                user_chain: own_chain,
                amount,
                created_at: now,
                paid_at: None,
                status: DebtStatus::Pending,
            }),
            r == (BankrollSend {
                destination: target_chain,
                message: BankrollMessage::DebtNotif { debt_id: now, amount, created_at: now },
            }),
            final(self).blackjack_token == old(self).blackjack_token,
            final(self).token_pot_log@ == old(self).token_pot_log@,
            final(self).accounts@ == old(self).accounts@,
            final(self).daily_bonus == old(self).daily_bonus,
    {
        let record = DebtRecord {
            id: now,
            user_chain: own_chain,
            amount,
            created_at: now,
            paid_at: None,
            status: DebtStatus::Pending,
        };
        self.debt_log.insert(now, record);
        BankrollSend {
            destination: target_chain,
            message: BankrollMessage::DebtNotif { debt_id: now, amount, created_at: now },
        }
    }

    /// The notice that hands a pot to the pool chain.
    pub fn transfer_token_pot(&self, amount: Amount, target_chain: ChainId) -> (r: BankrollSend)
        ensures
            r == (BankrollSend { destination: target_chain, message: BankrollMessage::TokenPot { amount } }),
    {
        BankrollSend { destination: target_chain, message: BankrollMessage::TokenPot { amount } }
    }

    /// The notice that mints tokens on a chain; only the master chain may send it.
    pub fn mint_token(&self, chain_id: ChainId, amount: Amount, own_chain: ChainId, master_chain: ChainId) -> (r: Result<BankrollSend, GameError>)
        ensures
            own_chain != master_chain ==> r == Err::<BankrollSend, GameError>(GameError::AuthorizationFailure),
            own_chain == master_chain ==> r == Ok::<BankrollSend, GameError>(BankrollSend {
                destination: chain_id,
                message: BankrollMessage::ReceivedToken { amount },
            }),
    {
        if own_chain != master_chain {
            return Err(GameError::AuthorizationFailure);
        }
        Ok(BankrollSend { destination: chain_id, message: BankrollMessage::ReceivedToken { amount } })
    }

    /// Minted tokens arrive in the pool.
    pub fn received_token(&mut self, amount: Amount)
        ensures
            final(self).blackjack_token.attos == sat_add(old(self).blackjack_token.attos as nat, amount.attos as nat),
            final(self).debt_log@ == old(self).debt_log@,
            final(self).token_pot_log@ == old(self).token_pot_log@,
            final(self).accounts@ == old(self).accounts@,
            final(self).daily_bonus == old(self).daily_bonus,
    {
        self.blackjack_token = self.blackjack_token.saturating_add(amount);
    }

    /// Pays a debt from the pool, records it paid and confirms it to the chain
    /// that is owed. Fails, changing nothing, where the pool cannot cover it.
    pub fn debt_notif(&mut self, origin: ChainId, debt_id: u64, amount: Amount, created_at: u64, now: u64) -> (r: Result<BankrollSend, GameError>)
        ensures
            old(self).blackjack_token.attos < amount.attos ==> r == Err::<BankrollSend, GameError>(GameError::InsufficientFunds)
                && final(self).blackjack_token == old(self).blackjack_token
                && final(self).debt_log@ == old(self).debt_log@,
            old(self).blackjack_token.attos >= amount.attos ==> {
                &&& final(self).blackjack_token.attos == old(self).blackjack_token.attos - amount.attos
                &&& final(self).debt_log@ == old(self).debt_log@.insert(debt_id, DebtRecord {
                    id: debt_id,
                    user_chain: origin,
                    amount,
                    created_at,
                    paid_at: Some(now),
                    status: DebtStatus::Paid,
                })
                &&& r == Ok::<BankrollSend, GameError>(BankrollSend {
                    destination: origin,
                    message: BankrollMessage::DebtPaid { debt_id, amount, paid_at: now },
                })
            },
            final(self).token_pot_log@ == old(self).token_pot_log@,
            final(self).accounts@ == old(self).accounts@,
            final(self).daily_bonus == old(self).daily_bonus,
    {
        if self.blackjack_token.attos < amount.attos {
            return Err(GameError::InsufficientFunds);
        }
        self.blackjack_token = self.blackjack_token.saturating_sub(amount);
        let record = DebtRecord {
            id: debt_id,
            user_chain: origin,
            amount,
            created_at,
            paid_at: Some(now),
            status: DebtStatus::Paid,
        };
        self.debt_log.insert(debt_id, record);
        Ok(BankrollSend {
            destination: origin,
            message: BankrollMessage::DebtPaid { debt_id, amount, paid_at: now },
        })
    }

    /// A pot arrives in the pool and is logged, keyed by its arrival time.
    pub fn token_pot(&mut self, origin: ChainId, amount: Amount, now: u64)
        ensures
            final(self).blackjack_token.attos == sat_add(old(self).blackjack_token.attos as nat, amount.attos as nat),
            final(self).token_pot_log@ == old(self).token_pot_log@.insert(now, TokenPotRecord {
                id: now,
                user_chain: origin,
                amount,
                created_at: now,
            }),
            final(self).debt_log@ == old(self).debt_log@,
            final(self).accounts@ == old(self).accounts@,
            final(self).daily_bonus == old(self).daily_bonus,
    {
        self.blackjack_token = self.blackjack_token.saturating_add(amount);
        self.token_pot_log.insert(now, TokenPotRecord { id: now, user_chain: origin, amount, created_at: now });
    }

    /// Marks a recorded debt paid. Fails, changing nothing, where no debt has that id.
    pub fn debt_paid(&mut self, debt_id: u64, paid_at: u64) -> (r: Result<(), GameError>)
        ensures
            !old(self).debt_log@.contains_key(debt_id) ==> r == Err::<(), GameError>(GameError::ConsistencyViolation)
                && final(self).debt_log@ == old(self).debt_log@,
            old(self).debt_log@.contains_key(debt_id) ==> r is Ok && final(self).debt_log@ == old(self).debt_log@.insert(
                debt_id,
                DebtRecord { paid_at: Some(paid_at), status: DebtStatus::Paid, ..old(self).debt_log@[debt_id] },
            ),
            final(self).blackjack_token == old(self).blackjack_token,
            final(self).token_pot_log@ == old(self).token_pot_log@,
            final(self).accounts@ == old(self).accounts@,
            final(self).daily_bonus == old(self).daily_bonus,
    {
        let record = match self.debt_log.get(&debt_id) {
            Some(rec) => *rec,
            None => {
                return Err(GameError::ConsistencyViolation);
            },
        };
        let updated = DebtRecord { paid_at: Some(paid_at), status: DebtStatus::Paid, ..record };
        self.debt_log.insert(debt_id, updated);
        Ok(())
    }

    /// Applies a message from another chain's ledger.
    pub fn execute_message(&mut self, origin: ChainId, message: BankrollMessage, now: u64) -> (r: Result<Option<BankrollSend>, GameError>)
        ensures
            match message {
                BankrollMessage::ReceivedToken { amount } => r == Ok::<Option<BankrollSend>, GameError>(None)
                    && final(self).blackjack_token.attos == sat_add(old(self).blackjack_token.attos as nat, amount.attos as nat)
                    && final(self).debt_log@ == old(self).debt_log@
                    && final(self).token_pot_log@ == old(self).token_pot_log@,
                BankrollMessage::DebtNotif { debt_id, amount, created_at } => {
                    &&& (old(self).blackjack_token.attos < amount.attos <==> r == Err::<Option<BankrollSend>, GameError>(GameError::InsufficientFunds))
                    &&& old(self).blackjack_token.attos >= amount.attos ==> r is Ok
                    &&& r is Err ==> final(self).blackjack_token == old(self).blackjack_token
                        && final(self).debt_log@ == old(self).debt_log@
                    &&& r is Ok ==> {
                        &&& r == Ok::<Option<BankrollSend>, GameError>(Some(BankrollSend {
                            destination: origin,
                            message: BankrollMessage::DebtPaid { debt_id, amount, paid_at: now },
                        }))
                        &&& final(self).blackjack_token.attos == old(self).blackjack_token.attos - amount.attos
                        &&& final(self).debt_log@ == old(self).debt_log@.insert(debt_id, DebtRecord {
                            id: debt_id,
                            user_chain: origin,
                            amount,
                            created_at,
                            paid_at: Some(now),
                            status: DebtStatus::Paid,
                        })
                    }
                    &&& final(self).token_pot_log@ == old(self).token_pot_log@
                },
                BankrollMessage::TokenPot { amount } => r == Ok::<Option<BankrollSend>, GameError>(None)
                    && final(self).blackjack_token.attos == sat_add(old(self).blackjack_token.attos as nat, amount.attos as nat)
                    && final(self).debt_log@ == old(self).debt_log@
                    && final(self).token_pot_log@ == old(self).token_pot_log@.insert(now, TokenPotRecord {
                        id: now,
                        user_chain: origin,
                        amount,
                        created_at: now,
                    }),
                BankrollMessage::DebtPaid { debt_id, amount, paid_at } => {
                    &&& (old(self).debt_log@.contains_key(debt_id) <==> r == Ok::<Option<BankrollSend>, GameError>(None))
                    &&& r is Err ==> r == Err::<Option<BankrollSend>, GameError>(GameError::ConsistencyViolation)
                        && final(self).debt_log@ == old(self).debt_log@
                    &&& r is Ok ==> final(self).debt_log@ == old(self).debt_log@.insert(
                        debt_id,
                        DebtRecord { paid_at: Some(paid_at), status: DebtStatus::Paid, ..old(self).debt_log@[debt_id] },
                    )
                    &&& final(self).blackjack_token == old(self).blackjack_token
                    &&& final(self).token_pot_log@ == old(self).token_pot_log@
                },
            },
            final(self).accounts@ == old(self).accounts@,
            final(self).daily_bonus == old(self).daily_bonus,
    {
        match message {
            BankrollMessage::ReceivedToken { amount } => {
                self.received_token(amount);
                Ok(None)
            },
            BankrollMessage::DebtNotif { debt_id, amount, created_at } => {
                match self.debt_notif(origin, debt_id, amount, created_at, now) {
                    Ok(send) => Ok(Some(send)),
                    Err(e) => Err(e),
                }
            },
            BankrollMessage::TokenPot { amount } => {
                self.token_pot(origin, amount, now);
                Ok(None)
            },
            BankrollMessage::DebtPaid { debt_id, amount: _, paid_at } => {
                match self.debt_paid(debt_id, paid_at) {
                    Ok(()) => Ok(None),
                    Err(e) => Err(e),
                }
            },
        }
    }
}


/// An operation that the Blackjack application on the same chain asks of the ledger.
#[derive(Clone, Copy, Debug, PartialEq, Eq, Structural)]
pub enum BankrollOperation {
    Balance { owner: u64 },
    UpdateBalance { owner: u64, amount: Amount },
    NotifyDebt { amount: Amount, target_chain: ChainId },
    TransferTokenPot { amount: Amount, target_chain: ChainId },
    MintToken { chain_id: ChainId, amount: Amount },
}

#[derive(Clone, Copy, Debug, PartialEq, Eq, Structural)]
pub enum BankrollResponse {
    Done,
    Balance(Amount),
}

impl BankrollState {
    /// A ledger with no accounts, logs, bonus or pool.
    pub fn new() -> (r: BankrollState)
        ensures
            r.blackjack_token.attos == 0,
            r.debt_log@ == Map::<u64, DebtRecord>::empty(),
            r.token_pot_log@ == Map::<u64, TokenPotRecord>::empty(),
            r.accounts@ == Map::<u64, Amount>::empty(),
            r.daily_bonus == (DailyBonus { amount: Amount { attos: 0 }, last_claim: 0 }),
    {
        BankrollState {
            blackjack_token: Amount::zero(),
            debt_log: HashMap::new(),
            token_pot_log: HashMap::new(),
            daily_bonus: DailyBonus { amount: Amount::zero(), last_claim: 0 },
            accounts: HashMap::new(),
        }
    }

    /// Carries out an operation and answers it, with the ledger message it
    /// sends, if any.
    pub fn execute_operation(&mut self, operation: BankrollOperation, own_chain: ChainId, parameters: BankrollParameters, now: u64)
        -> (r: Result<(BankrollResponse, Option<BankrollSend>), GameError>)
        ensures
            match operation {
                BankrollOperation::Balance { owner } => {
                    let b = sat_add(account_of(old(self).accounts@, owner), bonus_due(old(self).daily_bonus, parameters.bonus, now));
                    &&& r is Ok
                    &&& r->Ok_0.0 == BankrollResponse::Balance(Amount { attos: b as u128 })
                    &&& r->Ok_0.1 is None
                    &&& final(self).accounts@ == old(self).accounts@.insert(owner, Amount { attos: b as u128 })
                    &&& final(self).daily_bonus == bonus_after(old(self).daily_bonus, parameters.bonus, now)
                    &&& final(self).same_logs_and_pool(old(self))
                },
                BankrollOperation::UpdateBalance { owner, amount } => r == Ok::<(BankrollResponse, Option<BankrollSend>), GameError>((BankrollResponse::Done, None))
                    && final(self).accounts@ == old(self).accounts@.insert(owner, amount)
                    && final(self).daily_bonus == old(self).daily_bonus
                    && final(self).same_logs_and_pool(old(self)),
                BankrollOperation::NotifyDebt { amount, target_chain } => r == Ok::<(BankrollResponse, Option<BankrollSend>), GameError>((BankrollResponse::Done, Some(BankrollSend {
                    destination: target_chain,
                    message: BankrollMessage::DebtNotif { debt_id: now, amount, created_at: now },
                }))) && final(self).debt_log@ == old(self).debt_log@.insert(now, DebtRecord {
                    id: now,
                    user_chain: own_chain,
                    amount,
                    created_at: now,
                    paid_at: None,
                    status: DebtStatus::Pending,
                }) && final(self).accounts@ == old(self).accounts@ && final(self).daily_bonus == old(self).daily_bonus
                    && final(self).token_pot_log@ == old(self).token_pot_log@,
                BankrollOperation::TransferTokenPot { amount, target_chain } => r == Ok::<(BankrollResponse, Option<BankrollSend>), GameError>((BankrollResponse::Done, Some(BankrollSend {
                    destination: target_chain,
                    message: BankrollMessage::TokenPot { amount },
                }))) && final(self).accounts@ == old(self).accounts@ && final(self).daily_bonus == old(self).daily_bonus
                    && final(self).same_logs_and_pool(old(self)),
                BankrollOperation::MintToken { chain_id, amount } => {
                    &&& own_chain != parameters.master_chain ==> r == Err::<(BankrollResponse, Option<BankrollSend>), GameError>(GameError::AuthorizationFailure)
                    &&& own_chain == parameters.master_chain ==> r == Ok::<(BankrollResponse, Option<BankrollSend>), GameError>((BankrollResponse::Done, Some(BankrollSend {
                        destination: chain_id,
                        message: BankrollMessage::ReceivedToken { amount },
                    })))
                    &&& final(self).accounts@ == old(self).accounts@
                    &&& final(self).daily_bonus == old(self).daily_bonus
                    &&& final(self).same_logs_and_pool(old(self))
                },
            },
            final(self).blackjack_token == old(self).blackjack_token,
    {
        match operation {
            BankrollOperation::Balance { owner } => {
                let b = self.balance(owner, parameters.bonus, now);
                Ok((BankrollResponse::Balance(b), None))
            },
            BankrollOperation::UpdateBalance { owner, amount } => {
                self.update_balance(owner, amount);
                Ok((BankrollResponse::Done, None))
            },
            BankrollOperation::NotifyDebt { amount, target_chain } => {
                let send = self.notify_debt(amount, target_chain, own_chain, now);
                Ok((BankrollResponse::Done, Some(send)))
            },
            BankrollOperation::TransferTokenPot { amount, target_chain } => {
                Ok((BankrollResponse::Done, Some(self.transfer_token_pot(amount, target_chain))))
            },
            BankrollOperation::MintToken { chain_id, amount } => {
                match self.mint_token(chain_id, amount, own_chain, parameters.master_chain) {
                    Ok(send) => Ok((BankrollResponse::Done, Some(send))),
                    Err(e) => Err(e),
                }
            },
        }
    }
}

} // verus!
