use vstd::prelude::*;
use crate::amount::{Amount, sat_add, sat_sub};
use crate::chain::{ChainId, GameError};

verus! {

/// A seated player: seat 0 is the single-player seat, 1..=3 the table's seats.
#[derive(Debug, Clone, Default)]
pub struct Player {
    pub seat_id: u8,
    pub bet: Amount,
    pub balance: Amount,
    pub hand: Vec<u8>,
    pub chain_id: Option<ChainId>,
    pub current_player: bool,
}

impl Player {
    /// A player with no bet and an empty hand.
    pub fn new(seat_id: u8, balance: Amount, chain_id: ChainId) -> (r: Player)
        ensures
            r.seat_id == seat_id,
            r.bet.attos == 0,
            r.balance == balance,
            r.hand@ == Seq::<u8>::empty(),
            r.chain_id == Some(chain_id),
            !r.current_player,
    {
        Player {
            seat_id,
            bet: Amount::zero(),
            balance,
            hand: Vec::new(),
            chain_id: Some(chain_id),
            current_player: false,
        }
    }

    /// Adds to the bet. Fails where the profile's balance differs from the
    /// player's, or where the bet would exceed the balance.
    pub fn add_bet(&mut self, amount: Amount, current_profile_balance: Amount) -> (r: Result<(), GameError>)
        ensures
            old(self).balance != current_profile_balance ==> r == Err::<(), GameError>(GameError::ConsistencyViolation),
            old(self).balance == current_profile_balance
                && sat_add(old(self).bet.attos as nat, amount.attos as nat) > old(self).balance.attos
                ==> r == Err::<(), GameError>(GameError::InsufficientFunds),
            r is Ok <==> old(self).balance == current_profile_balance
                && sat_add(old(self).bet.attos as nat, amount.attos as nat) <= old(self).balance.attos,
            r is Ok ==> final(self).bet.attos == sat_add(old(self).bet.attos as nat, amount.attos as nat),
            r is Err ==> final(self).bet == old(self).bet,
            final(self).balance == old(self).balance,
            final(self).seat_id == old(self).seat_id,
            final(self).hand@ == old(self).hand@,
            final(self).chain_id == old(self).chain_id,
            final(self).current_player == old(self).current_player,
    {
        if self.balance != current_profile_balance {
            return Err(GameError::ConsistencyViolation);
        }
        let new_bet = self.bet.saturating_add(amount);
        if new_bet.attos > self.balance.attos {
            return Err(GameError::InsufficientFunds);
        }
        self.bet = new_bet;
        Ok(())
    }

    pub fn reset_bet(&mut self)
        ensures
            final(self).bet.attos == 0,
            final(self).balance == old(self).balance,
            final(self).seat_id == old(self).seat_id,
            final(self).hand@ == old(self).hand@,
            final(self).chain_id == old(self).chain_id,
            final(self).current_player == old(self).current_player,
    {
        self.bet = Amount::zero();
    }

    /// Locks in the bet (the minimum where none was placed) and takes it off the
    /// balance; returns the bet and the new balance. Fails where the profile's
    /// balance differs from the player's, or where the minimum exceeds the balance.
    pub fn deal_bet(&mut self, min_bet: Amount, current_profile_balance: Amount) -> (r: Result<(Amount, Amount), GameError>)
        ensures
            old(self).balance != current_profile_balance ==> r == Err::<(Amount, Amount), GameError>(GameError::ConsistencyViolation),
            old(self).balance == current_profile_balance && min_bet.attos > old(self).balance.attos
                ==> r == Err::<(Amount, Amount), GameError>(GameError::InsufficientFunds),
            r is Ok <==> old(self).balance == current_profile_balance && min_bet.attos <= old(self).balance.attos,
            r is Ok ==> {
                &&& final(self).bet == if old(self).bet.attos == 0 { min_bet } else { old(self).bet }
                &&& final(self).balance.attos == sat_sub(old(self).balance.attos as nat, final(self).bet.attos as nat)
                &&& r == Ok::<(Amount, Amount), GameError>((final(self).bet, final(self).balance))
            },
            r is Err ==> final(self).bet == old(self).bet && final(self).balance == old(self).balance,
            final(self).seat_id == old(self).seat_id,
            final(self).hand@ == old(self).hand@,
            final(self).chain_id == old(self).chain_id,
            final(self).current_player == old(self).current_player,
    {
        if self.balance != current_profile_balance {
            return Err(GameError::ConsistencyViolation);
        }
        if min_bet.attos > self.balance.attos {
            return Err(GameError::InsufficientFunds);
        }
        if self.bet.attos == 0 {
            self.bet = min_bet;
        }
        self.balance = self.balance.saturating_sub(self.bet);
        Ok((self.bet, self.balance))
    }
}

/// The dealer holds a hand only.
#[derive(Debug, Clone, Default)]
pub struct Dealer {
    pub hand: Vec<u8>,
}

impl Dealer {
    pub fn empty() -> (r: Dealer)
        ensures
            r.hand@ == Seq::<u8>::empty(),
    {
        Dealer { hand: Vec::new() }
    }
}

} // verus!
