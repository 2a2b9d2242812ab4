use vstd::prelude::*;
use std::collections::HashMap;
use crate::amount::Amount;
use crate::chain::GameError;
use crate::deck::Deck;
use crate::player_dealer::{Dealer, Player};

verus! {

broadcast use vstd::std_specs::hash::group_hash_axioms;

/// The most players a table seats; their seats are 1..=3.
pub const MAX_BLACKJACK_PLAYERS: u8 = 3;

/// The seat of a single-player game.
pub const SINGLE_PLAYER_SEAT: u8 = 0;

/// Where a round stands.
#[derive(Clone, Copy, Debug, PartialEq, Eq, Structural, Default)]
pub enum BlackjackStatus {
    #[default]
    WaitingForPlayer,
    WaitingForBets,
    PlayerTurn,
    DealerTurn,
    RoundEnded,
    Ended,
}

/// How a registry entry changes.
#[derive(Clone, Copy, Debug, PartialEq, Eq, Structural)]
pub enum MutationReason {
    AddNew,
    Update,
    Remove,
}

/// Where a user stands in finding a table and playing.
#[derive(Clone, Copy, Debug, PartialEq, Eq, Structural, Default)]
pub enum UserStatus {
    #[default]
    Idle,
    FindPlayChain,
    PlayChainFound,
    PlayChainUnavailable,
    RequestingTableSeat,
    RequestTableSeatFail,
    InMultiPlayerGame,
    InSinglePlayerGame,
}

/// How a comparison of hands came out; `Continue` where the round goes on.
#[derive(Clone, Copy, Debug, PartialEq, Eq, Structural)]
pub enum GameOutcome {
    PlayerWins,
    DealerWins,
    Draw,
    Continue,
}

/// One round of Blackjack: the dealer, the seated players, the deck (with its
/// tracked size), the pot, whose turn it is, the status and the turn deadline.
/// `sequence` grows with every change that players can see.
#[derive(Debug, Clone, Default)]
pub struct BlackjackGame {
    pub sequence: u64,
    pub dealer: Dealer,
    pub players: HashMap<u8, Player>,
    pub deck: Deck,
    pub count: u64,
    pub pot: Amount,
    pub active_seat: u8,
    pub status: BlackjackStatus,
    pub time_limit: u64,
}

impl BlackjackGame {
    /// The tracked deck size matches the deck.
    pub open spec fn wf(&self) -> bool {
        self.count == self.deck.cards@.len()
    }

    /// The same round with only the deck, its count and the dealer's hand changed.
    pub open spec fn same_but_cards(&self, other: &BlackjackGame) -> bool {
        &&& self.sequence == other.sequence
        &&& self.pot == other.pot
        &&& self.active_seat == other.active_seat
        &&& self.status == other.status
        &&& self.time_limit == other.time_limit
    }

    /// A round in `WaitingForPlayer` with no players, an empty dealer hand and the given deck.
    pub fn new(new_deck: Deck) -> (r: BlackjackGame)
        ensures
            r.wf(),
            r.sequence == 0,
            r.dealer.hand@ == Seq::<u8>::empty(),
            r.players@ == Map::<u8, Player>::empty(),
            r.deck.cards@ == new_deck.cards@,
            r.pot.attos == 0,
            r.active_seat == 0,
            r.status == BlackjackStatus::WaitingForPlayer,
            r.time_limit == 0,
    {
        let count = new_deck.cards.len() as u64;
        BlackjackGame {
            sequence: 0,
            dealer: Dealer::empty(),
            players: HashMap::new(),
            deck: new_deck,
            count,
            pot: Amount::zero(),
            active_seat: 0,
            status: BlackjackStatus::WaitingForPlayer,
            time_limit: 0,
        }
    }

    pub fn is_seat_taken(&self, seat_id: u8) -> (r: bool)
        ensures
            r == self.players@.contains_key(seat_id),
    {
        self.players.contains_key(&seat_id)
    }

    /// Puts a player on a seat, replacing whoever sat there.
    pub fn register_update_player(&mut self, seat_id: u8, player: Player)
        ensures
            final(self).players@ == old(self).players@.insert(seat_id, player),
            final(self).same_but_cards(old(self)),
            final(self).deck == old(self).deck,
            final(self).count == old(self).count,
            final(self).dealer == old(self).dealer,
    {
        self.players.insert(seat_id, player);
    }

    pub fn update_status(&mut self, new_status: BlackjackStatus)
        ensures
            final(self).status == new_status,
            final(self).players@ == old(self).players@,
            final(self).sequence == old(self).sequence,
            final(self).pot == old(self).pot,
            final(self).active_seat == old(self).active_seat,
            final(self).time_limit == old(self).time_limit,
            final(self).deck == old(self).deck,
            final(self).count == old(self).count,
            final(self).dealer == old(self).dealer,
    {
        self.status = new_status;
    }

    /// Vacates a seat, if it is taken.
    pub fn remove_player(&mut self, seat_id: u8)
        ensures
            final(self).players@ == old(self).players@.remove(seat_id),
            final(self).same_but_cards(old(self)),
            final(self).deck == old(self).deck,
            final(self).count == old(self).count,
            final(self).dealer == old(self).dealer,
    {
        if self.players.contains_key(&seat_id) {
            let _ = self.players.remove(&seat_id);
        }
        proof {
            if !old(self).players@.contains_key(seat_id) {
                assert(old(self).players@.remove(seat_id) =~= old(self).players@);
            }
        }
    }

    /// Sets the turn deadline to `now + duration` (capped).
    pub fn set_time_limit(&mut self, now: u64, duration: u64)
        ensures
            final(self).time_limit == if now + duration > u64::MAX { u64::MAX as int } else { now + duration },
            final(self).players@ == old(self).players@,
            final(self).sequence == old(self).sequence,
            final(self).pot == old(self).pot,
            final(self).active_seat == old(self).active_seat,
            final(self).status == old(self).status,
            final(self).deck == old(self).deck,
            final(self).count == old(self).count,
            final(self).dealer == old(self).dealer,
    {
        self.time_limit = now.saturating_add(duration);
    }

    /// Deals one card from the deck, keeping the tracked size in step.
    pub fn deal_card(&mut self) -> (r: Result<u8, GameError>)
        requires
            old(self).wf(),
        ensures
            final(self).wf(),
            old(self).deck.cards@.len() == 0 ==> r == Err::<u8, GameError>(GameError::ResourceExhausted)
                && final(self).deck.cards@ == old(self).deck.cards@,
            old(self).deck.cards@.len() > 0 ==> r == Ok::<u8, GameError>(old(self).deck.cards@.last())
                && final(self).deck.cards@ == old(self).deck.cards@.drop_last(),
            final(self).players@ == old(self).players@,
            final(self).same_but_cards(old(self)),
            final(self).dealer == old(self).dealer,
    {
        match self.deck.deal() {
            Some(card) => {
                self.count = self.count - 1;
                Ok(card)
            },
            None => Err(GameError::ResourceExhausted),
        }
    }

    /// Deals two cards to the dealer, then two to the player on the seat.
    /// Fails, changing nothing, where the seat is empty or fewer than four cards are left.
    pub fn draw_initial_cards(&mut self, seat_id: u8) -> (r: Result<(), GameError>)
        requires
            old(self).wf(),
        ensures
            final(self).wf(),
            !old(self).players@.contains_key(seat_id) ==> r == Err::<(), GameError>(GameError::ConsistencyViolation),
            old(self).players@.contains_key(seat_id) && old(self).deck.cards@.len() < 4
                ==> r == Err::<(), GameError>(GameError::ResourceExhausted),
            r is Ok <==> old(self).players@.contains_key(seat_id) && old(self).deck.cards@.len() >= 4,
            r is Err ==> final(self).deck == old(self).deck && final(self).players@ == old(self).players@
                && final(self).dealer == old(self).dealer,
            r is Ok ==> {
                let d = old(self).deck.cards@;
                let n = d.len();
                let p = old(self).players@[seat_id];
                let q = final(self).players@[seat_id];
                &&& final(self).deck.cards@ == d.subrange(0, n - 4)
                &&& final(self).dealer.hand@ == old(self).dealer.hand@ + seq![d[n - 1], d[n - 2]]
                &&& final(self).players@ == old(self).players@.insert(seat_id, q)
                &&& q.hand@ == p.hand@ + seq![d[n - 3], d[n - 4]]
                &&& q.seat_id == p.seat_id && q.bet == p.bet && q.balance == p.balance
                &&& q.chain_id == p.chain_id && q.current_player == p.current_player
            },
            final(self).same_but_cards(old(self)),
    {
        if !self.players.contains_key(&seat_id) {
            return Err(GameError::ConsistencyViolation);
        }
        if self.deck.cards.len() < 4 {
            return Err(GameError::ResourceExhausted);
        }
        let ghost d = self.deck.cards@;
        let c1 = self.deal_card();
        let c2 = self.deal_card();
        match (c1, c2) {
            (Ok(a), Ok(b)) => {
                self.dealer.hand.push(a);
                self.dealer.hand.push(b);
            },
            _ => {},
        }
        let mut player = self.players.remove(&seat_id).unwrap();
        let c3 = self.deal_card();
        let c4 = self.deal_card();
        match (c3, c4) {
            (Ok(a), Ok(b)) => {
                player.hand.push(a);
                player.hand.push(b);
            },
            _ => {},
        }
        self.players.insert(seat_id, player);
        assert(self.deck.cards@ =~= d.subrange(0, d.len() - 4));
        assert(self.dealer.hand@ =~= old(self).dealer.hand@ + seq![d[d.len() - 1], d[d.len() - 2]]);
        assert(self.players@ =~= old(self).players@.insert(seat_id, self.players@[seat_id]));
        Ok(())
    }

    /// A snapshot for subscribers: the round with the deck's cards left out (the
    /// dealer's hand is shown).
    pub fn data_for_event(&self) -> (r: BlackjackGame)
        ensures
            r.deck.cards@ == Seq::<u8>::empty(),
            r.dealer.hand@ == self.dealer.hand@,
            r.players@ == self.players@,
            r.count == self.count,
            r.same_but_cards(self),
    {
        BlackjackGame {
            sequence: self.sequence,
            dealer: Dealer { hand: self.dealer.hand.clone() },
            players: self.players.clone(),
            deck: Deck::empty(),
            count: self.count,
            pot: self.pot,
            active_seat: self.active_seat,
            status: self.status,
            time_limit: self.time_limit,
        }
    }
}

} // verus!
