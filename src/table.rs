use vstd::prelude::*;
use crate::amount::{Amount, sat_add, sat_mul, sat_sub};
use crate::bankroll::{account_of, bonus_due};
use crate::bet_chip_profile::bet_data_matches;
use crate::blackjack::{BlackjackGame, BlackjackStatus, GameOutcome, UserStatus, SINGLE_PLAYER_SEAT};
use crate::card::{calculate_hand_value, hand_value};
use crate::chain::{ChainId, GameError};
use crate::deck::{seed_for, shuffled, standard_cards, Deck};
use crate::player_dealer::Player;
use crate::state::{BlackjackChain, Outbound};
use crate::text::{decimal, decimal_string};

verus! {

broadcast use vstd::std_specs::hash::group_hash_axioms;

pub const ONE_MINUTE_DURATION_IN_MICROS: u64 = 60_000_000;

pub const TWO_MINUTES_DURATION_IN_MICROS: u64 = 120_000_000;

/// Below this many cards the deck is refilled.
pub const MINIMUM_BLACKJACK_DECK: u64 = 80;

/// Decks in a refill.
pub const REFILL_DECKS: u64 = 7;

/// Cards in a refill: seven decks.
pub const REFILL_BLACKJACK_DECK_COUNT: u64 = 364;

/// Decks in a new single-player shoe.
pub const SHOE_DECKS: u64 = 8;

/// The dealer draws while the hand is worth less than this.
pub const DEALER_STANDS_AT: u128 = 17;

pub open spec fn next_seq(s: u64) -> u64 {
    if s == u64::MAX { s } else { (s + 1) as u64 }
}

pub open spec fn deadline(now: u64, duration: u64) -> u64 {
    if now + duration > u64::MAX { u64::MAX } else { (now + duration) as u64 }
}

/// `s` written `k` times in a row.
pub open spec fn repeat(s: Seq<u8>, k: nat) -> Seq<u8>
    decreases k,
{
    if k == 0 { Seq::empty() } else { repeat(s, (k - 1) as nat) + s }
}

/// The cards of `decks` full decks, shuffled together once by the time `now`.
pub open spec fn fresh_shoe(now: u64, decks: nat) -> Seq<u8> {
    shuffled(repeat(standard_cards(), decks), seed_for(decimal(now as nat), decimal(now as nat)))
}

/// After the first two cards each: naturals decide, else the round goes on.
pub open spec fn initial_outcome(dealer_value: nat, player_value: nat) -> GameOutcome {
    if dealer_value == 21 && player_value == 21 {
        GameOutcome::Draw
    } else if dealer_value == 21 {
        GameOutcome::DealerWins
    } else if player_value == 21 {
        GameOutcome::PlayerWins
    } else {
        GameOutcome::Continue
    }
}

/// After a hit: a bust loses, 21 wins, else the round goes on.
pub open spec fn hit_outcome(player_value: nat) -> GameOutcome {
    if player_value > 21 {
        GameOutcome::DealerWins
    } else if player_value == 21 {
        GameOutcome::PlayerWins
    } else {
        GameOutcome::Continue
    }
}

/// After the dealer's draws: a dealer bust or a higher player total wins.
pub open spec fn stand_outcome(dealer_value: nat, player_value: nat) -> GameOutcome {
    if dealer_value > 21 {
        GameOutcome::PlayerWins
    } else if player_value > dealer_value {
        GameOutcome::PlayerWins
    } else if dealer_value > player_value {
        GameOutcome::DealerWins
    } else {
        GameOutcome::Draw
    }
}

/// The dealer's hand and the deck once the dealer has drawn from the end of the
/// deck while the hand is worth less than 17 and cards are left.
pub open spec fn dealer_draws(hand: Seq<u8>, deck: Seq<u8>) -> (Seq<u8>, Seq<u8>)
    decreases deck.len(),
{
    if hand_value(hand) >= 17 || deck.len() == 0 {
        (hand, deck)
    } else {
        dealer_draws(hand.push(deck.last()), deck.drop_last())
    }
}

/// What stays in the pool after paying `owed` from it: the rest, or nothing
/// where it falls short.
pub open spec fn payout_pool(pool: nat, owed: nat) -> nat {
    if pool >= owed { (pool - owed) as nat } else { 0 }
}

/// The shortfall recorded as debt when `owed` is paid from the pool.
pub open spec fn payout_debt(pool: nat, owed: nat) -> nat {
    if pool >= owed { 0 } else { (owed - pool) as nat }
}

/// The smallest bet that bet limits computed from `balance` allow.
pub open spec fn min_bet_for(balance: nat) -> nat {
    if balance < crate::chipset::floor_attos() { 0 } else { crate::chipset::chip_base(balance) }
}

/// The balance that a read of the ledger gives the user, the daily bonus included.
pub open spec fn refreshed_balance(s: &BlackjackChain, now: u64) -> nat {
    sat_add(account_of(s.bankroll.accounts@, s.owner), bonus_due(s.bankroll.daily_bonus, s.parameters.bonus, now))
}

/// Whether the single-player seat's player is there, as the profile says.
pub open spec fn seated(s: &BlackjackChain) -> bool {
    s.profile.seat is Some && s.single_player_game.players@.contains_key(s.profile.seat->0)
}

pub open spec fn seated_player(s: &BlackjackChain) -> Player {
    s.single_player_game.players@[s.profile.seat->0]
}

/// `q` sits on the same seat as `p`, for the same chain.
pub open spec fn same_player(p: Player, q: Player) -> bool {
    p.seat_id == q.seat_id && p.chain_id == q.chain_id
}

/// How a bet of `amount` is answered.
pub open spec fn bet_check(s: &BlackjackChain, amount: Amount) -> Result<(), GameError> {
    if s.profile.bet_data is None || s.profile.seat is None {
        Err(GameError::ConsistencyViolation)
    } else {
        let d = s.profile.bet_data->0;
        let balance = s.profile.balance.attos;
        if balance == 0 || balance < d.min_bet.attos {
            Err(GameError::InsufficientFunds)
        } else if amount.attos > 0 && amount.attos < d.min_bet.attos {
            Err(GameError::InsufficientFunds)
        } else if amount.attos > d.max_bet.attos {
            Err(GameError::InsufficientFunds)
        } else if !seated(s) {
            Err(GameError::ConsistencyViolation)
        } else if seated_player(s).balance != s.profile.balance {
            Err(GameError::ConsistencyViolation)
        } else if seated_player(s).bet.attos + amount.attos > seated_player(s).balance.attos {
            Err(GameError::InsufficientFunds)
        } else {
            Ok(())
        }
    }
}

/// How the initial deal is answered, before any card moves.
pub open spec fn deal_check(s: &BlackjackChain) -> Result<(), GameError> {
    if s.profile.seat is None || s.profile.bet_data is None || !seated(s) {
        Err(GameError::ConsistencyViolation)
    } else if s.single_player_game.deck.cards@.len() < 4 {
        Err(GameError::ResourceExhausted)
    } else if seated_player(s).balance != s.profile.balance {
        Err(GameError::ConsistencyViolation)
    } else if s.profile.bet_data->0.min_bet.attos > seated_player(s).balance.attos {
        Err(GameError::InsufficientFunds)
    } else {
        Ok(())
    }
}

impl BlackjackChain {
    pub open spec fn wf(&self) -> bool {
        self.single_player_game.wf() && self.game.wf()
    }

    /// The parts that a step of the single-player round leaves alone.
    pub open spec fn same_outside_round(&self, o: &BlackjackChain) -> bool {
        &&& self.chain_id == o.chain_id
        &&& self.owner == o.owner
        &&& self.parameters == o.parameters
        &&& self.play_chain_set@ == o.play_chain_set@
        &&& self.play_chain_status@ == o.play_chain_status@
        &&& self.user_status == o.user_status
        &&& self.user_play_chain == o.user_play_chain
        &&& self.find_play_chain_retry == o.find_play_chain_retry
        &&& self.token_pool_address == o.token_pool_address
        &&& self.game == o.game
        &&& self.channel_game_state == o.channel_game_state
    }

    /// `decks` full decks, shuffled together by the time `now`.
    pub fn fresh_cards(now: u64, decks: u64) -> (r: Vec<u8>)
        ensures
            r@ == fresh_shoe(now, decks as nat),
            r@.to_multiset() == repeat(standard_cards(), decks as nat).to_multiset(),
            r@.len() == 52 * decks,
    {
        let mut cards: Vec<u8> = Vec::new();
        let mut k: u64 = 0;
        while k < decks
            invariant
                k <= decks,
                cards@ == repeat(standard_cards(), k as nat),
                cards@.len() == 52 * k,
            decreases decks - k,
        {
            let mut batch = crate::deck::standard_deck();
            cards.append(&mut batch);
            k = k + 1;
        }
        let t = decimal_string(now as u128);
        let mut shoe = Deck::with_cards(cards);
        shoe.shuffle(t.clone(), t);
        proof {
            shoe.cards@.to_multiset_ensures();
            repeat(standard_cards(), decks as nat).to_multiset_ensures();
        }
        shoe.cards
    }

    /// A single-player round in `WaitingForPlayer` over an eight-deck shoe.
    pub fn create_single_player_blackjack_game(now: u64) -> (r: BlackjackGame)
        ensures
            r.wf(),
            r.deck.cards@ == fresh_shoe(now, SHOE_DECKS as nat),
            r.sequence == 0,
            r.status == BlackjackStatus::WaitingForPlayer,
            r.players@ == Map::<u8, Player>::empty(),
            r.dealer.hand@ == Seq::<u8>::empty(),
            r.pot.attos == 0,
    {
        BlackjackGame::new(Deck::with_cards(Self::fresh_cards(now, SHOE_DECKS)))
    }

    /// Seven fresh decks for a refill.
    pub fn refill_deck(now: u64) -> (r: Vec<u8>)
        ensures
            r@ == fresh_shoe(now, REFILL_DECKS as nat),
            r@.to_multiset() == repeat(standard_cards(), REFILL_DECKS as nat).to_multiset(),
            r@.len() == REFILL_BLACKJACK_DECK_COUNT,
    {
        Self::fresh_cards(now, REFILL_DECKS)
    }

    /// Refills the single-player deck with seven decks, reshuffled with it, once
    /// fewer than 80 cards are left.
    pub fn check_deck_single_player(&mut self, now: u64)
        requires
            old(self).wf(),
        ensures
            final(self).wf(),
            old(self).single_player_game.count >= MINIMUM_BLACKJACK_DECK ==> final(self).single_player_game == old(self).single_player_game,
            old(self).single_player_game.count < MINIMUM_BLACKJACK_DECK ==> {
                &&& final(self).single_player_game.deck.cards@ == shuffled(
                    old(self).single_player_game.deck.cards@ + fresh_shoe(now, REFILL_DECKS as nat),
                    seed_for(decimal(now as nat), decimal(now as nat)),
                )
                &&& final(self).single_player_game.deck.cards@.to_multiset() == old(self).single_player_game.deck.cards@.to_multiset().add(
                    repeat(standard_cards(), REFILL_DECKS as nat).to_multiset(),
                )
                &&& final(self).single_player_game.count == old(self).single_player_game.count + REFILL_BLACKJACK_DECK_COUNT
            },
            final(self).single_player_game.players@ == old(self).single_player_game.players@,
            final(self).single_player_game.same_but_cards(&old(self).single_player_game),
            final(self).single_player_game.dealer == old(self).single_player_game.dealer,
            final(self).same_outside_round(old(self)),
            final(self).profile == old(self).profile,
            final(self).blackjack_token_pool == old(self).blackjack_token_pool,
            final(self).bankroll == old(self).bankroll,
    {
        if self.single_player_game.count < MINIMUM_BLACKJACK_DECK {
            let mut refill = Self::refill_deck(now);
            let t = decimal_string(now as u128);
            let ghost joined = self.single_player_game.deck.cards@ + refill@;
            self.single_player_game.deck.add_cards(&mut refill, t);
            proof {
                self.single_player_game.deck.cards@.to_multiset_ensures();
                joined.to_multiset_ensures();
                vstd::seq_lib::lemma_multiset_commutative(old(self).single_player_game.deck.cards@, fresh_shoe(now, REFILL_DECKS as nat));
            }
            self.single_player_game.count = self.single_player_game.count + REFILL_BLACKJACK_DECK_COUNT;
        }
    }
}


impl BlackjackChain {
    /// Adds `amount` to the single player's bet (zero sits the hand out).
    pub fn player_bet(&mut self, amount: Amount) -> (r: Result<(), GameError>)
        ensures
            r == bet_check(old(self), amount),
            r is Ok ==> {
                let p = seated_player(old(self));
                let q = seated_player(final(self));
                &&& final(self).single_player_game.players@ == old(self).single_player_game.players@.insert(old(self).profile.seat->0, q)
                &&& same_player(p, q) && q.balance == p.balance && q.hand@ == p.hand@ && q.current_player == p.current_player
                &&& q.bet.attos == p.bet.attos + amount.attos
                &&& final(self).single_player_game.sequence == next_seq(old(self).single_player_game.sequence)
                &&& final(self).single_player_game.deck == old(self).single_player_game.deck
                &&& final(self).single_player_game.count == old(self).single_player_game.count
                &&& final(self).single_player_game.dealer == old(self).single_player_game.dealer
                &&& final(self).single_player_game.status == old(self).single_player_game.status
                &&& final(self).single_player_game.pot == old(self).single_player_game.pot
                &&& final(self).single_player_game.time_limit == old(self).single_player_game.time_limit
            },
            r is Err ==> final(self).single_player_game == old(self).single_player_game,
            final(self).same_outside_round(old(self)),
            final(self).profile == old(self).profile,
            final(self).blackjack_token_pool == old(self).blackjack_token_pool,
            final(self).bankroll == old(self).bankroll,
    {
        let (min_bet, max_bet) = match &self.profile.bet_data {
            Some(d) => (d.min_bet, d.max_bet),
            None => {
                return Err(GameError::ConsistencyViolation);
            },
        };
        let seat = match self.profile.seat {
            Some(seat) => seat,
            None => {
                return Err(GameError::ConsistencyViolation);
            },
        };
        let balance = self.profile.balance;
        if balance.attos == 0 || balance.attos < min_bet.attos {
            return Err(GameError::InsufficientFunds);
        }
        if amount.attos > 0 && amount.attos < min_bet.attos {
            return Err(GameError::InsufficientFunds);
        }
        if amount.attos > max_bet.attos {
            return Err(GameError::InsufficientFunds);
        }
        let (player_bet, player_balance) = match self.single_player_game.players.get(&seat) {
            Some(p) => (p.bet, p.balance),
            None => {
                return Err(GameError::ConsistencyViolation);
            },
        };
        if player_balance != balance {
            return Err(GameError::ConsistencyViolation);
        }
        if amount.attos > player_balance.attos || player_bet.attos > player_balance.attos - amount.attos {
            return Err(GameError::InsufficientFunds);
        }
        let mut player = self.single_player_game.players.remove(&seat).unwrap();
        let added = player.add_bet(amount, balance);
        self.single_player_game.players.insert(seat, player);
        self.single_player_game.sequence = self.single_player_game.sequence.saturating_add(1);
        match added {
            Ok(()) => Ok(()),
            Err(e) => Err(e),
        }
    }

    /// Deals two cards each to the dealer and the single player, locks in the bet
    /// (moving it from the balance into the pot and the pool, and recording the new
    /// balance in the ledger) and reports what the first cards decide.
    pub fn deal_draw_single_player(&mut self) -> (r: Result<GameOutcome, GameError>)
        requires
            old(self).wf(),
        ensures
            final(self).wf(),
            deal_check(old(self)) is Err ==> r == Err::<GameOutcome, GameError>(deal_check(old(self))->Err_0),
            deal_check(old(self)) is Ok ==> r is Ok && {
                let seat = old(self).profile.seat->0;
                let p = seated_player(old(self));
                let q = seated_player(final(self));
                let d = old(self).single_player_game.deck.cards@;
                let n = d.len();
                let g = final(self).single_player_game;
                let min_bet = old(self).profile.bet_data->0.min_bet;
                let bet = if p.bet.attos == 0 { min_bet } else { p.bet };
                &&& g.deck.cards@ == d.subrange(0, n - 4)
                &&& g.dealer.hand@ == old(self).single_player_game.dealer.hand@ + seq![d[n - 1], d[n - 2]]
                &&& g.players@ == old(self).single_player_game.players@.insert(seat, q)
                &&& q.hand@ == p.hand@ + seq![d[n - 3], d[n - 4]]
                &&& same_player(p, q) && q.current_player
                &&& q.bet == bet
                &&& q.balance.attos == sat_sub(p.balance.attos as nat, bet.attos as nat)
                &&& g.status == BlackjackStatus::PlayerTurn
                &&& g.pot.attos == sat_add(old(self).single_player_game.pot.attos as nat, bet.attos as nat)
                &&& final(self).blackjack_token_pool.attos == sat_add(old(self).blackjack_token_pool.attos as nat, bet.attos as nat)
                &&& final(self).profile.balance == q.balance
                &&& final(self).bankroll.accounts@ == old(self).bankroll.accounts@.insert(old(self).owner, q.balance)
                &&& r == Ok::<GameOutcome, GameError>(initial_outcome(hand_value(g.dealer.hand@), hand_value(q.hand@)))
                &&& g.sequence == old(self).single_player_game.sequence
                &&& g.time_limit == old(self).single_player_game.time_limit
            },
            final(self).same_outside_round(old(self)),
            final(self).profile.seat == old(self).profile.seat,
            final(self).profile.bet_data == old(self).profile.bet_data,
            final(self).bankroll.daily_bonus == old(self).bankroll.daily_bonus,
            final(self).bankroll.same_logs_and_pool(&old(self).bankroll),
    {
        let seat = match self.profile.seat {
            Some(seat) => seat,
            None => {
                return Err(GameError::ConsistencyViolation);
            },
        };
        let min_bet = match &self.profile.bet_data {
            Some(d) => d.min_bet,
            None => {
                return Err(GameError::ConsistencyViolation);
            },
        };
        let player_balance = match self.single_player_game.players.get(&seat) {
            Some(p) => p.balance,
            None => {
                return Err(GameError::ConsistencyViolation);
            },
        };
        if self.single_player_game.deck.cards.len() < 4 {
            return Err(GameError::ResourceExhausted);
        }
        if player_balance != self.profile.balance {
            return Err(GameError::ConsistencyViolation);
        }
        if min_bet.attos > player_balance.attos {
            return Err(GameError::InsufficientFunds);
        }
        match self.single_player_game.draw_initial_cards(seat) {
            Ok(()) => {},
            Err(e) => {
                return Err(e);
            },
        }
        self.single_player_game.update_status(BlackjackStatus::PlayerTurn);
        let mut player = self.single_player_game.players.remove(&seat).unwrap();
        player.current_player = true;
        let profile_balance = self.profile.balance;
        let (bet_amount, latest_balance) = match player.deal_bet(min_bet, profile_balance) {
            Ok(v) => v,
            Err(e) => {
                return Err(e);
            },
        };
        self.profile.update_balance(latest_balance);
        self.single_player_game.pot = self.single_player_game.pot.saturating_add(bet_amount);
        self.blackjack_token_pool = self.blackjack_token_pool.saturating_add(bet_amount);
        let dealer_value = calculate_hand_value(&self.single_player_game.dealer.hand);
        let player_value = calculate_hand_value(&player.hand);
        self.single_player_game.players.insert(seat, player);
        self.bankroll.update_balance(self.owner, latest_balance);
        let outcome = if dealer_value == 21 && player_value == 21 {
            GameOutcome::Draw
        } else if dealer_value == 21 {
            GameOutcome::DealerWins
        } else if player_value == 21 {
            GameOutcome::PlayerWins
        } else {
            GameOutcome::Continue
        };
        Ok(outcome)
    }

    /// Deals one card to the single player and reports what the new total decides.
    pub fn hit_single_player(&mut self) -> (r: Result<GameOutcome, GameError>)
        requires
            old(self).wf(),
        ensures
            final(self).wf(),
            !seated(old(self)) ==> r == Err::<GameOutcome, GameError>(GameError::ConsistencyViolation),
            seated(old(self)) && old(self).single_player_game.deck.cards@.len() == 0
                ==> r == Err::<GameOutcome, GameError>(GameError::ResourceExhausted),
            seated(old(self)) && old(self).single_player_game.deck.cards@.len() > 0 ==> {
                let d = old(self).single_player_game.deck.cards@;
                let p = seated_player(old(self));
                let q = seated_player(final(self));
                &&& final(self).single_player_game.deck.cards@ == d.drop_last()
                &&& final(self).single_player_game.players@ == old(self).single_player_game.players@.insert(old(self).profile.seat->0, q)
                &&& q.hand@ == p.hand@.push(d.last())
                &&& same_player(p, q) && q.bet == p.bet && q.balance == p.balance && q.current_player == p.current_player
                &&& r == Ok::<GameOutcome, GameError>(hit_outcome(hand_value(q.hand@)))
            },
            final(self).single_player_game.same_but_cards(&old(self).single_player_game),
            final(self).single_player_game.dealer == old(self).single_player_game.dealer,
            final(self).same_outside_round(old(self)),
            final(self).profile == old(self).profile,
            final(self).blackjack_token_pool == old(self).blackjack_token_pool,
            final(self).bankroll == old(self).bankroll,
    {
        let seat = match self.profile.seat {
            Some(seat) => seat,
            None => {
                return Err(GameError::ConsistencyViolation);
            },
        };
        if !self.single_player_game.players.contains_key(&seat) {
            return Err(GameError::ConsistencyViolation);
        }
        let card = match self.single_player_game.deal_card() {
            Ok(card) => card,
            Err(e) => {
                return Err(e);
            },
        };
        let mut player = self.single_player_game.players.remove(&seat).unwrap();
        player.hand.push(card);
        let value = calculate_hand_value(&player.hand);
        self.single_player_game.players.insert(seat, player);
        let outcome = if value > 21 {
            GameOutcome::DealerWins
        } else if value == 21 {
            GameOutcome::PlayerWins
        } else {
            GameOutcome::Continue
        };
        Ok(outcome)
    }

    /// Moves to the dealer's turn, lets the dealer draw up to 17 or more, and
    /// compares the totals.
    pub fn stand_single_player(&mut self) -> (r: Result<GameOutcome, GameError>)
        requires
            old(self).wf(),
        ensures
            final(self).wf(),
            ({
                let (hand, deck) = dealer_draws(old(self).single_player_game.dealer.hand@, old(self).single_player_game.deck.cards@);
                &&& hand_value(hand) < 17 ==> r == Err::<GameOutcome, GameError>(GameError::ResourceExhausted)
                &&& hand_value(hand) >= 17 && !seated(old(self)) ==> r == Err::<GameOutcome, GameError>(GameError::ConsistencyViolation)
                &&& hand_value(hand) >= 17 && seated(old(self)) ==> {
                    &&& final(self).single_player_game.dealer.hand@ == hand
                    &&& final(self).single_player_game.deck.cards@ == deck
                    &&& r == Ok::<GameOutcome, GameError>(stand_outcome(hand_value(hand), hand_value(seated_player(old(self)).hand@)))
                }
            }),
            final(self).single_player_game.status == BlackjackStatus::DealerTurn,
            final(self).single_player_game.players@ == old(self).single_player_game.players@,
            final(self).single_player_game.sequence == old(self).single_player_game.sequence,
            final(self).single_player_game.pot == old(self).single_player_game.pot,
            final(self).single_player_game.time_limit == old(self).single_player_game.time_limit,
            final(self).same_outside_round(old(self)),
            final(self).profile == old(self).profile,
            final(self).blackjack_token_pool == old(self).blackjack_token_pool,
            final(self).bankroll == old(self).bankroll,
    {
        self.single_player_game.update_status(BlackjackStatus::DealerTurn);
        let mut dealer_value = calculate_hand_value(&self.single_player_game.dealer.hand);
        while dealer_value < DEALER_STANDS_AT
            invariant
                self.single_player_game.wf(),
                self.game.wf(),
                dealer_value == hand_value(self.single_player_game.dealer.hand@),
                dealer_draws(self.single_player_game.dealer.hand@, self.single_player_game.deck.cards@)
                    == dealer_draws(old(self).single_player_game.dealer.hand@, old(self).single_player_game.deck.cards@),
                self.single_player_game.status == BlackjackStatus::DealerTurn,
                self.single_player_game.players@ == old(self).single_player_game.players@,
                self.single_player_game.sequence == old(self).single_player_game.sequence,
                self.single_player_game.pot == old(self).single_player_game.pot,
                self.single_player_game.time_limit == old(self).single_player_game.time_limit,
                self.same_outside_round(old(self)),
                self.profile == old(self).profile,
                self.blackjack_token_pool == old(self).blackjack_token_pool,
                self.bankroll == old(self).bankroll,
            decreases self.single_player_game.deck.cards@.len(),
        {
            let card = match self.single_player_game.deal_card() {
                Ok(card) => card,
                Err(e) => {
                    return Err(e);
                },
            };
            self.single_player_game.dealer.hand.push(card);
            dealer_value = calculate_hand_value(&self.single_player_game.dealer.hand);
        }
        let seat = match self.profile.seat {
            Some(seat) => seat,
            None => {
                return Err(GameError::ConsistencyViolation);
            },
        };
        let player_value = match self.single_player_game.players.get(&seat) {
            Some(p) => calculate_hand_value(&p.hand),
            None => {
                return Err(GameError::ConsistencyViolation);
            },
        };
        let outcome = if dealer_value > 21 {
            GameOutcome::PlayerWins
        } else if player_value > dealer_value {
            GameOutcome::PlayerWins
        } else if dealer_value > player_value {
            GameOutcome::DealerWins
        } else {
            GameOutcome::Draw
        };
        Ok(outcome)
    }
}


/// The state and result after paying `owed` to the single player at the end of a round.
pub open spec fn paid_out(s: &BlackjackChain, t: &BlackjackChain, owed: nat, now: u64, r: Result<Vec<Outbound>, GameError>) -> bool {
    let pool = s.blackjack_token_pool.attos as nat;
    let balance = sat_add(s.profile.balance.attos as nat, owed);
    let p = seated_player(s);
    let q = seated_player(t);
    if !seated(s) {
        r == Err::<Vec<Outbound>, GameError>(GameError::ConsistencyViolation)
    } else if pool < owed && s.token_pool_address is None {
        r == Err::<Vec<Outbound>, GameError>(GameError::ConsistencyViolation)
    } else {
        &&& r is Ok
        &&& t.single_player_game.status == BlackjackStatus::RoundEnded
        &&& t.single_player_game.sequence == next_seq(s.single_player_game.sequence)
        &&& t.single_player_game.time_limit == deadline(now, TWO_MINUTES_DURATION_IN_MICROS)
        &&& t.single_player_game.players@ == s.single_player_game.players@.insert(s.profile.seat->0, q)
        &&& same_player(p, q) && q.bet == p.bet && q.hand@ == p.hand@ && q.current_player == p.current_player
        &&& q.balance.attos == balance
        &&& t.profile.balance.attos == balance
        &&& t.blackjack_token_pool.attos == payout_pool(pool, owed)
        &&& t.bankroll.accounts@ == s.bankroll.accounts@.insert(s.owner, t.profile.balance)
        &&& pool >= owed ==> r->Ok_0@ == Seq::<Outbound>::empty() && t.bankroll.debt_log@ == s.bankroll.debt_log@
        &&& pool < owed ==> {
            let debt = Amount { attos: payout_debt(pool, owed) as u128 };
            &&& t.bankroll.debt_log@ == s.bankroll.debt_log@.insert(now, crate::bankroll::DebtRecord {
                id: now,
                user_chain: s.chain_id,
                amount: debt,
                created_at: now,
                paid_at: None,
                status: crate::bankroll::DebtStatus::Pending,
            })
            &&& r->Ok_0@ == seq![Outbound::Ledger(crate::bankroll::BankrollSend {
                destination: s.token_pool_address->0,
                message: crate::bankroll::BankrollMessage::DebtNotif { debt_id: now, amount: debt, created_at: now },
            })]
        }
    }
}

/// The ledger side of ending a round with `outcome`, for a bet of `bet`, from
/// the balance, pool, accounts and debt log that the round reached: a loss hands
/// the whole pool to the pool chain; a win pays twice the bet and a draw the bet
/// back, from the pool, any shortfall recorded as pending debt of the pool chain.
pub open spec fn settled(
    s: &BlackjackChain,
    t: &BlackjackChain,
    outcome: GameOutcome,
    bet: nat,
    balance: nat,
    pool: nat,
    accounts: Map<u64, Amount>,
    debts: Map<u64, crate::bankroll::DebtRecord>,
    now: u64,
    r: Result<Vec<Outbound>, GameError>,
) -> bool {
    if outcome == GameOutcome::DealerWins {
        &&& t.blackjack_token_pool.attos == 0
        &&& t.profile.balance.attos == balance
        &&& t.bankroll.accounts@ == accounts
        &&& t.bankroll.debt_log@ == debts
        &&& pool == 0 ==> r->Ok_0@ == Seq::<Outbound>::empty()
        &&& pool > 0 ==> r->Ok_0@ == seq![Outbound::Ledger(crate::bankroll::BankrollSend {
            destination: s.token_pool_address->0,
            message: crate::bankroll::BankrollMessage::TokenPot { amount: Amount { attos: pool as u128 } },
        })]
    } else {
        let owed = if outcome == GameOutcome::PlayerWins { sat_mul(bet, 2) } else { bet };
        let paid = sat_add(balance, owed);
        let debt = Amount { attos: payout_debt(pool, owed) as u128 };
        &&& t.profile.balance.attos == paid
        &&& seated_player(t).balance.attos == paid
        &&& t.blackjack_token_pool.attos == payout_pool(pool, owed)
        &&& t.bankroll.accounts@ == accounts.insert(s.owner, t.profile.balance)
        &&& pool >= owed ==> r->Ok_0@ == Seq::<Outbound>::empty() && t.bankroll.debt_log@ == debts
        &&& pool < owed ==> {
            &&& t.bankroll.debt_log@ == debts.insert(now, crate::bankroll::DebtRecord {
                id: now,
                user_chain: s.chain_id,
                amount: debt,
                created_at: now,
                paid_at: None,
                status: crate::bankroll::DebtStatus::Pending,
            })
            &&& r->Ok_0@ == seq![Outbound::Ledger(crate::bankroll::BankrollSend {
                destination: s.token_pool_address->0,
                message: crate::bankroll::BankrollMessage::DebtNotif { debt_id: now, amount: debt, created_at: now },
            })]
        }
    }
}

/// The state after the round is ended without a payout.
pub open spec fn round_closed(s: &BlackjackChain, t: &BlackjackChain, now: u64) -> bool {
    &&& t.single_player_game.status == BlackjackStatus::RoundEnded
    &&& t.single_player_game.sequence == next_seq(s.single_player_game.sequence)
    &&& t.single_player_game.time_limit == deadline(now, TWO_MINUTES_DURATION_IN_MICROS)
    &&& t.single_player_game.players@ == s.single_player_game.players@
}

impl BlackjackChain {
    fn end_round(&mut self, now: u64)
        ensures
            round_closed(old(self), final(self), now),
            final(self).single_player_game.deck == old(self).single_player_game.deck,
            final(self).single_player_game.count == old(self).single_player_game.count,
            final(self).single_player_game.dealer == old(self).single_player_game.dealer,
            final(self).single_player_game.pot == old(self).single_player_game.pot,
            final(self).same_outside_round(old(self)),
            final(self).profile == old(self).profile,
            final(self).blackjack_token_pool == old(self).blackjack_token_pool,
            final(self).bankroll == old(self).bankroll,
    {
        self.single_player_game.update_status(BlackjackStatus::RoundEnded);
        self.single_player_game.sequence = self.single_player_game.sequence.saturating_add(1);
        self.single_player_game.set_time_limit(now, TWO_MINUTES_DURATION_IN_MICROS);
    }

    /// Ends the round and pays `owed` to the single player from the pool. Where
    /// the pool falls short the player is still paid in full: the shortfall is
    /// recorded as a debt of the pool chain, which is notified, and the pool is
    /// emptied.
    pub fn pay_single_player(&mut self, owed: Amount, now: u64) -> (r: Result<Vec<Outbound>, GameError>)
        requires
            old(self).wf(),
        ensures
            final(self).wf(),
            paid_out(old(self), final(self), owed.attos as nat, now, r),
            final(self).single_player_game.deck == old(self).single_player_game.deck,
            final(self).single_player_game.count == old(self).single_player_game.count,
            final(self).single_player_game.dealer == old(self).single_player_game.dealer,
            final(self).single_player_game.pot == old(self).single_player_game.pot,
            final(self).same_outside_round(old(self)),
            final(self).profile.seat == old(self).profile.seat,
            final(self).profile.bet_data == old(self).profile.bet_data,
            final(self).bankroll.daily_bonus == old(self).bankroll.daily_bonus,
            final(self).bankroll.token_pot_log@ == old(self).bankroll.token_pot_log@,
    {
        let seat = match self.profile.seat {
            Some(seat) => seat,
            None => {
                return Err(GameError::ConsistencyViolation);
            },
        };
        if !self.single_player_game.players.contains_key(&seat) {
            return Err(GameError::ConsistencyViolation);
        }
        let pool = self.blackjack_token_pool;
        if pool.attos < owed.attos && self.token_pool_address.is_none() {
            return Err(GameError::ConsistencyViolation);
        }
        self.end_round(now);
        let new_balance = self.profile.balance.saturating_add(owed);
        self.profile.update_balance(new_balance);
        let mut player = self.single_player_game.players.remove(&seat).unwrap();
        player.balance = new_balance;
        self.single_player_game.players.insert(seat, player);
        self.bankroll.update_balance(self.owner, new_balance);
        let mut out: Vec<Outbound> = Vec::new();
        if pool.attos >= owed.attos {
            self.blackjack_token_pool = pool.saturating_sub(owed);
        } else {
            let debt = owed.saturating_sub(pool);
            let address = self.token_pool_address.unwrap();
            let send = self.bankroll.notify_debt(debt, address, self.chain_id, now);
            out.push(Outbound::Ledger(send));
            assert(out@ =~= seq![Outbound::Ledger(send)]);
            self.blackjack_token_pool = Amount::zero();
        }
        assert(self.single_player_game.players@ =~= old(self).single_player_game.players@.insert(seat, self.single_player_game.players@[seat]));
        Ok(out)
    }

    /// A win pays back twice the bet.
    pub fn handle_player_win(&mut self, now: u64) -> (r: Result<Vec<Outbound>, GameError>)
        requires
            old(self).wf(),
        ensures
            final(self).wf(),
            paid_out(old(self), final(self), sat_mul(seated_player(old(self)).bet.attos as nat, 2), now, r),
            final(self).same_outside_round(old(self)),
            final(self).profile.seat == old(self).profile.seat,
            final(self).single_player_game.dealer == old(self).single_player_game.dealer,
            final(self).single_player_game.deck == old(self).single_player_game.deck,
            final(self).single_player_game.count == old(self).single_player_game.count,
            final(self).single_player_game.pot == old(self).single_player_game.pot,
    {
        let seat = match self.profile.seat {
            Some(seat) => seat,
            None => {
                return Err(GameError::ConsistencyViolation);
            },
        };
        let bet = match self.single_player_game.players.get(&seat) {
            Some(p) => p.bet,
            None => {
                return Err(GameError::ConsistencyViolation);
            },
        };
        self.pay_single_player(bet.saturating_mul(2), now)
    }

    /// A draw pays back the bet.
    pub fn handle_player_draw(&mut self, now: u64) -> (r: Result<Vec<Outbound>, GameError>)
        requires
            old(self).wf(),
        ensures
            final(self).wf(),
            paid_out(old(self), final(self), seated_player(old(self)).bet.attos as nat, now, r),
            final(self).same_outside_round(old(self)),
            final(self).profile.seat == old(self).profile.seat,
            final(self).single_player_game.dealer == old(self).single_player_game.dealer,
            final(self).single_player_game.deck == old(self).single_player_game.deck,
            final(self).single_player_game.count == old(self).single_player_game.count,
            final(self).single_player_game.pot == old(self).single_player_game.pot,
    {
        let seat = match self.profile.seat {
            Some(seat) => seat,
            None => {
                return Err(GameError::ConsistencyViolation);
            },
        };
        let bet = match self.single_player_game.players.get(&seat) {
            Some(p) => p.bet,
            None => {
                return Err(GameError::ConsistencyViolation);
            },
        };
        self.pay_single_player(bet, now)
    }

    /// A loss hands the whole pool to the pool chain and ends the round.
    pub fn handle_player_bust(&mut self, now: u64) -> (r: Result<Vec<Outbound>, GameError>)
        requires
            old(self).wf(),
        ensures
            final(self).wf(),
            old(self).blackjack_token_pool.attos > 0 && old(self).token_pool_address is None
                ==> r == Err::<Vec<Outbound>, GameError>(GameError::ConsistencyViolation),
            !(old(self).blackjack_token_pool.attos > 0 && old(self).token_pool_address is None) ==> {
                &&& r is Ok
                &&& round_closed(old(self), final(self), now)
                &&& final(self).blackjack_token_pool.attos == 0
                &&& old(self).blackjack_token_pool.attos == 0 ==> r->Ok_0@ == Seq::<Outbound>::empty()
                &&& old(self).blackjack_token_pool.attos > 0 ==> r->Ok_0@ == seq![Outbound::Ledger(crate::bankroll::BankrollSend {
                    destination: old(self).token_pool_address->0,
                    message: crate::bankroll::BankrollMessage::TokenPot { amount: old(self).blackjack_token_pool },
                })]
            },
            final(self).same_outside_round(old(self)),
            final(self).profile == old(self).profile,
            final(self).bankroll == old(self).bankroll,
            final(self).single_player_game.dealer == old(self).single_player_game.dealer,
            final(self).single_player_game.deck == old(self).single_player_game.deck,
            final(self).single_player_game.count == old(self).single_player_game.count,
            final(self).single_player_game.pot == old(self).single_player_game.pot,
            final(self).profile.seat == old(self).profile.seat,
    {
        let pot_amount = self.blackjack_token_pool;
        let mut out: Vec<Outbound> = Vec::new();
        if pot_amount.attos > 0 {
            let address = match self.token_pool_address {
                Some(a) => a,
                None => {
                    return Err(GameError::ConsistencyViolation);
                },
            };
            out.push(Outbound::Ledger(self.bankroll.transfer_token_pot(pot_amount, address)));
            self.blackjack_token_pool = Amount::zero();
        }
        self.end_round(now);
        Ok(out)
    }

    /// Clears the table for the next bets: the dealer's and the player's hands,
    /// the pot and the bet; the player's balance is taken from the profile.
    pub fn prepare_next_single_player_bet_round(&mut self) -> (r: Result<(), GameError>)
        requires
            old(self).wf(),
        ensures
            final(self).wf(),
            !seated(old(self)) <==> r is Err,
            r is Err ==> r == Err::<(), GameError>(GameError::ConsistencyViolation),
            r is Ok ==> {
                let p = seated_player(old(self));
                let q = seated_player(final(self));
                let g = final(self).single_player_game;
                &&& g.dealer.hand@ == Seq::<u8>::empty()
                &&& g.pot.attos == 0
                &&& g.status == BlackjackStatus::WaitingForBets
                &&& g.players@ == old(self).single_player_game.players@.insert(old(self).profile.seat->0, q)
                &&& same_player(p, q) && q.current_player == p.current_player
                &&& q.balance == old(self).profile.balance
                &&& q.bet.attos == 0
                &&& q.hand@ == Seq::<u8>::empty()
                &&& g.sequence == old(self).single_player_game.sequence
                &&& g.deck == old(self).single_player_game.deck
            },
            final(self).same_outside_round(old(self)),
            final(self).profile == old(self).profile,
            final(self).blackjack_token_pool == old(self).blackjack_token_pool,
            final(self).bankroll == old(self).bankroll,
    {
        let seat = match self.profile.seat {
            Some(seat) => seat,
            None => {
                return Err(GameError::ConsistencyViolation);
            },
        };
        if !self.single_player_game.players.contains_key(&seat) {
            return Err(GameError::ConsistencyViolation);
        }
        self.single_player_game.dealer.hand = Vec::new();
        self.single_player_game.pot = Amount::zero();
        self.single_player_game.update_status(BlackjackStatus::WaitingForBets);
        let mut player = self.single_player_game.players.remove(&seat).unwrap();
        player.balance = self.profile.balance;
        player.reset_bet();
        player.hand = Vec::new();
        self.single_player_game.players.insert(seat, player);
        Ok(())
    }

    /// Reads the balance from the ledger (crediting any daily bonus due) and
    /// recomputes the bet limits from it.
    pub fn update_profile_balance_and_bet_data(&mut self, now: u64)
        ensures
            final(self).profile.balance.attos == sat_add(
                account_of(old(self).bankroll.accounts@, old(self).owner),
                bonus_due(old(self).bankroll.daily_bonus, old(self).parameters.bonus, now),
            ),
            final(self).bankroll.accounts@ == old(self).bankroll.accounts@.insert(old(self).owner, final(self).profile.balance),
            final(self).bankroll.daily_bonus == crate::bankroll::bonus_after(old(self).bankroll.daily_bonus, old(self).parameters.bonus, now),
            final(self).bankroll.same_logs_and_pool(&old(self).bankroll),
            final(self).profile.bet_data is Some,
            bet_data_matches(final(self).profile.balance, final(self).profile.bet_data->0),
            final(self).profile.seat == old(self).profile.seat,
            final(self).same_outside_round(old(self)),
            final(self).single_player_game == old(self).single_player_game,
            final(self).blackjack_token_pool == old(self).blackjack_token_pool,
    {
        let bonus = self.parameters.bonus;
        let balance = self.bankroll.balance(self.owner, bonus, now);
        self.profile.update_balance(balance);
        self.profile.calculate_bet_data();
    }

    /// One of the configured public chains, picked at random by the time.
    pub fn get_public_chain(&self, now: u64) -> (r: Result<ChainId, GameError>)
        ensures
            self.parameters.public_chains@.len() == 0 <==> r == Err::<ChainId, GameError>(GameError::ResourceExhausted),
            self.parameters.public_chains@.len() > 0 ==> r is Ok,
            r is Ok ==> self.parameters.public_chains@.contains(r->Ok_0),
    {
        let n = self.parameters.public_chains.len();
        if n == 0 {
            return Err(GameError::ResourceExhausted);
        }
        let t = decimal_string(now as u128);
        let seed = crate::deck::rng_seed(t.as_str(), t.as_str());
        let i = crate::deck::random_below(seed, n as u64) as usize;
        let c = self.parameters.public_chains[i];
        assert(self.parameters.public_chains@[i as int] == c);
        Ok(c)
    }

    /// Seats the user on seat 0 of a fresh single-player round, waiting for bets.
    pub fn add_user_to_new_single_player_game(&mut self, now: u64)
        ensures
            final(self).wf() <== old(self).game.wf(),
            final(self).user_status == UserStatus::InSinglePlayerGame,
            final(self).profile.seat == Some(SINGLE_PLAYER_SEAT),
            final(self).profile.balance == old(self).profile.balance,
            final(self).profile.bet_data == old(self).profile.bet_data,
            ({
                let g = final(self).single_player_game;
                let p = g.players@[SINGLE_PLAYER_SEAT];
                &&& g.deck.cards@ == fresh_shoe(now, SHOE_DECKS as nat)
                &&& g.status == BlackjackStatus::WaitingForBets
                &&& g.sequence == 1
                &&& g.time_limit == deadline(now, ONE_MINUTE_DURATION_IN_MICROS)
                &&& g.players@.dom() == set![SINGLE_PLAYER_SEAT]
                &&& p.seat_id == SINGLE_PLAYER_SEAT && p.bet.attos == 0 && p.hand@ == Seq::<u8>::empty()
                &&& p.balance == old(self).profile.balance && p.chain_id == Some(old(self).chain_id)
                &&& !p.current_player
                &&& g.dealer.hand@ == Seq::<u8>::empty()
                &&& g.pot.attos == 0
            }),
            final(self).blackjack_token_pool == old(self).blackjack_token_pool,
            final(self).bankroll == old(self).bankroll,
            final(self).token_pool_address == old(self).token_pool_address,
            final(self).game == old(self).game,
    {
        let player = Player::new(SINGLE_PLAYER_SEAT, self.profile.balance, self.chain_id);
        self.user_status = UserStatus::InSinglePlayerGame;
        self.profile.update_seat(SINGLE_PLAYER_SEAT);
        let mut game = Self::create_single_player_blackjack_game(now);
        game.update_status(BlackjackStatus::WaitingForBets);
        game.register_update_player(SINGLE_PLAYER_SEAT, player);
        game.sequence = 1;
        game.set_time_limit(now, ONE_MINUTE_DURATION_IN_MICROS);
        assert(game.players@.dom() =~= set![SINGLE_PLAYER_SEAT]);
        self.single_player_game = game;
    }
}

} // verus!
