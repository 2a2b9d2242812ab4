use vstd::prelude::*;
use std::collections::HashMap;
use crate::amount::Amount;
use crate::bankroll::{BankrollSend, BankrollState};
use crate::bet_chip_profile::Profile;
use crate::blackjack::{BlackjackGame, UserStatus};
use crate::chain::ChainId;
use crate::deck::Deck;

verus! {

/// A Blackjack operation, as a user or the master chain submits it.
#[derive(Clone, Copy, Debug, PartialEq, Eq, Structural)]
pub enum BlackjackOperation {
    SubscribeTo { chain_id: ChainId },
    UnsubscribeFrom { chain_id: ChainId },
    FindPlayChain,
    RequestTableSeat { seat_id: u8 },
    GetBalance,
    Bet { amount: Amount },
    DealBet,
    Hit,
    Stand,
    StartSinglePlayerGame,
    ExitSinglePlayerGame,
    AddPlayChain { target_public_chain: ChainId, play_chain_id: ChainId },
    MintToken { chain_id: ChainId, amount: Amount },
}

/// A message between the Blackjack applications of two chains.
#[derive(Clone, Copy, Debug, PartialEq, Eq, Structural)]
pub enum BlackjackMessage {
    FindPlayChainResult { chain_id: Option<ChainId> },
    RequestTableSeatResult { seat_id: u8, success: bool },
    Subscribe,
    Unsubscribe,
    RequestTableSeat { seat_id: u8, balance: Amount },
    FindPlayChain,
    AddPlayChain { chain_id: ChainId },
}

/// What a play chain publishes on its stream: a snapshot of its round.
#[derive(Debug, Clone)]
pub enum BlackjackEvent {
    GameState { game: BlackjackGame },
}

/// Work that a step leaves to the transport, in the order it is to be done.
#[derive(Debug, Clone)]
pub enum Outbound {
    /// Send a Blackjack message to a chain.
    Send { destination: ChainId, message: BlackjackMessage },
    /// Send a ledger message to a chain.
    Ledger(BankrollSend),
    /// Publish an event on this chain's stream.
    Emit(BlackjackEvent),
    /// Let a chain subscribe to this chain's stream.
    AddSubscriber(ChainId),
    /// Take a chain off this chain's stream.
    RemoveSubscriber(ChainId),
}

/// The settings a chain is started with.
#[derive(Debug, Clone)]
pub struct BlackjackParameters {
    pub master_chain: ChainId,
    pub public_chains: Vec<ChainId>,
    /// The daily bonus that the ledger pays.
    pub bonus: Amount,
}

/// All that one chain holds, whatever its role; each role reads its own part.
#[derive(Debug, Clone)]
pub struct BlackjackChain {
    /// This chain's identity.
    pub chain_id: ChainId,
    /// The ledger account that this chain's game plays from.
    pub owner: u64,
    pub parameters: BlackjackParameters,
    /// Tokens staked on this chain's rounds and not yet paid out or handed on.
    pub blackjack_token_pool: Amount,
    /// Public role: play chains by how many players they seat.
    pub play_chain_set: HashMap<u8, Vec<ChainId>>,
    /// Public role: the bucket each play chain is in, by chain id.
    pub play_chain_status: HashMap<u64, u8>,
    /// User role.
    pub profile: Profile,
    pub user_status: UserStatus,
    pub user_play_chain: Option<ChainId>,
    pub find_play_chain_retry: u8,
    /// User role: the player record of each shared-table seat the user was
    /// granted. A single-player game keeps its player in `single_player_game`
    /// alone; this map holds no copy of it.
    pub player_seat_map: HashMap<u8, crate::player_dealer::Player>,
    /// User role: the last snapshot published by the play chain.
    pub channel_game_state: BlackjackGame,
    pub single_player_game: BlackjackGame,
    /// User role: the chain that holds the shared pool.
    pub token_pool_address: Option<ChainId>,
    /// Play role: the table's round.
    pub game: BlackjackGame,
    /// The ledger application on this chain.
    pub bankroll: BankrollState,
}


/// What a user sees of a game: their status and profile, and a snapshot of the round.
#[derive(Debug, Clone)]
pub struct GameData {
    pub user_status: UserStatus,
    pub profile: Profile,
    pub game: BlackjackGame,
}

impl BlackjackChain {
    /// A chain that has done nothing yet: idle, with empty rounds, registry and ledger.
    pub fn new(chain_id: ChainId, owner: u64, parameters: BlackjackParameters) -> (r: BlackjackChain)
        ensures
            r.single_player_game.wf(),
            r.game.wf(),
            r.chain_id == chain_id,
            r.owner == owner,
            r.parameters == parameters,
            r.user_status == UserStatus::Idle,
            r.user_play_chain is None,
            r.find_play_chain_retry == 0,
            r.player_seat_map@ == Map::<u8, crate::player_dealer::Player>::empty(),
            r.token_pool_address is None,
            r.blackjack_token_pool.attos == 0,
            r.profile.seat is None,
            r.profile.balance.attos == 0,
            r.profile.bet_data is None,
            r.play_chain_set@ == Map::<u8, Vec<ChainId>>::empty(),
            r.play_chain_status@ == Map::<u64, u8>::empty(),
            r.single_player_game.players@ == Map::<u8, crate::player_dealer::Player>::empty(),
            r.game.players@ == Map::<u8, crate::player_dealer::Player>::empty(),
            r.bankroll.accounts@ == Map::<u64, Amount>::empty(),
            r.bankroll.blackjack_token.attos == 0,
            r.bankroll.daily_bonus.amount.attos == 0,
            r.bankroll.daily_bonus.last_claim == 0,
    {
        BlackjackChain {
            chain_id,
            owner,
            parameters,
            blackjack_token_pool: Amount::zero(),
            play_chain_set: HashMap::new(),
            play_chain_status: HashMap::new(),
            profile: Profile { seat: None, balance: Amount::zero(), bet_data: None },
            user_status: UserStatus::Idle,
            user_play_chain: None,
            find_play_chain_retry: 0,
            player_seat_map: HashMap::new(),
            channel_game_state: BlackjackGame::new(Deck::empty()),
            single_player_game: BlackjackGame::new(Deck::empty()),
            token_pool_address: None,
            game: BlackjackGame::new(Deck::empty()),
            bankroll: BankrollState::new(),
        }
    }

    /// The single-player view: status, profile and the round without its deck.
    pub fn single_player_data(&self) -> (r: GameData)
        ensures
            r.user_status == self.user_status,
            r.game.deck.cards@ == Seq::<u8>::empty(),
            r.game.players@ == self.single_player_game.players@,
            r.game.dealer.hand@ == self.single_player_game.dealer.hand@,
            r.game.same_but_cards(&self.single_player_game),
    {
        GameData {
            user_status: self.user_status,
            profile: self.profile.clone(),
            game: self.single_player_game.data_for_event(),
        }
    }

    /// The shared-table view: status, profile and the last published round.
    pub fn multi_player_data(&self) -> (r: GameData)
        ensures
            r.user_status == self.user_status,
            r.game.deck.cards@ == Seq::<u8>::empty(),
            r.game.players@ == self.channel_game_state.players@,
            r.game.dealer.hand@ == self.channel_game_state.dealer.hand@,
            r.game.same_but_cards(&self.channel_game_state),
    {
        GameData {
            user_status: self.user_status,
            profile: self.profile.clone(),
            game: self.channel_game_state.data_for_event(),
        }
    }
}

} // verus!
