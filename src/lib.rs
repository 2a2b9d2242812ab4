//! A multi-party Blackjack game whose state is split across cooperating chains:
//! the card engine, the bet-limit engine, the round state machine, the token
//! ledger and the cross-chain coordination protocol, each stated and proved.
pub mod amount;
pub mod bankroll;
pub mod bet_chip_profile;
pub mod blackjack;
pub mod card;
pub mod chain;
pub mod chipset;
pub mod chipset_profile;
pub mod deck;
pub mod laws;
pub mod operations;
pub mod player_dealer;
pub mod poker;
pub mod protocol;
pub mod registry;
pub mod state;
pub mod table;
pub mod text;
